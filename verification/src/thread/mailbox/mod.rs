//! Mailboxes: bounded FIFO queues of message ids with backpressure strategies.
//!
//! A mailbox queues the ids of the messages sent to one actor; the messages
//! themselves are kept by whoever assigned the ids. Three mailboxes share one
//! model, `MailboxModel`, and one rule for what a push does (`after_push`,
//! `push_verdict`): `MpscMailbox` over a `flume` channel, `SpscMailbox` over a
//! `tokio` channel and `SpscRingbufMailbox` over a `ringbuf` ring buffer.
//!
//! A push with `BackpressureStrategy::Block` into a full mailbox waits for
//! space; these synchronous mailboxes leave that input to the caller, which
//! waits until `block_step` answers `Push` (or `Closed`) and then pushes.

use vstd::prelude::*;
use crate::thread::config::BackpressureStrategy;
use crate::thread::error::MailboxError;

pub mod channels;
pub mod mpsc;

pub mod ring;
pub mod spsc;

pub mod spsc_ringbuf;

verus! {

/// The abstract state of a mailbox.
pub struct MailboxModel {
    /// Queued message ids, oldest first.
    pub queue: Seq<u64>,
    /// The most ids the mailbox holds.
    pub capacity: nat,
    /// Whether the mailbox was closed.
    pub closed: bool,
    /// Whether the mailbox signals that it has work (kept by the mailboxes that track it).
    pub ready: bool,
    /// Path of the actor the mailbox belongs to.
    pub path: Seq<char>,
}

/// Whether a queue is at its capacity.
pub open spec fn full(queue: Seq<u64>, capacity: nat) -> bool {
    queue.len() >= capacity
}

/// The queue after `DropOldest` made room: the oldest id goes when the queue is full.
pub open spec fn drop_oldest_if_full(queue: Seq<u64>, capacity: nat) -> Seq<u64> {
    if full(queue, capacity) && queue.len() > 0 {
        queue.drop_first()
    } else {
        queue
    }
}

/// The queue after pushing `id` with `strategy`.
pub open spec fn after_push(queue: Seq<u64>, capacity: nat, closed: bool, id: u64, strategy: BackpressureStrategy) -> Seq<u64> {
    if closed {
        queue
    } else {
        match strategy {
            BackpressureStrategy::DropOldest => {
                let room = drop_oldest_if_full(queue, capacity);
                if room.len() < capacity { room.push(id) } else { room }
            },
            _ => if full(queue, capacity) { queue } else { queue.push(id) },
        }
    }
}

/// Whether pushing `id` with `strategy` queues it.
pub open spec fn enqueues(queue: Seq<u64>, capacity: nat, closed: bool, strategy: BackpressureStrategy) -> bool {
    !closed && match strategy {
        BackpressureStrategy::DropOldest => drop_oldest_if_full(queue, capacity).len() < capacity,
        _ => !full(queue, capacity),
    }
}

/// What a push answers.
pub enum PushVerdict {
    /// `Ok(())`: queued, or dropped as `DropNewest` asks.
    Accepted,
    /// `MailboxError::Closed`.
    Closed,
    /// `MailboxError::Full` with the mailbox's capacity.
    Full,
    /// `MailboxError::PushError` with this text.
    Failed(Seq<char>),
}

/// The text of the push failure when `DropOldest` cannot make room (a zero-capacity mailbox).
pub open spec fn drop_oldest_failure() -> Seq<char> {
    "Failed to push message after dropping oldest"@
}

/// What pushing with `strategy` answers.
pub open spec fn push_verdict(queue: Seq<u64>, capacity: nat, closed: bool, strategy: BackpressureStrategy) -> PushVerdict {
    if closed {
        PushVerdict::Closed
    } else {
        match strategy {
            BackpressureStrategy::DropNewest => PushVerdict::Accepted,
            BackpressureStrategy::DropOldest => {
                if drop_oldest_if_full(queue, capacity).len() < capacity {
                    PushVerdict::Accepted
                } else {
                    PushVerdict::Failed(drop_oldest_failure())
                }
            },
            _ => if full(queue, capacity) { PushVerdict::Full } else { PushVerdict::Accepted },
        }
    }
}

/// Whether `r` is the answer that `v` describes for a mailbox of the given capacity.
pub open spec fn answers(r: Result<(), MailboxError>, v: PushVerdict, capacity: nat) -> bool {
    match v {
        PushVerdict::Accepted => r is Ok,
        PushVerdict::Closed => r matches Err(MailboxError::Closed),
        PushVerdict::Full => r matches Err(MailboxError::Full { capacity: c }) && c == capacity,
        PushVerdict::Failed(t) => r matches Err(MailboxError::PushError(s)) && s@ == t,
    }
}

/// Whether a push with `strategy` is one these mailboxes answer at once: every
/// push except a `Block` push into an open, full mailbox, which must wait.
pub open spec fn answers_at_once(m: MailboxModel, strategy: BackpressureStrategy) -> bool {
    !(strategy is Block && !m.closed && full(m.queue, m.capacity))
}

/// The model after a push of `id` with `strategy`, given whether the mailbox
/// tracks its ready flag.
pub open spec fn model_after_push(m: MailboxModel, id: u64, strategy: BackpressureStrategy) -> MailboxModel {
    MailboxModel {
        queue: after_push(m.queue, m.capacity, m.closed, id, strategy),
        ready: m.ready || enqueues(m.queue, m.capacity, m.closed, strategy),
        ..m
    }
}

/// The model after a pop.
pub open spec fn model_after_pop(m: MailboxModel) -> MailboxModel {
    let queue = if m.queue.len() > 0 { m.queue.drop_first() } else { m.queue };
    MailboxModel { queue, ready: queue.len() > 0, ..m }
}

/// What a pop returns: the oldest id, if any.
pub open spec fn pop_result(m: MailboxModel) -> Option<u64> {
    if m.queue.len() > 0 { Some(m.queue[0]) } else { None }
}

/// The model after `close`: closed and drained.
pub open spec fn model_after_close(m: MailboxModel) -> MailboxModel {
    MailboxModel { queue: Seq::empty(), closed: true, ..m }
}

/// Whatever is pushed, with whatever strategy, a mailbox never holds more
/// than its capacity.
pub proof fn law_push_keeps_capacity(queue: Seq<u64>, capacity: nat, closed: bool, id: u64, strategy: BackpressureStrategy)
    requires
        queue.len() <= capacity,
    ensures
        after_push(queue, capacity, closed, id, strategy).len() <= capacity,
{
}

/// A message pushed into an open mailbox with room goes to the back, behind
/// every queued message, whatever the strategy, and the push succeeds.
pub proof fn law_push_with_room_appends(queue: Seq<u64>, capacity: nat, id: u64, strategy: BackpressureStrategy)
    requires
        queue.len() < capacity,
    ensures
        after_push(queue, capacity, false, id, strategy) == queue.push(id),
        push_verdict(queue, capacity, false, strategy) is Accepted,
{
}

/// Messages come out in the order they went in: a pop takes the oldest.
pub proof fn law_pop_takes_the_oldest(m: MailboxModel, id: u64)
    requires
        m.queue.len() < m.capacity,
        !m.closed,
    ensures
        pop_result(MailboxModel { queue: m.queue.push(id), ..m }) == Some(if m.queue.len() > 0 { m.queue[0] } else { id }),
        model_after_pop(MailboxModel { queue: m.queue.push(id), ..m }).queue
            == (if m.queue.len() > 0 { m.queue.drop_first().push(id) } else { Seq::<u64>::empty() }),
{
    if m.queue.len() == 0 {
        assert(m.queue.push(id).drop_first() =~= Seq::<u64>::empty());
    } else {
        assert(m.queue.push(id).drop_first() =~= m.queue.drop_first().push(id));
    }
}

/// A closed mailbox refuses every push with `Closed` and keeps its queue.
pub proof fn law_closed_mailbox_refuses(queue: Seq<u64>, capacity: nat, id: u64, strategy: BackpressureStrategy)
    ensures
        after_push(queue, capacity, true, id, strategy) == queue,
        push_verdict(queue, capacity, true, strategy) is Closed,
{
}

/// On a full open mailbox: `DropNewest` drops the new message and succeeds,
/// `Error` fails with `Full` and keeps the queue, and `DropOldest` drops the
/// oldest message to queue the new one (or, at capacity zero, fails).
pub proof fn law_full_mailbox_strategies(queue: Seq<u64>, capacity: nat, id: u64)
    requires
        queue.len() == capacity,
    ensures
        after_push(queue, capacity, false, id, BackpressureStrategy::DropNewest) == queue,
        push_verdict(queue, capacity, false, BackpressureStrategy::DropNewest) is Accepted,
        after_push(queue, capacity, false, id, BackpressureStrategy::Error) == queue,
        push_verdict(queue, capacity, false, BackpressureStrategy::Error) is Full,
        capacity > 0 ==> after_push(queue, capacity, false, id, BackpressureStrategy::DropOldest) == queue.drop_first().push(id),
        capacity > 0 ==> push_verdict(queue, capacity, false, BackpressureStrategy::DropOldest) is Accepted,
        capacity == 0 ==> push_verdict(queue, capacity, false, BackpressureStrategy::DropOldest) == PushVerdict::Failed(drop_oldest_failure()),
{
}

} // verus!

verus! {

/// The operations every mailbox offers, stated over `MailboxModel`.
pub trait Mailbox {
    /// The mailbox's abstract state.
    spec fn model(&self) -> MailboxModel;

    /// The mailbox's internal consistency.
    spec fn well_formed(&self) -> bool;

    /// A consistent mailbox holds at most its capacity.
    proof fn lemma_within_capacity(&self)
        requires
            self.well_formed(),
        ensures
            self.model().queue.len() <= self.model().capacity,
    ;

    /// Pushes message `id` with `strategy` (see `after_push` and `push_verdict`).
    fn push_id(&mut self, id: u64, strategy: BackpressureStrategy) -> (r: Result<(), MailboxError>)
        requires
            old(self).well_formed(),
            answers_at_once(old(self).model(), strategy),
        ensures
            final(self).well_formed(),
            final(self).model().queue == after_push(
                old(self).model().queue,
                old(self).model().capacity,
                old(self).model().closed,
                id,
                strategy,
            ),
            final(self).model().capacity == old(self).model().capacity,
            final(self).model().closed == old(self).model().closed,
            final(self).model().path == old(self).model().path,
            answers(r, push_verdict(old(self).model().queue, old(self).model().capacity, old(self).model().closed, strategy), old(self).model().capacity),
    ;

    /// Removes and returns the oldest id, or `None` when empty.
    fn pop_id(&mut self) -> (r: Option<u64>)
        requires
            old(self).well_formed(),
        ensures
            final(self).well_formed(),
            r == pop_result(old(self).model()),
            final(self).model().queue == model_after_pop(old(self).model()).queue,
            final(self).model().capacity == old(self).model().capacity,
            final(self).model().closed == old(self).model().closed,
            final(self).model().path == old(self).model().path,
    ;

    /// Whether no id is queued.
    fn no_messages(&self) -> (b: bool)
        requires
            self.well_formed(),
        ensures
            b == (self.model().queue.len() == 0),
    ;

    /// The number of queued ids.
    fn queued(&self) -> (n: usize)
        requires
            self.well_formed(),
        ensures
            n == self.model().queue.len(),
    ;

    /// The most ids the mailbox holds.
    fn bound(&self) -> (n: usize)
        ensures
            n == self.model().capacity,
    ;

    /// Whether the mailbox was closed.
    fn is_shut(&self) -> (b: bool)
        ensures
            b == self.model().closed,
    ;

    /// Closes the mailbox and drops every queued id.
    fn shut(&mut self)
        requires
            old(self).well_formed(),
        ensures
            final(self).well_formed(),
            final(self).model().queue == Seq::<u64>::empty(),
            final(self).model().closed,
            final(self).model().capacity == old(self).model().capacity,
            final(self).model().path == old(self).model().path,
    ;
}

impl Mailbox for mpsc::MpscMailbox {
    open spec fn model(&self) -> MailboxModel {
        self@
    }

    open spec fn well_formed(&self) -> bool {
        self.wf()
    }

    proof fn lemma_within_capacity(&self) {
        mpsc::MpscMailbox::lemma_within_capacity(self);
    }

    fn push_id(&mut self, id: u64, strategy: BackpressureStrategy) -> (r: Result<(), MailboxError>) {
        mpsc::MpscMailbox::push(self, id, strategy)
    }

    fn pop_id(&mut self) -> (r: Option<u64>) {
        mpsc::MpscMailbox::pop(self)
    }

    fn no_messages(&self) -> (b: bool) {
        mpsc::MpscMailbox::is_empty(self)
    }

    fn queued(&self) -> (n: usize) {
        mpsc::MpscMailbox::len(self)
    }

    fn bound(&self) -> (n: usize) {
        mpsc::MpscMailbox::capacity(self)
    }

    fn is_shut(&self) -> (b: bool) {
        mpsc::MpscMailbox::is_closed(self)
    }

    fn shut(&mut self) {
        mpsc::MpscMailbox::close(self)
    }
}

impl Mailbox for spsc::SpscMailbox {
    open spec fn model(&self) -> MailboxModel {
        self@
    }

    open spec fn well_formed(&self) -> bool {
        self.wf()
    }

    proof fn lemma_within_capacity(&self) {
        spsc::SpscMailbox::lemma_within_capacity(self);
    }

    fn push_id(&mut self, id: u64, strategy: BackpressureStrategy) -> (r: Result<(), MailboxError>) {
        spsc::SpscMailbox::push(self, id, strategy)
    }

    fn pop_id(&mut self) -> (r: Option<u64>) {
        spsc::SpscMailbox::pop(self)
    }

    fn no_messages(&self) -> (b: bool) {
        spsc::SpscMailbox::is_empty(self)
    }

    fn queued(&self) -> (n: usize) {
        spsc::SpscMailbox::len(self)
    }

    fn bound(&self) -> (n: usize) {
        spsc::SpscMailbox::capacity(self)
    }

    fn is_shut(&self) -> (b: bool) {
        spsc::SpscMailbox::is_closed(self)
    }

    fn shut(&mut self) {
        spsc::SpscMailbox::close(self)
    }
}

impl Mailbox for spsc_ringbuf::SpscRingbufMailbox {
    open spec fn model(&self) -> MailboxModel {
        self@
    }

    open spec fn well_formed(&self) -> bool {
        self.wf()
    }

    proof fn lemma_within_capacity(&self) {
        spsc_ringbuf::SpscRingbufMailbox::lemma_within_capacity(self);
    }

    fn push_id(&mut self, id: u64, strategy: BackpressureStrategy) -> (r: Result<(), MailboxError>) {
        spsc_ringbuf::SpscRingbufMailbox::push(self, id, strategy)
    }

    fn pop_id(&mut self) -> (r: Option<u64>) {
        spsc_ringbuf::SpscRingbufMailbox::pop(self)
    }

    fn no_messages(&self) -> (b: bool) {
        spsc_ringbuf::SpscRingbufMailbox::is_empty(self)
    }

    fn queued(&self) -> (n: usize) {
        spsc_ringbuf::SpscRingbufMailbox::len(self)
    }

    fn bound(&self) -> (n: usize) {
        spsc_ringbuf::SpscRingbufMailbox::capacity(self)
    }

    fn is_shut(&self) -> (b: bool) {
        spsc_ringbuf::SpscRingbufMailbox::is_closed(self)
    }

    fn shut(&mut self) {
        spsc_ringbuf::SpscRingbufMailbox::close(self)
    }
}

} // verus!

verus! {

/// What a `Block` push does next.
#[derive(Debug, Clone, Copy, PartialEq, Eq, Structural)]
pub enum BlockStep {
    /// The mailbox is closed: the push fails with `Closed` at once.
    Closed,
    /// There is room: push now.
    Push,
    /// The mailbox is full: wait for space, then look again.
    Wait,
}

/// What a `Block` push into a mailbox in state `m` does next: a closed mailbox
/// refuses, one with room takes the message, a full one makes the push wait.
pub open spec fn spec_block_step(m: MailboxModel) -> BlockStep {
    if m.closed {
        BlockStep::Closed
    } else if !full(m.queue, m.capacity) {
        BlockStep::Push
    } else {
        BlockStep::Wait
    }
}

/// A `Block` push that waited until `block_step` answered `Push` succeeds
/// and puts the message last, behind every queued one.
pub proof fn law_block_push_after_waiting(m: MailboxModel, id: u64)
    requires
        spec_block_step(m) == BlockStep::Push,
    ensures
        answers_at_once(m, BackpressureStrategy::Block),
        after_push(m.queue, m.capacity, m.closed, id, BackpressureStrategy::Block) == m.queue.push(id),
        push_verdict(m.queue, m.capacity, m.closed, BackpressureStrategy::Block) is Accepted,
{
}

/// A `Block` push waits only while the mailbox is open and full: a closed
/// mailbox refuses it, and an open one with fewer messages than its capacity
/// takes it at once.
pub proof fn law_block_waits_only_when_full(m: MailboxModel)
    ensures
        m.closed <==> spec_block_step(m) == BlockStep::Closed,
        !m.closed && m.queue.len() < m.capacity ==> spec_block_step(m) == BlockStep::Push,
        spec_block_step(m) == BlockStep::Wait <==> (!m.closed && m.queue.len() >= m.capacity),
        spec_block_step(m) == BlockStep::Push <==> (!m.closed && m.queue.len() < m.capacity),
{
}

/// Decides the next step of a `Block` push into `mailbox` (see
/// `spec_block_step`). The push waits as long as it takes: the caller waits
/// and asks again while the answer is `Wait`; on `Push` or `Closed` the push
/// is answered at once.
pub fn block_step<M: Mailbox>(mailbox: &M) -> (s: BlockStep)
    requires
        mailbox.well_formed(),
    ensures
        s == spec_block_step(mailbox.model()),
        s != BlockStep::Wait ==> answers_at_once(mailbox.model(), BackpressureStrategy::Block),
{
    if mailbox.is_shut() {
        BlockStep::Closed
    } else if mailbox.queued() < mailbox.bound() {
        BlockStep::Push
    } else {
        BlockStep::Wait
    }
}

} // verus!

verus! {

/// The queue after pushing `ids`, in order, each with `strategy`.
pub open spec fn push_all(queue: Seq<u64>, capacity: nat, closed: bool, ids: Seq<u64>, strategy: BackpressureStrategy) -> Seq<u64>
    decreases ids.len(),
{
    if ids.len() == 0 {
        queue
    } else {
        after_push(push_all(queue, capacity, closed, ids.drop_last(), strategy), capacity, closed, ids.last(), strategy)
    }
}

/// What `k` pops in a row return, starting from `queue`.
pub open spec fn pops(queue: Seq<u64>, k: nat) -> Seq<Option<u64>>
    decreases k,
{
    if k == 0 {
        Seq::empty()
    } else if queue.len() > 0 {
        seq![Some(queue[0])] + pops(queue.drop_first(), (k - 1) as nat)
    } else {
        seq![None::<u64>] + pops(queue, (k - 1) as nat)
    }
}

/// Messages come out in the order they went in: pushing `ids` one after the
/// other into an open mailbox that has room for all of them queues them behind
/// what was there, whatever the strategy, and popping once more than the
/// mailbox holds returns every message, oldest first, then `None`.
pub proof fn law_fifo(queue: Seq<u64>, capacity: nat, ids: Seq<u64>, strategy: BackpressureStrategy)
    requires
        queue.len() + ids.len() <= capacity,
    ensures
        push_all(queue, capacity, false, ids, strategy) == queue + ids,
        pops(queue + ids, (queue.len() + ids.len() + 1) as nat)
            == (queue + ids).map_values(|x: u64| Some(x)).push(None),
{
    lemma_push_all_appends(queue, capacity, ids, strategy);
    lemma_pops_drain(queue + ids);
}

/// Pushing into room appends (see `law_fifo`).
proof fn lemma_push_all_appends(queue: Seq<u64>, capacity: nat, ids: Seq<u64>, strategy: BackpressureStrategy)
    requires
        queue.len() + ids.len() <= capacity,
    ensures
        push_all(queue, capacity, false, ids, strategy) == queue + ids,
    decreases ids.len(),
{
    if ids.len() == 0 {
        assert(queue + ids =~= queue);
    } else {
        lemma_push_all_appends(queue, capacity, ids.drop_last(), strategy);
        assert((queue + ids.drop_last()).push(ids.last()) =~= queue + ids);
    }
}

/// Popping once more than a queue holds drains it in order (see `law_fifo`).
proof fn lemma_pops_drain(q: Seq<u64>)
    ensures
        pops(q, (q.len() + 1) as nat) == q.map_values(|x: u64| Some(x)).push(None),
    decreases q.len(),
{
    if q.len() == 0 {
        assert(pops(q, 0) == Seq::<Option<u64>>::empty());
        assert(pops(q, 1) =~= seq![None::<u64>]);
        assert(q.map_values(|x: u64| Some(x)).push(None) =~= seq![None::<u64>]);
    } else {
        lemma_pops_drain(q.drop_first());
        assert(q.map_values(|x: u64| Some(x)).push(None)
            =~= seq![Some(q[0])] + q.drop_first().map_values(|x: u64| Some(x)).push(None));
    }
}

} // verus!
