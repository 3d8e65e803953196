//! References to thread-based actors: sending and asking through the actor's
//! mailbox, and the errors a sender sees.

use vstd::prelude::*;
use std::time::Duration;
use crate::thread::actor::ActorError;
use crate::thread::config::BackpressureStrategy;
use crate::thread::error::{duration_debug, duration_to_debug_string, MailboxError};
use crate::thread::mailbox::{after_push, answers, answers_at_once, push_verdict, Mailbox, PushVerdict};
use crate::thread::text::{decimal, decimal_string_u64, join2, join3, join4};

verus! {

/// The reason given when the actor's mailbox is gone.
pub open spec fn dead_reference_text(path: Seq<char>) -> Seq<char> {
    "Actor reference is dead (target: "@ + path + ")"@
}

/// The reason given when the actor's mailbox refused a message.
pub open spec fn mailbox_failure_text(path: Seq<char>, e: MailboxError) -> Seq<char> {
    "Mailbox error for actor "@ + path + ": "@ + e.text()
}

/// The reason given when a send did not finish in time.
pub open spec fn send_timeout_text(path: Seq<char>, timeout: Duration) -> Seq<char> {
    "Send timed out after "@ + duration_debug(timeout) + " for actor "@ + path
}

/// The reason given when the reply channel of an ask closed without a reply.
pub open spec fn reply_closed_text(path: Seq<char>) -> Seq<char> {
    "Reply channel closed for ask to "@ + path
}

/// The reason given when no reply came within the ask's timeout.
pub open spec fn ask_timeout_text(path: Seq<char>, timeout_ms: nat) -> Seq<char> {
    "Request to actor "@ + path + " timed out after "@ + decimal(timeout_ms) + "ms"@
}

/// How the wait for an ask's reply ended.
#[derive(Debug)]
pub enum AskWait {
    /// The actor replied (the id of its answer, or its error).
    Replied(Result<u64, ActorError>),
    /// The reply channel closed without a reply.
    ChannelClosed,
    /// No reply came within this many milliseconds.
    TimedOut(u64),
}

/// A reference to the actor at a path, with the strategy and timeout its
/// sends and asks use by default. The actor's mailbox is handed to each call
/// by the reference's owner, which holds it weakly: `None` once it is gone.
#[derive(Debug)]
pub struct ThreadActorRef {
    path: String,
    default_strategy: BackpressureStrategy,
    default_timeout: Duration,
}

impl ThreadActorRef {
    /// The actor's path.
    pub closed spec fn spec_path(&self) -> Seq<char> {
        self.path@
    }

    /// The backpressure strategy of the reference's sends.
    pub closed spec fn spec_default_strategy(&self) -> BackpressureStrategy {
        self.default_strategy
    }

    /// The timeout of the reference's asks.
    pub closed spec fn spec_default_timeout(&self) -> Duration {
        self.default_timeout
    }

    /// A reference to the actor at `path`.
    pub fn new(path: String, default_strategy: BackpressureStrategy, default_timeout: Duration) -> (r: Self)
        ensures
            r.spec_path() == path@,
            r.spec_default_strategy() == default_strategy,
            r.spec_default_timeout() == default_timeout,
    {
        ThreadActorRef { path, default_strategy, default_timeout }
    }

    /// The error every call answers once the actor's mailbox is gone.
    pub fn dead_reference_error(&self) -> (e: ActorError)
        ensures
            e matches ActorError::Other(t) && t@ == dead_reference_text(self.spec_path()),
    {
        ActorError::Other(join3("Actor reference is dead (target: ", self.path.as_str(), ")"))
    }

    /// Pushes the message `msg` into the actor's mailbox with `strategy`. The
    /// mailbox is `None` once it is gone, and the answer is then the dead
    /// reference error; a refusal of the mailbox becomes an error naming the actor.
    pub fn push_to_mailbox<M: Mailbox>(&self, mailbox: Option<&mut M>, msg: u64, strategy: BackpressureStrategy) -> (r: Result<(), ActorError>)
        requires
            mailbox matches Some(m) ==> m.well_formed() && answers_at_once(m.model(), strategy),
        ensures
            mailbox is None ==> (r matches Err(ActorError::Other(t)) && t@ == dead_reference_text(self.spec_path())),
            mailbox matches Some(m) ==> {
                &&& final(m).well_formed()
                &&& final(m).model().queue == after_push(m.model().queue, m.model().capacity, m.model().closed, msg, strategy)
                &&& final(m).model().capacity == m.model().capacity
                &&& final(m).model().closed == m.model().closed
                &&& final(m).model().path == m.model().path
                &&& push_verdict(m.model().queue, m.model().capacity, m.model().closed, strategy) is Accepted ==> r is Ok
                &&& !(push_verdict(m.model().queue, m.model().capacity, m.model().closed, strategy) is Accepted) ==> (
                    r matches Err(ActorError::Other(t)) && exists|e: MailboxError|
                        #[trigger] answers(Err(e), push_verdict(m.model().queue, m.model().capacity, m.model().closed, strategy),
                            m.model().capacity) && t@ == mailbox_failure_text(self.spec_path(), e))
            },
    {
        match mailbox {
            None => Err(self.dead_reference_error()),
            Some(m) => {
                let ghost before = m.model();
                match m.push_id(msg, strategy) {
                    Ok(()) => Ok(()),
                    Err(e) => {
                        proof {
                            assert(answers(Err(e), push_verdict(before.queue, before.capacity, before.closed, strategy),
                                before.capacity));
                        }
                        Err(self.mailbox_failure_error(&e))
                    },
                }
            },
        }
    }

    /// The error when the actor's mailbox refused a message with `e`.
    pub fn mailbox_failure_error(&self, e: &MailboxError) -> (r: ActorError)
        ensures
            r matches ActorError::Other(t) && t@ == mailbox_failure_text(self.spec_path(), *e),
    {
        let reason = e.to_string();
        ActorError::Other(join4("Mailbox error for actor ", self.path.as_str(), ": ", reason.as_str()))
    }

    /// Sends `msg` with the reference's default strategy (see `push_to_mailbox`):
    /// an error when the mailbox is gone or refuses the message, `Ok` otherwise.
    pub fn send<M: Mailbox>(&self, mailbox: Option<&mut M>, msg: u64) -> (r: Result<(), ActorError>)
        requires
            mailbox matches Some(m) ==> m.well_formed() && answers_at_once(m.model(), self.spec_default_strategy()),
        ensures
            mailbox is None ==> (r matches Err(ActorError::Other(t)) && t@ == dead_reference_text(self.spec_path())),
            mailbox matches Some(m) ==> {
                &&& final(m).well_formed()
                &&& final(m).model().queue == after_push(m.model().queue, m.model().capacity, m.model().closed, msg,
                    self.spec_default_strategy())
                &&& final(m).model().capacity == m.model().capacity
                &&& final(m).model().closed == m.model().closed
                &&& final(m).model().path == m.model().path
                &&& (push_verdict(m.model().queue, m.model().capacity, m.model().closed, self.spec_default_strategy())
                    is Accepted) <==> r is Ok
            },
    {
        self.push_to_mailbox(mailbox, msg, self.default_strategy)
    }

    /// The error when a send did not finish within `timeout`.
    pub fn send_timeout_error(&self, timeout: &Duration) -> (e: ActorError)
        ensures
            e matches ActorError::Other(t) && t@ == send_timeout_text(self.spec_path(), *timeout),
    {
        let d = duration_to_debug_string(timeout);
        ActorError::Other(join4("Send timed out after ", d.as_str(), " for actor ", self.path.as_str()))
    }

    /// Reads how the wait for an ask's reply ended: the actor's reply is the
    /// answer; a closed channel or a timeout is an error naming the actor.
    pub fn ask_outcome(&self, wait: AskWait) -> (r: Result<u64, ActorError>)
        ensures
            wait matches AskWait::Replied(reply) ==> r == reply,
            wait is ChannelClosed ==> (r matches Err(ActorError::Other(t)) && t@ == reply_closed_text(self.spec_path())),
            wait matches AskWait::TimedOut(ms) ==> (r matches Err(ActorError::Other(t)) && t@ == ask_timeout_text(self.spec_path(), ms as nat)),
    {
        match wait {
            AskWait::Replied(reply) => reply,
            AskWait::ChannelClosed => Err(ActorError::Other(join2("Reply channel closed for ask to ", self.path.as_str()))),
            AskWait::TimedOut(ms) => {
                let n = decimal_string_u64(ms);
                let head = join3("Request to actor ", self.path.as_str(), " timed out after ");
                Err(ActorError::Other(join3(head.as_str(), n.as_str(), "ms")))
            },
        }
    }

    /// The answer of an ask from how its push ended and, when the request was
    /// queued, how the wait for the reply ended: a failed push (a dead reference
    /// or a refusing mailbox) is answered at once and nothing is waited for;
    /// otherwise the wait decides, as in `ask_outcome`.
    pub fn ask_result(&self, pushed: Result<(), ActorError>, wait: Option<AskWait>) -> (r: Result<u64, ActorError>)
        requires
            pushed is Ok <==> wait is Some,
        ensures
            pushed matches Err(e) ==> r == Err::<u64, ActorError>(e),
            wait matches Some(AskWait::Replied(reply)) ==> r == reply,
            wait matches Some(AskWait::ChannelClosed) ==> (r matches Err(ActorError::Other(t)) && t@ == reply_closed_text(
                self.spec_path())),
            wait matches Some(AskWait::TimedOut(ms)) ==> (r matches Err(ActorError::Other(t)) && t@ == ask_timeout_text(
                self.spec_path(), ms as nat)),
    {
        match pushed {
            Err(e) => Err(e),
            Ok(()) => self.ask_outcome(wait.unwrap()),
        }
    }

    /// Stops the actor: its mailbox is closed and every queued message dropped.
    pub fn stop<M: Mailbox>(&self, mailbox: &mut M)
        requires
            old(mailbox).well_formed(),
        ensures
            final(mailbox).well_formed(),
            final(mailbox).model().queue == Seq::<u64>::empty(),
            final(mailbox).model().closed,
            final(mailbox).model().capacity == old(mailbox).model().capacity,
            final(mailbox).model().path == old(mailbox).model().path,
    {
        mailbox.shut()
    }

    /// The actor's path.
    pub fn path(&self) -> (p: String)
        ensures
            p@ == self.spec_path(),
    {
        self.path.clone()
    }

    /// The backpressure strategy of the reference's sends.
    pub fn default_strategy(&self) -> (s: BackpressureStrategy)
        ensures
            s == self.spec_default_strategy(),
    {
        self.default_strategy
    }

    /// The timeout of the reference's asks.
    pub fn default_timeout(&self) -> (d: Duration)
        ensures
            d == self.spec_default_timeout(),
    {
        self.default_timeout
    }
}

} // verus!
