// Tests of an actor's lifecycle, its context, its processor and the
// processor's command loop.

use parrot::thread::actor::{ActorError, ActorMessage, ActorState, Reply, Step, ThreadActor};
use parrot::thread::config::{BackpressureStrategy, SchedulingMode, SupervisorStrategy, ThreadActorConfig};
use parrot::thread::context::ThreadContext;
use parrot::thread::envelope::ControlMessage;
use parrot::thread::error::SystemError;
use parrot::thread::mailbox::mpsc::MpscMailbox;
use parrot::thread::processor::command::{batch_size, recycle_batch, CommandLoop, LoopAction, ProcessorCommand};
use parrot::thread::processor::processing::{ActorProcessor, MessageOutcome};
use parrot::thread::processor::{ActorProcessorManager, ProcessorStatus};
use parrot::thread::processor::manager::ProcessorEntry;
use std::time::Duration;

fn context(path: &str) -> ThreadContext {
    ThreadContext::new(path.to_string(), None, SupervisorStrategy::Stop)
}

fn other_reason(step: &Step) -> String {
    match step {
        Step::Fail(ActorError::Other(r)) => r.clone(),
        _ => panic!("expected a failure"),
    }
}

#[test]
fn test_actor_lifecycle() {
    let ctx = context("/a");
    let mut actor = ThreadActor::new("/a".to_string());
    assert_eq!(actor.state(), ActorState::Starting);
    assert!(actor.initialize().is_ok());

    let step = actor.process_message(ActorMessage::User(1), &ctx);
    assert_eq!(other_reason(&step), "Actor is not running");

    let step = actor.process_message(ActorMessage::Control(ControlMessage::Start), &ctx);
    assert!(matches!(step, Step::Done(Reply::Unit)));
    assert_eq!(actor.state(), ActorState::Running);
    match actor.initialize() {
        Err(ActorError::Other(r)) => assert_eq!(r, "Actor is already initialized"),
        _ => panic!("an actor is initialised once"),
    }

    assert!(matches!(actor.process_message(ActorMessage::User(9), &ctx), Step::Deliver(9)));
    assert!(matches!(actor.process_message(ActorMessage::Ask(4), &ctx), Step::DeliverAsk(4)));
    assert!(matches!(
        actor.process_message(ActorMessage::Control(ControlMessage::HealthCheck), &ctx),
        Step::Done(Reply::State(ActorState::Running))
    ));

    assert!(matches!(actor.process_message(ActorMessage::Control(ControlMessage::Stop), &ctx), Step::RunStopHook));
    assert_eq!(actor.state(), ActorState::Stopping);
    let watchers = actor.finish_shutdown();
    assert!(watchers.is_empty());
    assert_eq!(actor.state(), ActorState::Stopped);

    assert!(matches!(
        actor.process_message(ActorMessage::Control(ControlMessage::SystemShutdown), &ctx),
        Step::Done(Reply::Unit)
    ));
    assert!(matches!(actor.process_message(ActorMessage::Control(ControlMessage::Start), &ctx), Step::Done(Reply::Unit)));
    assert_eq!(actor.state(), ActorState::Stopped);
}

#[test]
fn test_actor_watchers() {
    let ctx = context("/a");
    let mut actor = ThreadActor::new("/a".to_string());
    actor.process_message(ActorMessage::Watch("/w1".to_string()), &ctx);
    actor.process_message(ActorMessage::Watch("/w2".to_string()), &ctx);
    actor.process_message(ActorMessage::Watch("/w1".to_string()), &ctx);
    let mut watchers = actor.watchers();
    watchers.sort();
    assert_eq!(watchers, vec!["/w1".to_string(), "/w2".to_string()]);

    actor.process_message(ActorMessage::Unwatch("/w1".to_string()), &ctx);
    assert_eq!(actor.watchers(), vec!["/w2".to_string()]);

    assert!(matches!(actor.shutdown(), Step::RunStopHook));
    assert_eq!(actor.finish_shutdown(), vec!["/w2".to_string()]);
}

#[test]
fn test_child_failure_needs_the_child() {
    let mut ctx = context("/p");
    let mut actor = ThreadActor::new("/p".to_string());
    let failure = ControlMessage::ChildFailure { path: "/p/c".to_string(), reason: "crash".to_string() };
    let step = actor.process_message(ActorMessage::Control(failure.clone()), &ctx);
    assert_eq!(other_reason(&step), "Child actor reference not found");

    ctx.add_child("/p/c".to_string(), 5);
    match actor.process_message(ActorMessage::Control(failure), &ctx) {
        Step::ChildTerminated(p) => assert_eq!(p, "/p/c"),
        _ => panic!("the child's hook runs"),
    }
}

#[test]
fn test_context_bookkeeping() {
    let mut ctx = ThreadContext::new("/p".to_string(), Some(1), SupervisorStrategy::Escalate);
    assert_eq!(ctx.parent(), Some(1));
    assert_eq!(ctx.backpressure_strategy(), BackpressureStrategy::Block);
    match ctx.stop() {
        Err(ActorError::Other(r)) => assert_eq!(r, "Self reference not set"),
        _ => panic!("no own handle yet"),
    }

    ctx.set_self_ref(10);
    assert_eq!(ctx.get_self_ref(), 10);
    ctx.add_child("/p/a".to_string(), 20);
    ctx.add_child("/p/b".to_string(), 21);
    let (me, mut children) = ctx.stop().unwrap();
    children.sort();
    assert_eq!(me, 10);
    assert_eq!(children, vec![20, 21]);
    assert_eq!(ctx.remove_child("/p/a"), Some(20));
    assert_eq!(ctx.remove_child("/p/a"), None);
    assert_eq!(ctx.children_handles(), vec![21]);

    assert_eq!(ctx.ask_timeout(None), Duration::from_secs(5));
    assert_eq!(ctx.ask_timeout(Some(Duration::from_secs(2))), Duration::from_secs(2));
    ctx.set_receive_timeout(Some(Duration::from_millis(30)));
    assert_eq!(ctx.ask_timeout(Some(Duration::from_secs(2))), Duration::from_millis(30));

    ctx.set_supervisor_strategy();
    assert!(matches!(
        ctx.supervisor_strategy(),
        SupervisorStrategy::Restart { max_retries: 3, within } if within == Duration::from_secs(10)
    ));
    match ctx.spawn_strategy(false) {
        Err(ActorError::Other(r)) => assert_eq!(r, "Actor system not available"),
        _ => panic!("the system is gone"),
    }
    assert!(matches!(ctx.spawn_strategy(true), Ok(SupervisorStrategy::Restart { .. })));
    ctx.set_backpressure_strategy(BackpressureStrategy::DropNewest);
    assert_eq!(ctx.backpressure_strategy(), BackpressureStrategy::DropNewest);
    assert_eq!(ctx.path(), "/p");
}

fn processor(path: &str) -> ActorProcessor<MpscMailbox> {
    ActorProcessor::new(
        ThreadActor::new(path.to_string()),
        context(path),
        MpscMailbox::new(16, path.to_string()),
        path.to_string(),
        ThreadActorConfig::default(),
    )
}

#[test]
fn test_processor_lifecycle() {
    let mut p = processor("/a");
    assert_eq!(p.get_status(), ProcessorStatus::Initializing);

    match p.process_message(ActorMessage::User(1)) {
        Err(ActorError::Other(r)) => assert_eq!(r, "Actor at /a is not running, current status: Initializing"),
        _ => panic!("not running yet"),
    }

    assert!(p.check_initialize().is_ok());
    assert!(p.initialize_actor(Ok(())).is_ok());
    assert!(p.start_actor().is_ok());
    assert_eq!(p.get_status(), ProcessorStatus::Running);

    assert!(matches!(p.process_message(ActorMessage::User(1)), Ok(Step::Deliver(1))));
    p.record_outcome(&MessageOutcome::Handled);
    assert!(matches!(p.process_message(ActorMessage::Control(ControlMessage::HealthCheck)), Ok(Step::Done(_))));
    let stats = p.get_statistics();
    assert_eq!(stats.messages_processed, 2);
    assert_eq!(stats.errors_encountered, 0);

    match p.check_initialize() {
        Err(e) => assert_eq!(e.to_string(), "Actor creation failed: Failed to initialize actor at /a: Actor is already initialized"),
        Ok(()) => panic!("an actor is initialised once"),
    }
    assert_eq!(p.get_status(), ProcessorStatus::Failed);
    p.resume();

    assert!(p.stop_actor().is_none());
    assert_eq!(p.get_status(), ProcessorStatus::Stopping);
    let (result, watchers) = p.finish_stop(Err(ActorError::Other("hook failed".to_string())));
    match result {
        Err(e) => assert_eq!(e.to_string(), "Actor creation failed: Failed to stop actor at /a: hook failed"),
        Ok(()) => panic!("the hook failed"),
    }
    assert!(watchers.is_empty());
    assert_eq!(p.get_status(), ProcessorStatus::Failed);
    assert_eq!(p.get_statistics().errors_encountered, 2);
    assert!(matches!(p.stop_actor(), Some(Ok(()))));
    assert_eq!(p.get_status(), ProcessorStatus::Stopped);
}

#[test]
fn test_processor_initialization_failure() {
    let mut p = processor("/b");
    match p.initialize_actor(Err(ActorError::InitializationError("no config".to_string()))) {
        Err(SystemError::ActorCreationError(r)) => assert_eq!(r, "Failed to initialize actor at /b: no config"),
        _ => panic!("initialisation failed"),
    }
    assert_eq!(p.get_status(), ProcessorStatus::Failed);
}

#[test]
fn test_processor_batches() {
    let mut p = processor("/c");
    p.check_initialize().unwrap();
    p.initialize_actor(Ok(())).unwrap();
    p.start_actor().unwrap();
    assert!(!p.has_pending_messages());

    let mut run = p.begin_batch(3);
    assert_eq!(p.batch_next(&mut run), None);
    assert!(run.ended);

    let mut mailbox = MpscMailbox::new(16, "/c".to_string());
    mailbox.push(1, BackpressureStrategy::Block).unwrap();
    let mut p = ActorProcessor::new(
        ThreadActor::new("/c".to_string()),
        context("/c"),
        mailbox,
        "/c".to_string(),
        ThreadActorConfig::default(),
    );
    let mut run = p.begin_batch(3);
    assert_eq!(p.batch_next(&mut run), None);
    p.resume();
    assert!(p.has_pending_messages());
    assert_eq!(p.batch_next(&mut run), Some(1));
    p.batch_record(&mut run, &MessageOutcome::Panicked("boom".to_string()));
    assert!(run.ended && run.had_error);
    assert_eq!(run.processed, 1);
    assert_eq!(p.batch_next(&mut run), None);

    match p.panic_error("boom") {
        ActorError::Panic(r) => assert_eq!(r, "Panic in actor /c: boom"),
        _ => panic!("a panic"),
    }
    p.pause();
    assert_eq!(p.get_status(), ProcessorStatus::Paused);
    assert_eq!(p.path(), "/c");
}

#[test]
fn test_command_loop() {
    let config = ThreadActorConfig {
        scheduling_mode: Some(SchedulingMode::SharedPool { max_messages_per_run: 7 }),
        ..Default::default()
    };
    let mut l = CommandLoop::new("/a".to_string(), config);
    assert!(l.begin_start());
    assert!(!l.begin_start());
    assert_eq!(l.batch_size(), 7);
    assert_eq!(l.on_command(ProcessorCommand::ProcessBatch { max_messages: 3 }), LoopAction::RunBatch(3));
    assert_eq!(l.on_command(ProcessorCommand::Resume), LoopAction::RunBatch(7));
    assert_eq!(l.on_command(ProcessorCommand::Pause), LoopAction::Wait);
    assert_eq!(l.on_command(ProcessorCommand::Stop), LoopAction::Exit);
    l.shutdown();
    assert!(!l.accepting());

    let dedicated = ThreadActorConfig { scheduling_mode: Some(SchedulingMode::DedicatedThread), ..Default::default() };
    assert_eq!(batch_size(&dedicated), 102400);
    let sized = ThreadActorConfig { mailbox_capacity: Some(64), ..dedicated };
    assert_eq!(batch_size(&sized), 64);
    assert_eq!(batch_size(&ThreadActorConfig::default()), 1024);
}

#[test]
fn test_recycled_batch_rotates_the_mailbox() {
    let mut mailbox = MpscMailbox::new(8, "/a".to_string());
    for id in [1u64, 2, 3] {
        mailbox.push(id, BackpressureStrategy::Block).unwrap();
    }
    assert_eq!(recycle_batch(&mut mailbox, 2).unwrap(), 2);
    assert_eq!(mailbox.pop(), Some(3));
    assert_eq!(mailbox.pop(), Some(1));
    assert_eq!(mailbox.pop(), Some(2));

    let mut empty = MpscMailbox::new(8, "/b".to_string());
    assert_eq!(recycle_batch(&mut empty, 5).unwrap(), 0);
}

#[test]
fn test_processor_manager() {
    let mut m = ActorProcessorManager::new();
    m.register_processor("/a".to_string(), ProcessorEntry { handle: 1, status: ProcessorStatus::Running });
    m.register_processor("/b".to_string(), ProcessorEntry { handle: 2, status: ProcessorStatus::Paused });
    m.register_processor("/c".to_string(), ProcessorEntry { handle: 3, status: ProcessorStatus::Running });
    assert_eq!(m.processor_count(), 3);
    assert!(m.has_processor("/b"));
    assert_eq!(m.get_processor_by_path("/b").unwrap().handle, 2);
    assert_eq!(m.find_processors_with_status(ProcessorStatus::Running), vec!["/a".to_string(), "/c".to_string()]);
    assert!(m.set_processor_status("/b", ProcessorStatus::Running));
    assert!(!m.set_processor_status("/z", ProcessorStatus::Running));
    assert!(m.remove_processor("/a"));
    assert!(!m.remove_processor("/a"));
    assert_eq!(m.get_all_processor_paths(), vec!["/b".to_string(), "/c".to_string()]);
    assert_eq!(ProcessorStatus::from_code(ProcessorStatus::Stopping.code()), ProcessorStatus::Stopping);
    assert_eq!(ProcessorStatus::from_code(99), ProcessorStatus::Failed);
}

#[test]
fn test_new_actor_has_no_watchers() {
    let actor = ThreadActor::new("/a".to_string());
    assert!(actor.watchers().is_empty());
}

#[test]
fn test_process_batch_runs_the_handler() {
    let mut mailbox = MpscMailbox::new(16, "/d".to_string());
    for id in 1..=5u64 {
        mailbox.push(id, BackpressureStrategy::Block).unwrap();
    }
    let mut p = ActorProcessor::new(
        ThreadActor::new("/d".to_string()),
        context("/d"),
        mailbox,
        "/d".to_string(),
        ThreadActorConfig::default(),
    );
    assert_eq!(p.process_batch(3, |_id: u64| MessageOutcome::Handled), (0, false));

    p.check_initialize().unwrap();
    p.initialize_actor(Ok(())).unwrap();
    p.start_actor().unwrap();
    let handler = |id: u64| {
        if id == 2 {
            MessageOutcome::Failed(ActorError::Other("bad".to_string()))
        } else {
            MessageOutcome::Handled
        }
    };
    assert_eq!(p.process_batch(3, handler), (3, true));
    assert_eq!(p.get_statistics().messages_processed, 3);
    assert_eq!(p.get_statistics().errors_encountered, 1);

    let panicking = |id: u64| {
        if id == 4 { MessageOutcome::Panicked("boom".to_string()) } else { MessageOutcome::Handled }
    };
    assert_eq!(p.process_batch(10, panicking), (1, true));
    assert_eq!(p.process_batch(10, |_id: u64| MessageOutcome::Handled), (1, false));
    assert!(!p.has_pending_messages());
}

#[test]
fn test_processors_can_be_changed_in_place() {
    let mut m = ActorProcessorManager::new();
    m.processors_mut().insert("/x".to_string(), ProcessorEntry { handle: 9, status: ProcessorStatus::Running });
    assert!(m.has_processor("/x"));
    assert_eq!(m.processor_count(), 1);
    m.processors_mut().remove("/x");
    assert!(!m.has_processor("/x"));
}
