// Tests of the thread actor system's decisions, the registry of named systems,
// actor references and the logging presets.

use parrot::logging::{LogConfig, LogLevel};
use parrot::system::{shutdown_result, ParrotActorSystem};
use parrot::thread::actor::{ActorError, ActorState, Reply};
use parrot::thread::address::{AskWait, ThreadActorRef};
use parrot::thread::config::{BackpressureStrategy, SchedulingMode, SupervisorStrategy, ThreadActorSystemConfig};
use parrot::thread::envelope::ControlMessage;
use parrot::thread::error::{MailboxError, SpawnError, SystemError};
use parrot::thread::mailbox::spsc::SpscMailbox;
use parrot::thread::system::{parent_path, MailboxKind, SystemState, ThreadActorSystem};
use std::time::Duration;

fn system() -> ThreadActorSystem {
    ThreadActorSystem::new(ThreadActorSystemConfig::default())
}

#[test]
fn test_system_creation() {
    let config = ThreadActorSystemConfig::default();
    let system = ThreadActorSystem::new(config);

    assert_eq!(system.is_shutting_down(), false);
    assert_eq!(system.status().1, 0);
}

#[test]
fn test_system_shutdown() {
    let config = ThreadActorSystemConfig::default();
    let mut system = ThreadActorSystem::new(config);

    let (targets, threads) = system.shutdown_internal();
    assert!(targets.is_empty() && threads.is_empty(), "System shutdown failed: {:?}", targets);
    assert_eq!(system.is_shutting_down(), true);
    assert_eq!(system.status().0, SystemState::ShuttingDown);
}

#[test]
fn test_spawn_registers_and_schedules() {
    let mut system = system();
    let plan = system.spawn_internal(None, "parent", 1, 100).unwrap();
    assert_eq!(plan.path, "/parent");
    assert_eq!(plan.mailbox_kind, MailboxKind::Mpsc);
    assert_eq!(plan.mailbox_capacity, 1024);
    assert_eq!(plan.backpressure_strategy, BackpressureStrategy::Block);
    assert_eq!(plan.ask_timeout, Duration::from_secs(5));
    assert!(matches!(plan.supervisor_strategy, SupervisorStrategy::Restart { max_retries: 3, .. }));
    assert!(plan.parent_ref.is_none());
    assert!(plan.thread.is_none());

    let child = system.spawn_internal(Some("/parent"), "child", 2, 101).unwrap();
    assert_eq!(child.path, "/parent/child");
    assert_eq!(child.parent_ref, Some(1));
    assert_eq!(system.get_actor("/parent/child"), Some(2));
    assert_eq!(system.lookup("/parent/child"), Some(101));

    match system.spawn_internal(None, "parent", 3, 102) {
        Err(SpawnError::ActorPathAlreadyExists(p)) => assert_eq!(p, "/parent"),
        _ => panic!("the path is taken"),
    }
    assert_eq!(system.status().1, 2);
    assert_eq!(system.broadcast_targets(), vec![1, 2]);
}

#[test]
fn test_spawn_on_dedicated_threads() {
    let config = ThreadActorSystemConfig {
        default_scheduling_mode: SchedulingMode::DedicatedThread,
        max_dedicated_threads: 1,
        ..ThreadActorSystemConfig::default()
    };
    let mut system = ThreadActorSystem::new(config);
    let plan = system.spawn_internal(None, "solo", 1, 10).unwrap();
    assert_eq!(plan.mailbox_kind, MailboxKind::SpscRingbuf);
    assert_eq!(plan.thread.unwrap().thread_name, "dedicated-actor--solo");

    match system.spawn_internal(None, "second", 2, 11) {
        Err(SpawnError::SchedulerError(t)) => {
            assert_eq!(t, "Configuration error: Maximum number of dedicated threads (1) reached");
        }
        _ => panic!("the dedicated pool is full"),
    }
    assert_eq!(system.get_actor("/second"), None);

    let (stop_ref, result) = system.stop_by_path("/solo");
    assert_eq!(stop_ref, Some(1));
    assert!(result.is_ok());
    assert!(system.spawn_internal(None, "second", 2, 11).is_ok());
}

#[test]
fn test_stop_watch_and_health() {
    let mut system = system();
    system.spawn_internal(None, "a", 1, 10).unwrap();
    system.spawn_internal(None, "b", 2, 11).unwrap();

    assert_eq!(system.watch("/a", "/b").unwrap(), 2);
    match system.watch("/a", "/nobody") {
        Err(SystemError::ActorNotFound(p)) => assert_eq!(p, "/nobody"),
        _ => panic!("unknown target"),
    }
    match system.unwatch("/ghost", "/b") {
        Err(SystemError::ActorNotFound(p)) => assert_eq!(p, "/ghost"),
        _ => panic!("unknown watcher"),
    }
    assert_eq!(
        ThreadActorSystem::request_failure(false, "/a", "/b", "closed").to_string(),
        "Internal system error: Failed to send watch request from /a to /b: closed"
    );
    assert_eq!(
        ThreadActorSystem::request_failure(true, "/a", "/b", "closed").to_string(),
        "Internal system error: Failed to send unwatch request from /a to /b: closed"
    );

    assert_eq!(system.check_health("/a").unwrap(), 1);
    assert!(matches!(
        ThreadActorSystem::health_from_reply("/a", Ok(Reply::State(ActorState::Running))),
        Ok(ActorState::Running)
    ));
    match ThreadActorSystem::health_from_reply("/a", Ok(Reply::Unit)) {
        Err(e) => assert_eq!(e.to_string(), "Internal system error: Failed to extract actor state from health check response"),
        Ok(_) => panic!("no state in the reply"),
    }
    match ThreadActorSystem::health_from_reply("/a", Err("gone".to_string())) {
        Err(e) => assert_eq!(e.to_string(), "Internal system error: Failed to send health check to actor at /a: gone"),
        Ok(_) => panic!("the check was not sent"),
    }

    let (stop_ref, result) = system.stop_by_path("/a");
    assert_eq!(stop_ref, Some(1));
    assert!(result.is_ok());
    assert_eq!(system.get_actor("/a"), None);
    match system.stop_by_path("/a").1 {
        Err(SystemError::ActorNotFound(p)) => assert_eq!(p, "/a"),
        _ => panic!("already stopped"),
    }
    let (stop_ref, result) = system.handle_panic("/b");
    assert_eq!(stop_ref, Some(2));
    assert!(result.is_ok());
}

#[test]
fn test_termination_notifies_the_parent() {
    let mut system = system();
    system.spawn_internal(None, "p", 1, 10).unwrap();
    system.spawn_internal(Some("/p"), "c", 2, 11).unwrap();

    match system.handle_actor_termination("/p/c", None) {
        Some((parent, ControlMessage::ChildFailure { path, reason })) => {
            assert_eq!(parent, 1);
            assert_eq!(path, "/p/c");
            assert_eq!(reason, "Unknown reason");
        }
        _ => panic!("the parent is told"),
    }
    assert_eq!(system.get_actor("/p/c"), None);
    assert!(system.handle_actor_termination("/p", Some("crash".to_string())).is_none());
    assert_eq!(system.status().1, 0);

    assert_eq!(parent_path("/p/c"), Some("/p".to_string()));
    assert_eq!(parent_path("/p"), Some("".to_string()));
    assert_eq!(parent_path("p"), None);
}

#[test]
fn test_shutdown_stops_every_actor() {
    let mut system = system();
    system.spawn_internal(None, "a", 1, 10).unwrap();
    system.spawn_internal(None, "b", 2, 11).unwrap();
    let (targets, _) = system.shutdown_internal();
    assert_eq!(targets, vec![1, 2]);
    assert!(matches!(system.spawn_internal(None, "c", 3, 12), Err(SpawnError::SystemShutdown)));
    let (stop_ref, result) = system.stop_by_path("/a");
    assert!(stop_ref.is_none() && result.is_ok());
    assert_eq!(system.status().1, 0);
    assert_eq!(system.get_actor("/a"), None);
    assert_eq!(system.get_actor("/b"), None);
    assert_eq!(
        ThreadActorSystem::shutdown_timeout_error(&Duration::from_millis(100)).to_string(),
        "Operation timed out: Actor system shutdown timed out after 100ms"
    );
}

#[test]
fn test_start_config() {
    let config = ThreadActorSystem::start_config(Some(3), Duration::from_secs(2), 4, Duration::from_secs(30), Duration::from_secs(9));
    assert_eq!(config.shared_pool_size, 3);
    assert_eq!(config.shared_queue_capacity, 10000);
    assert_eq!(config.max_dedicated_threads, 32);
    assert_eq!(config.default_ask_timeout, Duration::from_secs(2));
    assert!(matches!(config.default_supervisor_strategy, SupervisorStrategy::Restart { max_retries: 4, .. }));
    assert_eq!(config.shutdown_timeout, Duration::from_secs(9));
    let config = ThreadActorSystem::start_config(None, Duration::from_secs(2), 4, Duration::from_secs(30), Duration::from_secs(9));
    assert_eq!(config.shared_pool_size, num_cpus::get());
}

#[test]
fn test_named_systems_registry() {
    let mut registry: ParrotActorSystem<u32> = ParrotActorSystem::new();
    match registry.get_default_system_name() {
        Err(e) => assert_eq!(e.to_string(), "Internal system error: No default system registered"),
        Ok(_) => panic!("no default yet"),
    }
    registry.register_system("one".to_string(), 1, false).unwrap();
    registry.register_system("two".to_string(), 2, false).unwrap();
    registry.register_system("three".to_string(), 3, false).unwrap();
    assert_eq!(registry.get_default_system_name().unwrap(), "one");
    assert_eq!(*registry.spawn_target().unwrap(), 1);

    registry.set_default_system("two").unwrap();
    assert_eq!(registry.lookup_order(), vec!["two".to_string(), "one".to_string(), "three".to_string()]);
    match registry.set_default_system("four") {
        Err(e) => assert_eq!(e.to_string(), "Internal system error: System not found: four"),
        Ok(_) => panic!("unknown system"),
    }
    match registry.get_system_impl("four") {
        Err(e) => assert_eq!(e.to_string(), "Internal system error: System not found: four"),
        Ok(_) => panic!("unknown system"),
    }
    registry.register_system("three".to_string(), 33, true).unwrap();
    assert_eq!(*registry.spawn_target().unwrap(), 33);
    assert_eq!(registry.list_registered_systems().unwrap(), vec!["one".to_string(), "two".to_string(), "three".to_string()]);

    assert!(shutdown_result(&Vec::new()).is_ok());
    let failures = vec![("a".to_string(), "x".to_string()), ("b".to_string(), "y".to_string())];
    match shutdown_result(&failures) {
        Err(e) => assert_eq!(e.to_string(), "Internal system error: Failed to shut down system a: x; Failed to shut down system b: y"),
        Ok(()) => panic!("two systems failed"),
    }
}

#[test]
fn test_actor_reference() {
    let actor_ref = ThreadActorRef::new("/a".to_string(), BackpressureStrategy::Error, Duration::from_secs(1));
    let mut mailbox = SpscMailbox::new(1, "/a".to_string());
    assert!(actor_ref.send(Some(&mut mailbox), 1).is_ok());
    match actor_ref.send(Some(&mut mailbox), 2) {
        Err(ActorError::Other(r)) => assert_eq!(r, "Mailbox error for actor /a: Mailbox is full (capacity: 1)"),
        _ => panic!("the mailbox is full"),
    }
    assert!(actor_ref.push_to_mailbox(Some(&mut mailbox), 3, BackpressureStrategy::DropNewest).is_ok());
    assert_eq!(mailbox.len(), 1);

    match actor_ref.dead_reference_error() {
        ActorError::Other(r) => assert_eq!(r, "Actor reference is dead (target: /a)"),
        _ => panic!("dead"),
    }
    match actor_ref.send_timeout_error(&Duration::from_millis(20)) {
        ActorError::Other(r) => assert_eq!(r, "Send timed out after 20ms for actor /a"),
        _ => panic!("timeout"),
    }
    assert_eq!(actor_ref.ask_outcome(AskWait::Replied(Ok(7))).unwrap(), 7);
    match actor_ref.ask_outcome(AskWait::TimedOut(1500)) {
        Err(ActorError::Other(r)) => assert_eq!(r, "Request to actor /a timed out after 1500ms"),
        _ => panic!("timeout"),
    }
    match actor_ref.ask_outcome(AskWait::ChannelClosed) {
        Err(ActorError::Other(r)) => assert_eq!(r, "Reply channel closed for ask to /a"),
        _ => panic!("closed"),
    }

    actor_ref.stop(&mut mailbox);
    assert!(mailbox.is_closed());
    match actor_ref.send(Some(&mut mailbox), 4) {
        Err(ActorError::Other(r)) => assert_eq!(r, "Mailbox error for actor /a: Mailbox is closed"),
        _ => panic!("closed"),
    }
}

#[test]
fn test_logging_presets() {
    let default = LogConfig::default();
    assert_eq!(default.level, LogLevel::Info);
    assert!(default.filter_directives().is_empty());

    let dev = LogConfig::development();
    assert_eq!(dev.level, LogLevel::Debug);
    assert_eq!(dev.filter_directives(), vec!["parrot=debug".to_string(), "parrot::thread=trace".to_string()]);

    let prod = LogConfig::production();
    assert!(prod.json_format && !prod.show_file_line);

    let test = LogConfig::test();
    assert_eq!(test.level, LogLevel::Warn);
    assert!(!test.show_thread_info && !test.show_time);

    let odd = LogConfig { target_filters: Some("a,,b,".to_string()), ..LogConfig::default() };
    assert_eq!(
        odd.filter_directives(),
        vec!["a".to_string(), "".to_string(), "b".to_string(), "".to_string()]
    );
}

#[test]
fn test_send_message() {
    let payloads = vec!["Hello, actor!"];
    let mut mailbox = parrot::thread::mailbox::mpsc::MpscMailbox::new(10, "test-actor".to_string());
    let actor_ref = ThreadActorRef::new("test-actor".to_string(), BackpressureStrategy::Block, Duration::from_secs(1));

    let result = actor_ref.send(Some(&mut mailbox), 0);
    assert!(result.is_ok());

    let received = mailbox.pop();
    assert!(received.is_some());
    assert_eq!(payloads[received.unwrap() as usize], "Hello, actor!");
}

#[test]
fn test_dead_reference() {
    let mut mailbox = Some(parrot::thread::mailbox::mpsc::MpscMailbox::new(10, "test-actor".to_string()));
    let actor_ref = ThreadActorRef::new("test-actor".to_string(), BackpressureStrategy::Block, Duration::from_secs(1));

    // The mailbox is dropped: the actor is dead.
    mailbox = None;

    let payloads = vec!["This should fail"];
    let result = actor_ref.send(mailbox.as_mut(), 0);
    assert!(result.is_err());
    assert_eq!(payloads.len(), 1);
}

#[test]
fn test_dead_reference_answers_sends_and_asks() {
    let actor_ref = ThreadActorRef::new("/gone".to_string(), BackpressureStrategy::Error, Duration::from_secs(1));
    match actor_ref.send::<SpscMailbox>(None, 1) {
        Err(ActorError::Other(r)) => assert_eq!(r, "Actor reference is dead (target: /gone)"),
        _ => panic!("the mailbox is gone"),
    }
    let pushed = actor_ref.push_to_mailbox::<SpscMailbox>(None, 2, BackpressureStrategy::Block);
    match actor_ref.ask_result(pushed, None) {
        Err(ActorError::Other(r)) => assert_eq!(r, "Actor reference is dead (target: /gone)"),
        _ => panic!("the mailbox is gone"),
    }
}

#[test]
fn test_ask_result_after_a_push() {
    let actor_ref = ThreadActorRef::new("/a".to_string(), BackpressureStrategy::Error, Duration::from_secs(1));
    let mut mailbox = SpscMailbox::new(1, "/a".to_string());
    let pushed = actor_ref.push_to_mailbox(Some(&mut mailbox), 5, BackpressureStrategy::Error);
    assert_eq!(mailbox.len(), 1);
    assert_eq!(actor_ref.ask_result(pushed, Some(AskWait::Replied(Ok(9)))).unwrap(), 9);

    let refused = actor_ref.push_to_mailbox(Some(&mut mailbox), 6, BackpressureStrategy::Error);
    assert_eq!(mailbox.len(), 1);
    match actor_ref.ask_result(refused, None) {
        Err(ActorError::Other(r)) => assert_eq!(r, "Mailbox error for actor /a: Mailbox is full (capacity: 1)"),
        _ => panic!("the mailbox is full"),
    }

    let queued = actor_ref.push_to_mailbox(Some(&mut mailbox), 7, BackpressureStrategy::DropOldest);
    match actor_ref.ask_result(queued, Some(AskWait::TimedOut(250))) {
        Err(ActorError::Other(r)) => assert_eq!(r, "Request to actor /a timed out after 250ms"),
        _ => panic!("no reply came"),
    }
    assert_eq!(mailbox.pop(), Some(7));

    match actor_ref.mailbox_failure_error(&MailboxError::Closed) {
        ActorError::Other(r) => assert_eq!(r, "Mailbox error for actor /a: Mailbox is closed"),
        _ => panic!("closed"),
    }
}

#[test]
fn test_spawn_then_stop_restores_the_registry() {
    let mut system = system();
    system.spawn_internal(None, "keep", 1, 10).unwrap();
    system.spawn_internal(None, "gone", 2, 11).unwrap();
    let (_, result) = system.stop_by_path("/gone");
    assert!(result.is_ok());
    assert_eq!(system.broadcast_targets(), vec![1]);
    assert_eq!(system.get_actor("/keep"), Some(1));
    assert_eq!(system.get_actor("/gone"), None);
}

#[test]
fn test_dedicated_spawn_failure_rolls_back() {
    let config = ThreadActorSystemConfig {
        default_scheduling_mode: SchedulingMode::DedicatedThread,
        max_dedicated_threads: 1,
        ..ThreadActorSystemConfig::default()
    };
    let mut system = ThreadActorSystem::new(config);
    system.spawn_internal(None, "solo", 1, 10).unwrap();
    match system.dedicated_spawn_failed("/solo", "out of threads") {
        SpawnError::SchedulerError(t) => {
            assert_eq!(t, "Internal system error: Failed to spawn dedicated thread: out of threads")
        }
        _ => panic!("the spawn failed"),
    }
    assert_eq!(system.get_actor("/solo"), None);
    assert!(system.spawn_internal(None, "other", 2, 11).is_ok());
}

#[test]
fn test_new_registry_lists_no_system() {
    let registry: ParrotActorSystem<u32> = ParrotActorSystem::new();
    assert!(registry.list_registered_systems().unwrap().is_empty());
    assert!(registry.lookup_order().is_empty());
}

#[test]
fn test_actor_id_text() {
    let id = parrot::actix::types::ActorId::new("worker-1");
    assert_eq!(id.name(), "worker-1");
    assert_eq!(id.to_string(), "worker-1");
}
