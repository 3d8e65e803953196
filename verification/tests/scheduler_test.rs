// Tests of the schedulers: the dedicated thread pool and scheduler, the
// multi-threaded scheduler, the shared pool and their workers.

use parrot::thread::config::{BackpressureStrategy, SchedulingMode, ThreadActorConfig};
use parrot::thread::error::SystemError;
use parrot::thread::mailbox::mpsc::MpscMailbox;
use parrot::thread::mailbox::spsc_ringbuf::SpscRingbufMailbox;
use parrot::thread::scheduler::dedicated::{actor_loop_step, ActorLoopStep, DedicatedThreadPool};
use parrot::thread::scheduler::dedicated_thread::worker::{BatchEnd, RunStep, Worker as DedicatedWorker, WorkerCommand, WorkerState};
use parrot::thread::scheduler::dedicated_thread::{DedicatedThreadConfig, DedicatedThreadScheduler, SchedulerStatus};
use parrot::thread::scheduler::multi_thread::worker::{Worker, WorkerConfig, WorkerStatus};
use parrot::thread::scheduler::multi_thread::MultiThreadScheduler;
use parrot::thread::scheduler::queue::SchedulingQueue;
use parrot::thread::scheduler::shared::pool::{SharedThreadPool, SharedThreadPoolConfig};
use parrot::thread::scheduler::shared::worker::{run_pool_batch, should_requeue, Worker as PoolWorker};
use parrot::thread::scheduler::ThreadSchedulerFactory;
use std::time::Duration;

fn dedicated_config() -> ThreadActorConfig {
    ThreadActorConfig { scheduling_mode: Some(SchedulingMode::DedicatedThread), ..Default::default() }
}

#[test]
fn test_dedicated_thread_creation() {
    let mut pool = DedicatedThreadPool::new(5);
    let mut mailbox = SpscRingbufMailbox::new(100, "test/actor1".to_string());
    let config = dedicated_config();

    pool.schedule("test/actor1", Some(config)).unwrap();

    let count = pool.thread_count();
    assert_eq!(count, 1, "应有一个专用线程被创建");

    let has_thread = pool.has_dedicated_thread("test/actor1");
    assert!(has_thread, "actor应该有专用线程");

    let payloads = vec![42];
    mailbox.push(0, BackpressureStrategy::Block).unwrap();
    // The actor's thread takes every message from the mailbox.
    while let Some(id) = mailbox.pop() {
        assert_eq!(payloads[id as usize], 42);
    }
    let is_empty = mailbox.is_empty();
    assert!(is_empty, "消息应该被处理");

    let wait = pool.deschedule("test/actor1", true, Some(1000)).unwrap();
    assert_eq!(wait, Some(1000));

    let count = pool.thread_count();
    assert_eq!(count, 0, "专用线程应该被移除");

    let stopped = pool.shutdown();
    assert!(stopped.is_empty());
}

#[test]
fn test_multiple_dedicated_threads() {
    let mut pool = DedicatedThreadPool::new(3);
    let config = dedicated_config();

    pool.schedule("test/actor1", Some(config)).unwrap();
    pool.schedule("test/actor2", Some(config)).unwrap();
    pool.schedule("test/actor3", Some(config)).unwrap();

    let count = pool.thread_count();
    assert_eq!(count, 3, "应有三个专用线程被创建");

    let result = pool.schedule("test/actor4", Some(config));
    assert!(result.is_err(), "超过最大线程数限制，应该调度失败");

    pool.deschedule("test/actor1", false, None).unwrap();

    let count = pool.thread_count();
    assert_eq!(count, 2, "取消调度后应有两个专用线程");

    let result = pool.schedule("test/actor4", Some(config));
    assert!(result.is_ok(), "现在应该能够调度第4个actor");

    let count = pool.thread_count();
    assert_eq!(count, 3, "再次调度后应有三个专用线程");

    let stopped = pool.shutdown();
    assert_eq!(stopped.len(), 3);
}

#[test]
fn test_dedicated_pool_errors_and_names() {
    let mut pool = DedicatedThreadPool::new(1);
    let plan = pool.schedule("sys/worker", None).unwrap();
    assert_eq!(plan.thread_name, "dedicated-actor-sys-worker");
    assert!(plan.config.scheduling_mode.is_none());

    match pool.schedule("sys/worker", None) {
        Err(e) => assert_eq!(e.to_string(), "Configuration error: Actor 'sys/worker' already has a dedicated thread"),
        Ok(_) => panic!("an actor gets one thread"),
    }
    match pool.schedule("sys/other", None) {
        Err(e) => assert_eq!(e.to_string(), "Configuration error: Maximum number of dedicated threads (1) reached"),
        Ok(_) => panic!("the pool is full"),
    }
    match pool.deschedule("nobody", false, None) {
        Err(SystemError::ActorNotFound(p)) => assert_eq!(p, "nobody"),
        _ => panic!("unknown actor"),
    }
    assert_eq!(pool.deschedule("sys/worker", true, None).unwrap(), Some(5000));

    let names = pool.shutdown();
    assert!(names.is_empty());
    assert!(matches!(pool.schedule("late", None), Err(SystemError::ShuttingDown)));
    assert_eq!(DedicatedThreadPool::shutdown_timeout_error(250).to_string(), "Failed during shutdown: Timeout after 250ms");
    assert_eq!(pool.max_threads(), 1);
}

#[test]
fn test_dedicated_thread_scheduler() {
    let config = DedicatedThreadConfig { max_messages_per_batch: 7, ..Default::default() };
    let mut scheduler = DedicatedThreadScheduler::new(Some(config));
    assert_eq!(scheduler.status(), SchedulerStatus::Running);

    let settings = scheduler.schedule("a").unwrap().unwrap();
    assert_eq!(settings.batch_size, 7);
    assert_eq!(settings.thread_stack_size, 3 * 1024 * 1024);
    assert!(scheduler.schedule("a").unwrap().is_none());
    assert!(scheduler.is_scheduled("a"));
    assert_eq!(scheduler.worker_count(), 1);

    scheduler.deschedule("a").unwrap();
    assert!(!scheduler.is_scheduled("a"));
    assert!(matches!(scheduler.deschedule("a"), Err(SystemError::ActorNotFound(_))));

    scheduler.schedule("b").unwrap();
    let stopped = scheduler.shutdown();
    assert_eq!(stopped, vec!["b".to_string()]);
    assert_eq!(scheduler.status(), SchedulerStatus::Shutdown);
    assert!(matches!(scheduler.schedule("c"), Err(SystemError::ShuttingDown)));
}

#[test]
fn test_dedicated_worker_loop() {
    let mut scheduler = DedicatedThreadScheduler::new(None);
    let settings = scheduler.schedule("a").unwrap().unwrap();
    let mut worker = DedicatedWorker::new("a".to_string(), settings, 10);
    assert_eq!(worker.get_state(), WorkerState::Initializing);
    worker.begin();
    assert_eq!(worker.get_state(), WorkerState::Idle);

    assert_eq!(worker.step(None, true), RunStep::IdleWait);
    assert_eq!(worker.step(None, false), RunStep::Process);
    assert_eq!(worker.get_state(), WorkerState::Processing);
    assert!(worker.finish_batch(BatchEnd::Completed).is_ok());
    assert_eq!(worker.get_state(), WorkerState::Idle);

    assert_eq!(worker.step(Some(WorkerCommand::Pause), false), RunStep::PauseWait);
    assert_eq!(worker.get_state(), WorkerState::Paused);

    match worker.finish_batch(BatchEnd::Panicked("boom".to_string())) {
        Err(SystemError::WorkerStateError(m)) => assert_eq!(m, "Panic in worker for a: boom"),
        _ => panic!("a panic ends the loop"),
    }
    assert_eq!(worker.get_state(), WorkerState::Error);

    assert_eq!(worker.step(Some(WorkerCommand::Shutdown), false), RunStep::Exit);
    assert_eq!(worker.get_state(), WorkerState::ShuttingDown);
    assert_eq!(worker.step(None, false), RunStep::Exit);

    let kept = worker.settings();
    assert_eq!(kept.idle_sleep_duration, Duration::from_millis(10));
    assert_eq!(kept.idle_sleep_duration, settings.idle_sleep_duration);
    assert_eq!(kept.batch_size, settings.batch_size);
    assert_eq!(kept.thread_stack_size, settings.thread_stack_size);
}

#[test]
fn test_scheduler_creation() {
    let mut scheduler = MultiThreadScheduler::new(2, 100, None);
    assert_eq!(scheduler.pool_size(), 2);
    assert!(scheduler.shutdown(1000).is_ok());
}

#[test]
fn test_scheduler_mailbox_processing() {
    let worker_config = WorkerConfig {
        idle_sleep_duration: Duration::from_millis(1),
        enable_detailed_logging: true,
        ..Default::default()
    };
    let mut scheduler = MultiThreadScheduler::new(2, 100, Some(worker_config));

    scheduler.schedule(1);
    scheduler.schedule(2);
    assert_eq!(scheduler.metrics().queue_length, 2);

    let workers = scheduler.start_workers();
    assert_eq!(workers.len(), 2);
    assert_eq!(workers[1].id(), 1);

    assert!(scheduler.shutdown(1000).is_ok());
    scheduler.schedule(3);
    assert_eq!(scheduler.metrics().queue_length, 2);
}

#[test]
fn test_scheduler_metrics() {
    let mut scheduler = MultiThreadScheduler::new(4, 100, None);

    let metrics = scheduler.metrics();
    assert_eq!(metrics.pool_size, 4);
    assert_eq!(metrics.is_shutting_down, false);

    scheduler.shutdown(1000).unwrap();

    let metrics = scheduler.metrics();
    assert_eq!(metrics.is_shutting_down, true);
    assert_eq!(metrics.status, SchedulerStatus::Shutdown);
}

#[test]
fn test_worker_batches_and_requeues() {
    let worker = Worker::new(0, Some(WorkerConfig { batch_size: 2, ..Default::default() }));
    let mut queue = SchedulingQueue::new(10);
    let mut mailbox = MpscMailbox::new(10, "a".to_string());
    for id in 1..=3u64 {
        mailbox.push(id, BackpressureStrategy::Block).unwrap();
    }

    let taken = worker.process_mailbox(7, &mut mailbox, &mut queue, false);
    assert_eq!(taken, vec![1, 2]);
    assert_eq!(queue.len(), 1);
    assert_eq!(queue.try_pop(), Some(7));

    let taken = worker.process_mailbox(7, &mut mailbox, &mut queue, false);
    assert_eq!(taken, vec![3]);
    assert!(queue.is_empty());

    mailbox.push(4, BackpressureStrategy::Block).unwrap();
    let taken = worker.process_mailbox(7, &mut mailbox, &mut queue, true);
    assert!(taken.is_empty());
    assert_eq!(queue.try_pop(), Some(7));
}

#[test]
fn test_worker_loop_states() {
    let mut worker = Worker::new(3, None);
    assert_eq!(worker.batch_size(), 10);
    assert_eq!(worker.get_status(), WorkerStatus::Idle);
    let mut queue = SchedulingQueue::new(10);

    assert_eq!(worker.next_mailbox(&mut queue, false), None);
    assert_eq!(worker.get_status(), WorkerStatus::Idle);

    queue.push(5);
    assert_eq!(worker.next_mailbox(&mut queue, false), Some(5));
    assert_eq!(worker.get_status(), WorkerStatus::Processing);
    worker.finish_mailbox();
    assert_eq!(worker.get_status(), WorkerStatus::Idle);

    let report = worker.recover_from_panic(5, &mut queue, "actor/x", "boom");
    assert_eq!(report, "Panic in actor actor/x: boom");
    assert_eq!(worker.get_status(), WorkerStatus::Error);
    assert_eq!(queue.len(), 1);

    assert_eq!(worker.next_mailbox(&mut queue, true), None);
    assert_eq!(worker.get_status(), WorkerStatus::ShuttingDown);
    assert_eq!(queue.len(), 1);
    assert_eq!(WorkerStatus::from_code(WorkerStatus::Error.code()), WorkerStatus::Error);
    assert_eq!(WorkerStatus::from_code(17), WorkerStatus::Error);
}

#[test]
fn test_shared_pool_schedule_and_metrics() {
    let config = SharedThreadPoolConfig { pool_size: 3, ..Default::default() };
    let mut pool = SharedThreadPool::new(Some(config));
    assert_eq!(pool.pool_size(), 3);
    assert_eq!(pool.status(), SchedulerStatus::Running);

    pool.schedule("a", 11, None).unwrap();
    pool.schedule("b", 12, None).unwrap();
    assert!(pool.is_scheduled("a"));
    let metrics = pool.metrics();
    assert_eq!(metrics.queue_length, 2);
    assert_eq!(metrics.active_processors, 2);

    assert_eq!(pool.next_ready(), Some(11));
    pool.deschedule("a").unwrap();
    assert!(!pool.is_scheduled("a"));
    match pool.deschedule("a") {
        Err(SystemError::ActorNotFound(p)) => assert_eq!(p, "a"),
        _ => panic!("a is no longer scheduled"),
    }

    let workers = pool.start_workers();
    assert_eq!(workers.len(), 3);

    pool.shutdown(5000).unwrap();
    assert_eq!(pool.status(), SchedulerStatus::Shutdown);
    assert!(matches!(pool.schedule("c", 13, None), Err(SystemError::ShuttingDown)));
    assert!(pool.metrics().is_shutting_down);
}

#[test]
fn test_shared_pool_runs_ready_mailboxes() {
    let mut pool = SharedThreadPool::new(None);
    let mut mailbox = MpscMailbox::new(32, "a".to_string());
    for id in 0..12u64 {
        mailbox.push(id, BackpressureStrategy::Block).unwrap();
    }
    pool.schedule("a", 4, None).unwrap();
    assert_eq!(pool.next_ready(), Some(4));
    assert_eq!(pool.next_ready(), None);

    let taken = pool.run_batch(4, &mut mailbox);
    assert_eq!(taken, (0..10u64).collect::<Vec<u64>>());
    assert_eq!(pool.metrics().queue_length, 1);
    assert_eq!(pool.next_ready(), Some(4));

    pool.shutdown(1000).unwrap();
    let taken = pool.run_batch(4, &mut mailbox);
    assert_eq!(taken, vec![10]);
    assert_eq!(pool.next_ready(), Some(4));
    let taken = pool.run_batch(4, &mut mailbox);
    assert_eq!(taken, vec![11]);
    assert_eq!(pool.next_ready(), None);
    assert!(mailbox.is_empty());
}

#[test]
fn test_shared_pool_defaults() {
    let config = SharedThreadPoolConfig::default();
    assert_eq!(config.pool_size, num_cpus::get());
    assert_eq!(config.max_queue_capacity, 10000);
    assert_eq!(config.max_messages_per_batch, 10);
    assert_eq!(config.idle_sleep_duration, Duration::from_millis(10));
    assert!(!config.yield_after_each_message);
    assert!(!config.enable_detailed_logging);
}

#[test]
fn test_pool_worker_run_and_requeue_rule() {
    let mut queue = SchedulingQueue::new(10);
    let mut mailbox = MpscMailbox::new(32, "a".to_string());
    for id in 0..12u64 {
        mailbox.push(id, BackpressureStrategy::Block).unwrap();
    }
    let taken = run_pool_batch(&mut queue, 9, &mut mailbox, false);
    assert_eq!(taken, (0..10u64).collect::<Vec<u64>>());
    assert_eq!(queue.try_pop(), Some(9));

    let taken = run_pool_batch(&mut queue, 9, &mut mailbox, true);
    assert_eq!(taken, vec![10]);
    assert_eq!(queue.try_pop(), Some(9));

    assert!(should_requeue(true, 0, false));
    assert!(should_requeue(false, 1, true));
    assert!(!should_requeue(false, 0, true));
    assert!(!should_requeue(false, 3, false));

    let mut worker = PoolWorker::new(1, None);
    assert_eq!(worker.cached_processor("a"), None);
    worker.remember_processor("a".to_string(), 77);
    assert_eq!(worker.cached_processor("a"), Some(77));
    let taken = worker.process_mailbox(&mut mailbox, false, 5);
    assert!(taken.is_empty());
    let taken = worker.process_mailbox(&mut mailbox, true, 5);
    assert_eq!(taken, vec![11]);
}

#[test]
fn test_scheduling_queue_is_fifo() {
    let mut queue = SchedulingQueue::new(4);
    assert!(queue.is_empty());
    queue.push(3);
    queue.push(1);
    queue.push(2);
    assert_eq!(queue.len(), 3);
    assert_eq!(queue.try_pop(), Some(3));
    assert_eq!(queue.try_pop(), Some(1));
    assert_eq!(queue.try_pop(), Some(2));
    assert_eq!(queue.try_pop(), None);
    assert_eq!(queue.max_capacity(), 4);
}

#[test]
fn test_scheduler_group() {
    let factory = ThreadSchedulerFactory::new();
    let group = factory.create_scheduler_group(None, None);
    assert_eq!(group.shared_scheduler.status(), SchedulerStatus::Running);
    assert_eq!(group.dedicated_scheduler.worker_count(), 0);
}

#[test]
fn test_status_codes_read_back() {
    for s in [
        SchedulerStatus::Initializing,
        SchedulerStatus::Running,
        SchedulerStatus::ShuttingDown,
        SchedulerStatus::Shutdown,
        SchedulerStatus::Error,
    ] {
        assert_eq!(SchedulerStatus::from_code(s.code()), s);
    }
    assert_eq!(SchedulerStatus::from_code(5), SchedulerStatus::Error);
    for s in [
        WorkerState::Initializing,
        WorkerState::Idle,
        WorkerState::Processing,
        WorkerState::Paused,
        WorkerState::ShuttingDown,
        WorkerState::Error,
    ] {
        assert_eq!(WorkerState::from_code(s.code()), s);
    }
}

#[test]
fn test_schedule_then_deschedule_restores_the_pool() {
    let mut pool = SharedThreadPool::new(None);
    pool.schedule("a", 1, None).unwrap();
    pool.schedule("b", 2, None).unwrap();
    pool.deschedule("b").unwrap();
    assert!(pool.is_scheduled("a"));
    assert!(!pool.is_scheduled("b"));
    assert_eq!(pool.metrics().active_processors, 1);
}

#[test]
fn test_dedicated_thread_loop_and_spawn_failure() {
    let mut mailbox = SpscRingbufMailbox::new(4, "a".to_string());
    assert_eq!(actor_loop_step(&mut mailbox, false, false), ActorLoopStep::Idle);
    mailbox.push(3, BackpressureStrategy::Block).unwrap();
    mailbox.push(4, BackpressureStrategy::Block).unwrap();
    assert_eq!(actor_loop_step(&mut mailbox, false, false), ActorLoopStep::Handle(3));
    assert_eq!(actor_loop_step(&mut mailbox, false, true), ActorLoopStep::Exit);
    assert!(mailbox.is_closed());
    assert!(mailbox.is_empty());

    let mut pool = DedicatedThreadPool::new(1);
    pool.schedule("a", None).unwrap();
    let e = pool.thread_spawn_failed("a", "no memory");
    assert_eq!(e.to_string(), "Internal system error: Failed to spawn dedicated thread: no memory");
    assert_eq!(pool.thread_count(), 0);
    assert!(pool.schedule("b", None).is_ok());
}
