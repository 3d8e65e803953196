// Integration tests for the configuration types in parrot::thread::config

use parrot::thread::config::{
    BackpressureStrategy, SchedulingMode, SupervisorStrategy, ThreadActorConfig, ThreadActorSystemConfig,
};
use std::time::Duration;

#[test]
fn test_system_config_defaults() {
    let config = ThreadActorSystemConfig::default();

    assert_eq!(config.shared_pool_size, num_cpus::get());
    assert!(matches!(config.default_scheduling_mode, SchedulingMode::SharedPool { max_messages_per_run: 10 }));
    assert_eq!(config.default_mailbox_capacity, 1024);
    assert_eq!(config.default_ask_timeout, Duration::from_secs(5));
    assert!(matches!(config.default_supervisor_strategy, SupervisorStrategy::Restart { max_retries: 3, within: _ }));
    assert_eq!(config.default_backpressure_strategy, BackpressureStrategy::Block);
}

#[test]
fn test_actor_config_defaults() {
    let config = ThreadActorConfig::default();

    assert!(config.scheduling_mode.is_none());
    assert!(config.mailbox_capacity.is_none());
    assert!(config.supervisor_strategy.is_none());
    assert!(config.ask_timeout.is_none());
    assert!(config.backpressure_strategy.is_none());
}

#[test]
fn test_config_debug_format() {
    let sys_config = ThreadActorSystemConfig::default();
    let actor_config = ThreadActorConfig::default();
    println!("System Config Default Debug: {:?}", sys_config);
    println!("Actor Config Default Debug: {:?}", actor_config);
    assert!(format!("{:?}", sys_config).contains("shared_pool_size"));
    assert!(format!("{:?}", actor_config).contains("scheduling_mode"));
}

#[test]
fn test_merge_fills_unset_fields_with_system_defaults() {
    let system = ThreadActorSystemConfig::default();
    let actor = ThreadActorConfig {
        mailbox_capacity: Some(7),
        backpressure_strategy: Some(BackpressureStrategy::DropOldest),
        ..ThreadActorConfig::default()
    };
    let merged = system.merge_with_actor_config(&actor);
    assert_eq!(merged.mailbox_capacity, Some(7));
    assert_eq!(merged.backpressure_strategy, Some(BackpressureStrategy::DropOldest));
    assert_eq!(merged.scheduling_mode, Some(SchedulingMode::SharedPool { max_messages_per_run: 10 }));
    assert_eq!(merged.ask_timeout, Some(Duration::from_secs(5)));
    assert!(matches!(merged.supervisor_strategy, Some(SupervisorStrategy::Restart { max_retries: 3, .. })));
}

#[test]
fn test_merge_keeps_every_actor_setting() {
    let system = ThreadActorSystemConfig::default();
    let actor = ThreadActorConfig {
        scheduling_mode: Some(SchedulingMode::DedicatedThread),
        mailbox_capacity: Some(3),
        supervisor_strategy: Some(SupervisorStrategy::Escalate),
        ask_timeout: Some(Duration::from_millis(250)),
        backpressure_strategy: Some(BackpressureStrategy::Error),
    };
    let merged = system.merge_with_actor_config(&actor);
    assert_eq!(merged.scheduling_mode, Some(SchedulingMode::DedicatedThread));
    assert_eq!(merged.mailbox_capacity, Some(3));
    assert!(matches!(merged.supervisor_strategy, Some(SupervisorStrategy::Escalate)));
    assert_eq!(merged.ask_timeout, Some(Duration::from_millis(250)));
    assert_eq!(merged.backpressure_strategy, Some(BackpressureStrategy::Error));
    // merging twice changes nothing
    let again = system.merge_with_actor_config(&merged);
    assert_eq!(again.mailbox_capacity, merged.mailbox_capacity);
    assert_eq!(again.scheduling_mode, merged.scheduling_mode);
}
