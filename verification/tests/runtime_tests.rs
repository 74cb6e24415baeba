use agentropic_runtime::runtime::{AgentEntry, Runtime};
use agentropic_runtime::{AgentId, RuntimeConfig, RuntimeError};

#[test]
fn create_runtime() {
    let runtime: Runtime<()> = Runtime::new();
    assert_eq!(runtime.agent_count(), 0);
    assert!(!runtime.is_running());
}

#[test]
fn start_stop_runtime() {
    let mut runtime: Runtime<()> = Runtime::new();

    runtime.start().unwrap();
    assert!(runtime.is_running());

    runtime.stop().unwrap();
    assert!(!runtime.is_running());
}

#[test]
fn spawn_agent() {
    let mut runtime: Runtime<()> = Runtime::new();
    let agent_id = AgentId::new();

    assert!(runtime.spawn(agent_id, "test_agent".to_string(), ()).is_none());
    assert_eq!(runtime.agent_count(), 1);
    assert!(runtime.has_agent(&agent_id));
}

#[test]
fn runtime_with_config() {
    let config = RuntimeConfig::new().with_max_workers(4).with_timeout(5000);

    let runtime: Runtime<()> = Runtime::with_config(config);
    assert_eq!(runtime.config().max_workers, 4);
    assert_eq!(runtime.config().default_timeout_ms, 5000);
}

#[test]
fn full_runtime_lifecycle() {
    let config = RuntimeConfig::new().with_max_workers(2);
    let mut runtime: Runtime<()> = Runtime::with_config(config);

    runtime.start().unwrap();
    assert!(runtime.is_running());

    let agent1 = AgentId::new();
    let agent2 = AgentId::new();
    runtime.spawn(agent1, "agent1".to_string(), ());
    runtime.spawn(agent2, "agent2".to_string(), ());
    assert_eq!(runtime.agent_count(), 2);

    let drained = runtime.shutdown();
    assert_eq!(drained.len(), 2);
    assert_eq!(runtime.agent_count(), 0);
    assert!(!runtime.is_running());
}

#[test]
fn config_for_a_cpu_count() {
    let c = RuntimeConfig::with_cpu_count(6);
    assert_eq!(c.max_workers, 6);
    assert!(c.enable_metrics);
    assert!(c.enable_tracing);
    assert_eq!(c.default_timeout_ms, 30000);
}

#[test]
fn default_runtime_config() {
    let config = RuntimeConfig::new();
    assert!(config.max_workers >= 1);
    assert!(config.enable_metrics);
    assert!(config.enable_tracing);
    assert_eq!(config.default_timeout_ms, 30000);
    let d = RuntimeConfig::default();
    assert_eq!(d.default_timeout_ms, 30000);
}

#[test]
fn config_builders_set_one_field_each() {
    let c = RuntimeConfig::new()
        .with_max_workers(7)
        .with_metrics(false)
        .with_tracing(false)
        .with_timeout(1234);
    assert_eq!(c.max_workers, 7);
    assert!(!c.enable_metrics);
    assert!(!c.enable_tracing);
    assert_eq!(c.default_timeout_ms, 1234);
    let c2 = c.with_metrics(true);
    assert_eq!(c2.max_workers, 7);
    assert!(c2.enable_metrics);
    assert!(!c2.enable_tracing);
}

#[test]
fn spawn_same_id_replaces_in_place() {
    let mut runtime: Runtime<u32> = Runtime::new();
    let a = AgentId::from_u128(1);
    let b = AgentId::from_u128(2);
    assert!(runtime.spawn(a, "a".to_string(), 10).is_none());
    assert!(runtime.spawn(b, "b".to_string(), 20).is_none());
    let displaced = runtime.spawn(a, "a2".to_string(), 30).unwrap();
    assert_eq!(displaced.name, "a");
    assert_eq!(displaced.handle, 10);
    assert_eq!(runtime.agent_count(), 2);
    let drained: Vec<AgentEntry<u32>> = runtime.shutdown();
    assert_eq!(drained[0].name, "a2");
    assert_eq!(drained[0].handle, 30);
    assert_eq!(drained[1].name, "b");
}

#[test]
fn stop_agent_removes_it() {
    let mut runtime: Runtime<u32> = Runtime::new();
    let a = AgentId::from_u128(1);
    let b = AgentId::from_u128(2);
    runtime.spawn(a, "a".to_string(), 10);
    runtime.spawn(b, "b".to_string(), 20);
    let entry = runtime.stop_agent(&a).unwrap();
    assert_eq!(entry.name, "a");
    assert_eq!(entry.handle, 10);
    assert!(!runtime.has_agent(&a));
    assert!(runtime.has_agent(&b));
    assert_eq!(runtime.agent_count(), 1);
}

#[test]
fn stop_unknown_agent_is_not_found() {
    let mut runtime: Runtime<()> = Runtime::new();
    let id = AgentId::from_u128(0x67e5504410b1426f9247bb680e5fe0c8);
    match runtime.stop_agent(&id) {
        Err(RuntimeError::AgentNotFound(text)) => {
            assert_eq!(text, "67e55044-10b1-426f-9247-bb680e5fe0c8")
        }
        _ => panic!("expected AgentNotFound"),
    }
}

#[test]
fn stopping_twice_fails_the_second_time() {
    let mut runtime: Runtime<()> = Runtime::new();
    let id = AgentId::from_u128(5);
    runtime.spawn(id, "x".to_string(), ());
    assert!(runtime.stop_agent(&id).is_ok());
    assert!(matches!(runtime.stop_agent(&id), Err(RuntimeError::AgentNotFound(_))));
}

#[test]
fn spawn_then_stop_restores_agents() {
    let mut runtime: Runtime<u8> = Runtime::new();
    runtime.spawn(AgentId::from_u128(1), "one".to_string(), 1);
    runtime.spawn(AgentId::from_u128(3), "three".to_string(), 3);
    runtime.spawn(AgentId::from_u128(2), "two".to_string(), 2);
    runtime.stop_agent(&AgentId::from_u128(2)).unwrap();
    let names: Vec<String> = runtime.shutdown().into_iter().map(|e| e.name).collect();
    assert_eq!(names, vec!["one".to_string(), "three".to_string()]);
}

#[test]
fn start_and_stop_keep_agents() {
    let mut runtime: Runtime<()> = Runtime::new();
    runtime.spawn(AgentId::from_u128(9), "n".to_string(), ());
    runtime.start().unwrap();
    runtime.stop().unwrap();
    assert_eq!(runtime.agent_count(), 1);
}

#[test]
fn wait_times_follow_the_timeout() {
    let runtime: Runtime<()> = Runtime::with_config(RuntimeConfig::new().with_timeout(1500));
    assert_eq!(runtime.stop_timeout_nanos(), 1_500_000_000);
    assert_eq!(runtime.shutdown_timeout_nanos(), 1_500_000_000);
    let runtime: Runtime<()> = Runtime::new();
    assert_eq!(runtime.stop_timeout_nanos(), 30_000_000_000);
    assert_eq!(runtime.shutdown_timeout_nanos(), 30_000_000_000);
    let runtime: Runtime<()> = Runtime::with_config(RuntimeConfig::new().with_timeout(500));
    assert_eq!(runtime.stop_timeout_nanos(), 500_000_000);
    assert_eq!(runtime.shutdown_timeout_nanos(), 500_000_000);
}

#[test]
fn agent_id_text_is_hyphenated_uuid() {
    let id = AgentId::from_u128(0x0123456789abcdef0011223344556677);
    assert_eq!(id.to_string(), "01234567-89ab-cdef-0011-223344556677");
    assert_eq!(id.as_u128(), 0x0123456789abcdef0011223344556677);
    let fresh = AgentId::new();
    let text: Vec<char> = fresh.to_string().chars().collect();
    assert_eq!(text.len(), 36);
    assert_eq!(text[14], '4');
    assert!("89ab".contains(text[19]));
    assert_eq!((fresh.as_u128() >> 76) & 0xf, 4);
    assert_eq!((fresh.as_u128() >> 62) & 0x3, 2);
}

#[test]
fn error_texts() {
    let m = || "x".to_string();
    assert_eq!(RuntimeError::AgentNotFound(m()).to_string(), "Agent not found: x");
    assert_eq!(RuntimeError::SpawnFailed(m()).to_string(), "Failed to spawn agent: x");
    assert_eq!(RuntimeError::ExecutionFailed(m()).to_string(), "Execution failed: x");
    assert_eq!(RuntimeError::SchedulingError(m()).to_string(), "Scheduling error: x");
    assert_eq!(RuntimeError::SupervisionError(m()).to_string(), "Supervision error: x");
    assert_eq!(RuntimeError::IsolationError(m()).to_string(), "Isolation error: x");
    assert_eq!(RuntimeError::ConfigError(m()).to_string(), "Configuration error: x");
    assert_eq!(RuntimeError::Other(m()).to_string(), "Runtime error: x");
}
