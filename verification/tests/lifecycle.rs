use tvs_node::config::EnvSnapshot;
use tvs_node::config::TvsNodeConfig;
use tvs_node::errors::BindError;
use tvs_node::errors::NodeError;
use tvs_node::errors::OrchestratorError;
use tvs_node::errors::RegistryError;
use tvs_node::orchestrator::Action;
use tvs_node::orchestrator::Event;
use tvs_node::orchestrator::LifecycleState;
use tvs_node::orchestrator::TvsNodeRunner;
use tvs_node::orchestrator::resolve_secondary_addr;
use tvs_node::registry::NodeIdentity;
use tvs_node::registry::ServiceRegistry;
use tvs_node::services::Strategy;
use tvs_node::services::plan_binding;

fn config_from(json: &str) -> TvsNodeConfig {
    TvsNodeConfig::read_config(json).unwrap()
}

fn enabled_config() -> TvsNodeConfig {
    config_from(
        r#"{
        "server": { "cluster_message_port": 8080, "app_port": 8081, "admin_port": 8082 },
        "tvs": { "vote_port": 9000, "vote_host": "10.0.0.1", "enabled": true }
    }"#,
    )
}

fn disabled_config() -> TvsNodeConfig {
    config_from(
        r#"{
        "server": { "cluster_message_port": 8080, "app_port": 8081, "admin_port": 8082 },
        "tvs": { "vote_port": 9000, "enabled": false }
    }"#,
    )
}

#[test]
fn test_registry_configure_once() {
    let mut reg = ServiceRegistry::new();
    let id = NodeIdentity { raw: 42 };
    assert!(reg.lookup(&id).is_none());

    let env = EnvSnapshot::empty();
    let b1 = plan_binding(Strategy::Durable, &env);
    assert_eq!(reg.configure(&id, b1), Ok(()));

    let found = reg.lookup(&id).unwrap();
    assert_eq!(found.strategy, Strategy::Durable);
    assert_eq!(found.root_url, "http://localhost:8081/vote");

    let b2 = plan_binding(Strategy::Ephemeral, &env);
    assert_eq!(reg.configure(&id, b2), Err(RegistryError::AlreadyConfigured));

    let kept = reg.lookup(&id).unwrap();
    assert_eq!(kept.strategy, Strategy::Durable);
}

#[test]
fn test_root_url_override_and_default() {
    let mut env = EnvSnapshot::empty();
    let b = plan_binding(Strategy::Ephemeral, &env);
    assert_eq!(b.root_url, "http://localhost:8081/vote");

    env.tvs_root_url = Some(String::new());
    let b = plan_binding(Strategy::Ephemeral, &env);
    assert_eq!(b.root_url, "http://localhost:8081/vote");

    env.tvs_root_url = Some("https://votes.example/cast".to_string());
    let b = plan_binding(Strategy::Ephemeral, &env);
    assert_eq!(b.root_url, "https://votes.example/cast");
}

#[test]
fn test_secondary_addr_precedence() {
    let config = enabled_config();
    let mut env = EnvSnapshot::empty();

    let (host, port) = resolve_secondary_addr(&config.tvs, &env);
    assert_eq!(host, "10.0.0.1");
    assert_eq!(port, 9000);

    env.tvs_vote_port = Some("9500".to_string());
    env.tvs_vote_host = Some("0.0.0.0".to_string());
    let (host, port) = resolve_secondary_addr(&config.tvs, &env);
    assert_eq!(host, "0.0.0.0");
    assert_eq!(port, 9500);

    let (host, port) = resolve_secondary_addr(&None, &EnvSnapshot::empty());
    assert_eq!(host, "127.0.0.1");
    assert_eq!(port, 8090);
}

#[test]
fn test_scenario_disabled_section_starts_only_primary() {
    let mut o = TvsNodeRunner::build_with_config(
        disabled_config(),
        EnvSnapshot::empty(),
        Some(Strategy::Ephemeral),
    );
    assert!(matches!(o.step(Event::Start), Action::StartPrimary));
    assert!(matches!(
        o.step(Event::PrimaryReady { node: 1 }),
        Action::PrepareStorage { strategy: Strategy::Ephemeral }
    ));
    let a = o.step(Event::StorageReady);
    assert!(matches!(a, Action::AwaitServers));
    assert_eq!(o.state, LifecycleState::PrimaryOnlyRunning { node: 1 });

    // The binding exists even though the secondary server was never started.
    assert!(o.registry.lookup(&NodeIdentity { raw: 1 }).is_some());

    assert!(matches!(o.step(Event::PrimaryStopped), Action::Done));
    assert_eq!(o.state, LifecycleState::Stopped);
}

#[test]
fn test_scenario_env_port_override_reaches_secondary() {
    let mut env = EnvSnapshot::empty();
    env.tvs_vote_port = Some("9500".to_string());
    let mut o =
        TvsNodeRunner::build_with_config(enabled_config(), env, Some(Strategy::Durable));
    o.step(Event::Start);
    o.step(Event::PrimaryReady { node: 2 });
    let a = o.step(Event::StorageReady);
    match a {
        Action::StartSecondary { host, port } => {
            assert_eq!(host, "10.0.0.1");
            assert_eq!(port, 9500);
        },
        other => panic!("expected a secondary start, got {:?}", other),
    }
    assert_eq!(o.state, LifecycleState::SecondaryStarting { node: 2 });
}

#[test]
fn test_scenario_full_lifecycle_with_joint_shutdown() {
    let mut o = TvsNodeRunner::build_with_config(
        enabled_config(),
        EnvSnapshot::empty(),
        Some(Strategy::Ephemeral),
    );
    o.step(Event::Start);
    o.step(Event::PrimaryReady { node: 3 });
    assert!(matches!(o.step(Event::StorageReady), Action::StartSecondary { .. }));
    assert!(matches!(o.step(Event::SecondaryReady), Action::AwaitServers));
    assert_eq!(o.state, LifecycleState::BothRunning { node: 3 });

    assert!(matches!(o.step(Event::Shutdown), Action::StopServers));
    // The first server to stop does not complete the lifecycle.
    assert!(matches!(o.step(Event::SecondaryStopped), Action::AwaitServers));
    assert!(matches!(o.step(Event::PrimaryStopped), Action::Done));
    assert_eq!(o.state, LifecycleState::Stopped);
}

#[test]
fn test_no_strategy_means_no_binding_and_no_secondary() {
    let mut o =
        TvsNodeRunner::build_with_config(enabled_config(), EnvSnapshot::empty(), None);
    o.step(Event::Start);
    let a = o.step(Event::PrimaryReady { node: 4 });
    assert!(matches!(a, Action::AwaitServers));
    assert_eq!(o.state, LifecycleState::PrimaryOnlyRunning { node: 4 });
    assert!(o.registry.lookup(&NodeIdentity { raw: 4 }).is_none());
}

#[test]
fn test_primary_start_failure_is_fatal() {
    let mut o = TvsNodeRunner::build_with_config(
        enabled_config(),
        EnvSnapshot::empty(),
        Some(Strategy::Durable),
    );
    o.step(Event::Start);
    let a = o.step(Event::PrimaryFailed);
    match a {
        Action::Fail { error } => assert_eq!(
            error,
            NodeError::Orchestrator(OrchestratorError::PrimaryStartFailed)
        ),
        other => panic!("expected a fatal failure, got {:?}", other),
    }
}

#[test]
fn test_storage_failure_is_fatal() {
    let mut o = TvsNodeRunner::build_with_config(
        enabled_config(),
        EnvSnapshot::empty(),
        Some(Strategy::Durable),
    );
    o.step(Event::Start);
    o.step(Event::PrimaryReady { node: 5 });
    let a = o.step(Event::StorageFailed { error: BindError::SchemaInit });
    match a {
        Action::Fail { error } => assert_eq!(error, NodeError::Bind(BindError::SchemaInit)),
        other => panic!("expected a fatal failure, got {:?}", other),
    }
}

#[test]
fn test_adapter_failure_is_fatal() {
    let mut o = TvsNodeRunner::build_with_config(
        enabled_config(),
        EnvSnapshot::empty(),
        Some(Strategy::Ephemeral),
    );
    o.step(Event::Start);
    o.step(Event::PrimaryReady { node: 8 });
    let a = o.step(Event::StorageFailed { error: BindError::AdapterFailure });
    match a {
        Action::Fail { error } => assert_eq!(error, NodeError::Bind(BindError::AdapterFailure)),
        other => panic!("expected a fatal failure, got {:?}", other),
    }
}

#[test]
fn test_secondary_start_failure_is_fatal() {
    let mut o = TvsNodeRunner::build_with_config(
        enabled_config(),
        EnvSnapshot::empty(),
        Some(Strategy::Ephemeral),
    );
    o.step(Event::Start);
    o.step(Event::PrimaryReady { node: 6 });
    o.step(Event::StorageReady);
    let a = o.step(Event::SecondaryFailed);
    match a {
        Action::Fail { error } => assert_eq!(
            error,
            NodeError::Orchestrator(OrchestratorError::SecondaryStartFailed)
        ),
        other => panic!("expected a fatal failure, got {:?}", other),
    }
}

#[test]
fn test_already_configured_identity_is_fatal() {
    let mut registry = ServiceRegistry::new();
    let env = EnvSnapshot::empty();
    let binding = plan_binding(Strategy::Durable, &env);
    registry.configure(&NodeIdentity { raw: 7 }, binding).unwrap();

    let mut o = TvsNodeRunner {
        config: enabled_config(),
        env,
        strategy: Some(Strategy::Durable),
        registry,
        state: LifecycleState::BindingServices { node: 7 },
    };
    let a = o.step(Event::StorageReady);
    match a {
        Action::Fail { error } => {
            assert_eq!(error, NodeError::Registry(RegistryError::AlreadyConfigured))
        },
        other => panic!("expected a fatal failure, got {:?}", other),
    }
}

#[test]
fn test_unrelated_events_are_ignored() {
    let mut o = TvsNodeRunner::build_with_config(
        enabled_config(),
        EnvSnapshot::empty(),
        Some(Strategy::Durable),
    );
    assert!(matches!(o.step(Event::SecondaryReady), Action::Idle));
    assert_eq!(o.state, LifecycleState::Unconfigured);
}
