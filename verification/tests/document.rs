use tvs_node::config::EnvSnapshot;
use tvs_node::config::TvsNodeConfig;
use tvs_node::errors::ConfigError;

fn env_with_vote_port(port: &str) -> EnvSnapshot {
    let mut env = EnvSnapshot::empty();
    env.tvs_vote_port = Some(port.to_string());
    env
}

#[test]
fn test_unparsable_text_is_malformed() {
    let r = TvsNodeConfig::read_config("this is not json");
    assert_eq!(r.err(), Some(ConfigError::Malformed));
}

#[test]
fn test_non_object_document_is_malformed() {
    let r = TvsNodeConfig::read_config("[1, 2, 3]");
    assert_eq!(r.err(), Some(ConfigError::Malformed));
}

#[test]
fn test_missing_server_section_is_malformed() {
    let r = TvsNodeConfig::read_config(r#"{ "node_name": "n" }"#);
    assert_eq!(r.err(), Some(ConfigError::Malformed));
}

#[test]
fn test_port_out_of_range_is_malformed() {
    let json = r#"{
        "server": {
            "cluster_message_port": 8080,
            "app_port": 70000,
            "admin_port": 8082
        }
    }"#;
    let r = TvsNodeConfig::read_config(json);
    assert_eq!(r.err(), Some(ConfigError::Malformed));
}

#[test]
fn test_wrong_typed_port_is_malformed() {
    let json = r#"{
        "server": {
            "cluster_message_port": "8080",
            "app_port": 8081,
            "admin_port": 8082
        }
    }"#;
    let r = TvsNodeConfig::read_config(json);
    assert_eq!(r.err(), Some(ConfigError::Malformed));
}

#[test]
fn test_wrong_typed_node_name_is_malformed() {
    let json = r#"{
        "server": {
            "cluster_message_port": 8080,
            "app_port": 8081,
            "admin_port": 8082
        },
        "node_name": 17
    }"#;
    let r = TvsNodeConfig::read_config(json);
    assert_eq!(r.err(), Some(ConfigError::Malformed));
}

#[test]
fn test_non_object_tvs_section_is_malformed() {
    let json = r#"{
        "server": {
            "cluster_message_port": 8080,
            "app_port": 8081,
            "admin_port": 8082
        },
        "tvs": 5
    }"#;
    let r = TvsNodeConfig::read_config(json);
    assert_eq!(r.err(), Some(ConfigError::Malformed));
}

#[test]
fn test_tvs_vote_port_out_of_range_is_malformed() {
    let json = r#"{
        "server": {
            "cluster_message_port": 8080,
            "app_port": 8081,
            "admin_port": 8082
        },
        "tvs": { "vote_port": 65536 }
    }"#;
    let r = TvsNodeConfig::read_config(json);
    assert_eq!(r.err(), Some(ConfigError::Malformed));
}

#[test]
fn test_null_optional_members_count_as_absent() {
    let json = r#"{
        "server": {
            "cluster_message_port": 8080,
            "app_port": 8081,
            "admin_port": 8082
        },
        "node_name": null,
        "tvs": null
    }"#;
    let config = TvsNodeConfig::read_config(json).unwrap();
    assert_eq!(config.tfs.node_name, None);
    assert!(config.tvs.is_none());
    assert!(!config.should_start_vote_server());
}

#[test]
fn test_resolve_applies_overrides_after_parsing() {
    let json = r#"{
        "server": {
            "cluster_message_port": 8080,
            "app_port": 8081,
            "admin_port": 8082
        },
        "tvs": { "vote_port": 9000 }
    }"#;
    let env = env_with_vote_port("9500");
    let config = TvsNodeConfig::resolve(json, &env).unwrap();
    assert_eq!(config.tvs.as_ref().unwrap().vote_port, 9500);
}

#[test]
fn test_resolving_same_snapshot_twice_is_identical() {
    let json = r#"{
        "server": {
            "cluster_message_port": 8080,
            "app_port": 8081,
            "admin_port": 8082
        },
        "node_name": "n1",
        "tvs": { "vote_host": "0.0.0.0" }
    }"#;
    let env = env_with_vote_port("9100");
    let c1 = TvsNodeConfig::resolve(json, &env).unwrap();
    let c2 = TvsNodeConfig::resolve(json, &env).unwrap();
    assert_eq!(c1.tfs.server.cluster_message_port, c2.tfs.server.cluster_message_port);
    assert_eq!(c1.tfs.server.app_port, c2.tfs.server.app_port);
    assert_eq!(c1.tfs.server.admin_port, c2.tfs.server.admin_port);
    assert_eq!(c1.tfs.node_name, c2.tfs.node_name);
    let t1 = c1.tvs.as_ref().unwrap();
    let t2 = c2.tvs.as_ref().unwrap();
    assert_eq!(t1.vote_port, t2.vote_port);
    assert_eq!(t1.vote_host, t2.vote_host);
    assert_eq!(t1.enabled, t2.enabled);
    assert_eq!(t1.vote_port, 9100);
    assert_eq!(t1.vote_host, "0.0.0.0");
}
