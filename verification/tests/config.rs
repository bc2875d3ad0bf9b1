use tvs_node::config::TvsNodeConfig;
use tvs_node::config::TvsServerConfig;

#[test]
fn test_default_tvs_config() {
    let config = TvsServerConfig::default();
    assert_eq!(config.vote_port, 8090);
    assert_eq!(config.vote_host, "127.0.0.1");
    assert!(config.enabled);
}

#[test]
fn test_tvs_config_parsing() {
    let json = r#"{
        "server": {
            "cluster_message_port": 8080,
            "app_port": 8081,
            "admin_port": 8082
        },
        "node_name": "test_node",
        "tvs": {
            "vote_port": 9000,
            "vote_host": "0.0.0.0",
            "enabled": true
        }
    }"#;

    let config = TvsNodeConfig::read_config(json).unwrap();
    assert_eq!(config.tfs.node_name, Some("test_node".to_string()));

    let tvs = config.tvs_config().unwrap();
    assert_eq!(tvs.vote_port, 9000);
    assert_eq!(tvs.vote_host, "0.0.0.0");
}

#[test]
fn test_tvs_config_disabled() {
    let json = r#"{
        "server": {
            "cluster_message_port": 8080,
            "app_port": 8081,
            "admin_port": 8082
        },
        "tvs": {
            "enabled": false
        }
    }"#;

    let config = TvsNodeConfig::read_config(json).unwrap();
    assert!(config.tvs_config().is_none());
    assert!(!config.should_start_vote_server());
}

#[test]
fn test_tvs_config_missing() {
    let json = r#"{
        "server": {
            "cluster_message_port": 8080,
            "app_port": 8081,
            "admin_port": 8082
        }
    }"#;

    let config = TvsNodeConfig::read_config(json).unwrap();
    assert!(config.tvs_config().is_none());
    assert!(!config.should_start_vote_server());
}

#[test]
fn test_tvs_config_defaults() {
    let json = r#"{
        "server": {
            "cluster_message_port": 8080,
            "app_port": 8081,
            "admin_port": 8082
        },
        "tvs": {}
    }"#;

    let config = TvsNodeConfig::read_config(json).unwrap();
    let tvs = config.tvs_config().unwrap();
    assert_eq!(tvs.vote_port, 8090);
    assert_eq!(tvs.vote_host, "127.0.0.1");
    assert!(tvs.enabled);
}

#[test]
fn test_server_ports_parsed_exactly() {
    let json = r#"{
        "server": {
            "cluster_message_port": 8080,
            "app_port": 8081,
            "admin_port": 8082
        }
    }"#;

    let config = TvsNodeConfig::read_config(json).unwrap();
    assert_eq!(config.tfs.server.cluster_message_port, 8080);
    assert_eq!(config.tfs.server.app_port, 8081);
    assert_eq!(config.tfs.server.admin_port, 8082);
    assert_eq!(config.tfs_config().server.app_port, 8081);
    assert_eq!(config.tfs.node_name, None);
}
