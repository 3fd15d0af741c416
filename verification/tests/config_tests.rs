use ferrium::config::{data_dir_accessible, decide_accessible};
use ferrium::config::{
    AuthMethod, ClusterConfig, CompactionStrategy, ConfigError, FerriteConfig, PeerConfig,
    PeerConfigWithId, SecurityConfig,
};

#[test]
fn test_default_config_creation() {
    let config = FerriteConfig::default();

    assert_eq!(config.node.id, 1);
    assert_eq!(config.node.http_addr, "127.0.0.1:8001");
    assert_eq!(config.node.grpc_addr, "127.0.0.1:9001");
    assert_eq!(config.node.data_dir, "./data");
    assert!(config.node.name.is_none());

    // durations are in milliseconds
    assert_eq!(config.network.request_timeout, 30_000);
    assert_eq!(config.network.max_retries, 3);
    assert!(config.network.enable_compression);

    assert!(config.storage.enable_compression);
    assert_eq!(config.storage.compaction_strategy, CompactionStrategy::Level);
    assert!(config.storage.enable_wal);

    assert_eq!(config.raft.heartbeat_interval, 250);
    assert_eq!(config.raft.election_timeout_min, 299);
    assert_eq!(config.raft.election_timeout_max, 500);

    assert_eq!(config.cluster.name, "ferrite-cluster");
    assert!(config.cluster.enable_auto_join);
    assert!(config.cluster.auto_accept_learners);

    assert!(!config.security.enable_tls);
    assert!(!config.security.enable_mtls);
    assert_eq!(config.security.auth_method, AuthMethod::NoAuth);
}

#[test]
fn test_config_validation_valid() {
    let config = FerriteConfig::default();
    assert!(config.validate().is_ok());
}

#[test]
fn test_config_validation_invalid_node_id() {
    let mut config = FerriteConfig::default();
    config.node.id = 0;

    let result = config.validate();
    assert!(result.is_err());
    assert!(result
        .unwrap_err()
        .to_string()
        .contains("Node ID cannot be 0"));
}

#[test]
fn test_config_validation_invalid_timeouts() {
    let mut config = FerriteConfig::default();
    config.raft.election_timeout_min = 300;
    config.raft.election_timeout_max = 150;

    let result = config.validate();
    assert!(result.is_err());
    assert!(result
        .unwrap_err()
        .to_string()
        .contains("Election timeout min must be less than max"));
}

#[test]
fn test_config_validation_same_addresses() {
    let mut config = FerriteConfig::default();
    config.node.grpc_addr = config.node.http_addr.clone();

    let result = config.validate();
    assert!(result.is_err());
    assert!(result
        .unwrap_err()
        .to_string()
        .contains("HTTP and gRPC addresses cannot be the same"));
}

#[test]
fn test_config_validation_invalid_log_level() {
    let mut config = FerriteConfig::default();
    config.logging.level = "invalid_level".to_string();

    let result = config.validate();
    assert!(result.is_err());
    assert!(result
        .unwrap_err()
        .to_string()
        .contains("Invalid log level"));
}

#[test]
fn invalid_log_level_message_lists_the_levels() {
    let mut config = FerriteConfig::default();
    config.logging.level = "loud".to_string();
    match config.validate() {
        Err(ConfigError::Validation(m)) => assert_eq!(
            m,
            "Invalid log level: loud. Must be one of: [\"trace\", \"debug\", \"info\", \"warn\", \"error\"]"
        ),
        _ => panic!("expected a validation error"),
    }
}

#[test]
fn every_known_log_level_is_valid() {
    for level in ["trace", "debug", "info", "warn", "error"] {
        let mut config = FerriteConfig::default();
        config.logging.level = level.to_string();
        assert!(config.validate().is_ok());
    }
}

#[test]
fn equal_election_timeouts_are_invalid() {
    let mut config = FerriteConfig::default();
    config.raft.election_timeout_min = 400;
    config.raft.election_timeout_max = 400;
    assert!(config.validate().is_err());
}

#[test]
fn node_id_is_checked_before_timeouts() {
    let mut config = FerriteConfig::default();
    config.node.id = 0;
    config.raft.election_timeout_min = 900;
    match config.validate() {
        Err(ConfigError::Validation(m)) => assert_eq!(m, "Node ID cannot be 0"),
        _ => panic!("expected a validation error"),
    }
}

#[test]
fn test_default_config_paths() {
    let paths = FerriteConfig::default_config_paths();

    assert!(paths.len() >= 2);

    let combined = paths.join(" ");
    assert!(combined.contains("ferrite") || combined.contains(".ferrite"));
    assert!(combined.contains("/etc") || combined.contains("system"));
}

#[test]
fn config_paths_under_known_directories() {
    let paths = ferrium::config::config_paths_from(
        Some("/home/u/.config".to_string()),
        Some("/home/u/".to_string()),
    );
    assert_eq!(
        paths,
        vec![
            "ferrite.toml".to_string(),
            "config/ferrite.toml".to_string(),
            "/etc/ferrite/config.toml".to_string(),
            "/home/u/.config/ferrite/config.toml".to_string(),
            "/home/u/.ferrite.toml".to_string(),
        ]
    );
    let elsewhere = ferrium::config::config_paths_from(
        Some("/Users/u/Library/Application Support".to_string()),
        Some("/Users/u".to_string()),
    );
    assert_eq!(elsewhere.len(), 6);
    assert_eq!(elsewhere[3], "/Users/u/Library/Application Support/ferrite/config.toml");
    assert_eq!(elsewhere[4], "/Users/u/.config/ferrite/config.toml");
    let fixed_only = ferrium::config::config_paths_from(None, None);
    assert_eq!(fixed_only.len(), 3);
}

#[test]
fn join_path_adds_one_separator() {
    assert_eq!(ferrium::config::join_path("/a", "b"), "/a/b");
    assert_eq!(ferrium::config::join_path("/a/", "b"), "/a/b");
    assert_eq!(ferrium::config::join_path("", "b"), "b");
}

#[test]
fn test_config_error_display() {
    let io_error = ConfigError::Io("File not found".to_string());
    assert!(io_error.to_string().contains("File not found"));

    let parse_error = ConfigError::Parse("Invalid TOML".to_string());
    assert!(parse_error.to_string().contains("Invalid TOML"));

    let validation_error = ConfigError::Validation("Node ID cannot be 0".to_string());
    assert!(validation_error.to_string().contains("Node ID cannot be 0"));
}

#[test]
fn config_error_display_prefixes() {
    assert_eq!(ConfigError::Io("x".to_string()).to_string(), "IO error: x");
    assert_eq!(ConfigError::Parse("x".to_string()).to_string(), "Parse error: x");
    assert_eq!(ConfigError::Serialize("x".to_string()).to_string(), "Serialization error: x");
    assert_eq!(ConfigError::Validation("x".to_string()).to_string(), "Validation error: x");
}

#[test]
fn test_peer_config_with_id() {
    let peer = PeerConfigWithId {
        id: 42,
        http_addr: "192.168.1.100:8080".to_string(),
        grpc_addr: "192.168.1.100:9090".to_string(),
        priority: Some(10),
        voting: false,
    };

    assert_eq!(peer.id, 42);
    assert_eq!(peer.http_addr, "192.168.1.100:8080");
    assert_eq!(peer.grpc_addr, "192.168.1.100:9090");
    assert_eq!(peer.priority, Some(10));
    assert!(!peer.voting);
}

#[test]
fn test_get_all_peers_combined() {
    let mut config = FerriteConfig::default();

    let old_peer = PeerConfig {
        http_addr: "127.0.0.1:8001".to_string(),
        grpc_addr: "127.0.0.1:9001".to_string(),
        priority: None,
        voting: true,
    };
    config.cluster.peers.insert(1, old_peer);

    let new_peer = PeerConfigWithId {
        id: 2,
        http_addr: "127.0.0.1:8002".to_string(),
        grpc_addr: "127.0.0.1:9002".to_string(),
        priority: None,
        voting: true,
    };
    config.cluster.peer_list.push(new_peer);

    let all_peers = config.cluster.get_all_peers();
    assert_eq!(all_peers.len(), 2);
    assert!(all_peers.contains_key(&1));
    assert!(all_peers.contains_key(&2));

    let duplicate_peer = PeerConfigWithId {
        id: 1,
        http_addr: "127.0.0.1:8003".to_string(),
        grpc_addr: "127.0.0.1:9003".to_string(),
        priority: None,
        voting: false,
    };
    config.cluster.peer_list.push(duplicate_peer);

    let all_peers_with_override = config.cluster.get_all_peers();
    assert_eq!(all_peers_with_override.len(), 2);

    let peer_1 = &all_peers_with_override[&1];
    assert_eq!(peer_1.http_addr, "127.0.0.1:8003");
    assert!(!peer_1.voting);
}

#[test]
fn later_list_entry_wins_over_earlier() {
    let mut cluster = ClusterConfig::default();
    for (port, voting) in [(8001, true), (8002, false)] {
        cluster.peer_list.push(PeerConfigWithId {
            id: 7,
            http_addr: format!("127.0.0.1:{port}"),
            grpc_addr: "127.0.0.1:9000".to_string(),
            priority: None,
            voting,
        });
    }
    let all = cluster.get_all_peers();
    assert_eq!(all.len(), 1);
    assert_eq!(all[&7].http_addr, "127.0.0.1:8002");
    assert!(!all[&7].voting);
}

#[test]
fn security_defaults() {
    let security = SecurityConfig::default();
    assert!(!security.accept_invalid_certs);
    assert!(security.cert_file.is_none());
}

#[test]
fn data_directory_must_be_accessible() {
    let file = tempfile::NamedTempFile::new().unwrap();
    let below_file = format!("{}/data", file.path().display());
    assert!(!data_dir_accessible(&below_file));
    assert!(!data_dir_accessible(""));
    let dir = tempfile::tempdir().unwrap();
    let dir_path = dir.path().display().to_string();
    assert!(data_dir_accessible(&dir_path));
    assert!(data_dir_accessible(&format!("{}/not/yet/made", dir_path)));

    let mut config = FerriteConfig::default();
    config.node.data_dir = below_file.clone();
    match config.validate() {
        Err(ConfigError::Validation(m)) => {
            assert_eq!(m, format!("Data directory is not accessible: {}", below_file))
        }
        other => panic!("unexpected: {:?}", other),
    }
    assert!(FerriteConfig::default().validate_with(true).is_ok());
    assert!(FerriteConfig::default().validate_with(false).is_err());

    assert!(decide_accessible(&[]));
    assert!(decide_accessible(&[(false, false), (true, true)]));
    assert!(!decide_accessible(&[(false, false), (true, false), (true, true)]));
}
