use ferrium::network::{after_build_error, after_rustls_error, tls_setup, ClientUse, SetupStep, TlsSetup};
use ferrium::tls::ClientTlsConfig;
use ferrium::network::{auto_join_after_discovery, auto_join_after_request, AutoJoinStep};
use std::collections::HashMap;

use ferrium::config::{FerriteConfig, KvResponse, NodeId, PeerConfig, PeerConfigWithId};
use ferrium::network::{
    auto_join_should_start, discovery_targets, init_node, is_leader, join_request, join_url,
    on_leader_report, read_value, rpc_url, should_auto_accept_learner, DiscoveryStep,
    NetworkConfig,
};

fn create_test_config_with_peers(node_id: NodeId, peers: Vec<(NodeId, &str, &str)>) -> FerriteConfig {
    let mut config = FerriteConfig::default();
    config.node.id = node_id;
    config.node.http_addr = format!("127.0.0.1:{}", 8000 + node_id);

    let mut cluster_peers = HashMap::new();
    for (id, http_addr, grpc_addr) in peers {
        cluster_peers.insert(
            id,
            PeerConfig {
                http_addr: http_addr.to_string(),
                grpc_addr: grpc_addr.to_string(),
                priority: None,
                voting: true,
            },
        );
    }
    config.cluster.peers = cluster_peers;
    config
}

#[test]
fn test_network_config_creation() {
    let config = NetworkConfig {
        node_id: 1,
        http_addr: "127.0.0.1:8001".to_string(),
        raft_addr: "127.0.0.1:9001".to_string(),
    };

    assert_eq!(config.node_id, 1);
    assert_eq!(config.http_addr, "127.0.0.1:8001");
    assert_eq!(config.raft_addr, "127.0.0.1:9001");
}

#[test]
fn test_url_construction_logic() {
    let test_cases = vec![
        ("127.0.0.1:8001", "test", "http://127.0.0.1:8001/test"),
        ("http://127.0.0.1:8001", "test", "http://127.0.0.1:8001/test"),
        ("https://example.com:8001", "test", "https://example.com:8001/test"),
    ];

    for (addr, uri, expected) in test_cases {
        let url = rpc_url(addr, uri);
        assert_eq!(url, expected, "Failed for addr: {addr}, uri: {uri}");
    }
}

#[test]
fn rpc_url_for_raft_paths() {
    assert_eq!(
        rpc_url("https://10.0.0.1:8001", "raft/append-entries"),
        "https://10.0.0.1:8001/raft/append-entries"
    );
    assert_eq!(rpc_url("10.0.0.1:8001", "raft/vote"), "http://10.0.0.1:8001/raft/vote");
}

#[test]
fn test_should_auto_accept_learner() {
    let peers = vec![
        (1, "127.0.0.1:8001", "127.0.0.1:9001"),
        (2, "127.0.0.1:8002", "127.0.0.1:9002"),
        (3, "127.0.0.1:8003", "127.0.0.1:9003"),
    ];

    let mut config = create_test_config_with_peers(1, peers);
    config.cluster.auto_accept_learners = true;

    assert!(should_auto_accept_learner(2, &config));
    assert!(!should_auto_accept_learner(99, &config));

    config.cluster.auto_accept_learners = false;
    assert!(!should_auto_accept_learner(2, &config));
}

#[test]
fn auto_accept_sees_array_format_peers() {
    let mut config = create_test_config_with_peers(1, vec![]);
    config.cluster.peer_list.push(PeerConfigWithId {
        id: 5,
        http_addr: "127.0.0.1:8005".to_string(),
        grpc_addr: "127.0.0.1:9005".to_string(),
        priority: None,
        voting: true,
    });
    assert!(should_auto_accept_learner(5, &config));
}

#[test]
fn test_peer_configuration_formats() {
    let mut config = FerriteConfig::default();

    let peer1 = PeerConfig {
        http_addr: "127.0.0.1:8001".to_string(),
        grpc_addr: "127.0.0.1:9001".to_string(),
        priority: None,
        voting: true,
    };
    config.cluster.peers.insert(1, peer1);

    let peer2 = PeerConfigWithId {
        id: 2,
        http_addr: "127.0.0.1:8002".to_string(),
        grpc_addr: "127.0.0.1:9002".to_string(),
        priority: Some(10),
        voting: true,
    };
    config.cluster.peer_list.push(peer2);

    let all_peers = config.cluster.get_all_peers();
    assert_eq!(all_peers.len(), 2);
    assert!(all_peers.contains_key(&1));
    assert!(all_peers.contains_key(&2));

    let peer1_override = PeerConfigWithId {
        id: 1,
        http_addr: "127.0.0.1:8888".to_string(),
        grpc_addr: "127.0.0.1:9888".to_string(),
        priority: Some(20),
        voting: false,
    };
    config.cluster.peer_list.push(peer1_override);

    let all_peers_with_override = config.cluster.get_all_peers();
    assert_eq!(all_peers_with_override.len(), 2);

    let overridden_peer = &all_peers_with_override[&1];
    assert_eq!(overridden_peer.http_addr, "127.0.0.1:8888");
    assert!(!overridden_peer.voting);
}

#[test]
fn test_cluster_config_timeouts() {
    let mut config = FerriteConfig::default();

    // timeouts are in milliseconds
    assert!(config.cluster.leader_discovery_timeout > 0);
    assert!(config.cluster.auto_join_timeout > 0);
    assert!(config.cluster.auto_join_retry_interval > 0);

    config.cluster.leader_discovery_timeout = 5_000;
    config.cluster.auto_join_timeout = 10_000;
    config.cluster.auto_join_retry_interval = 500;

    assert_eq!(config.cluster.leader_discovery_timeout, 5_000);
    assert_eq!(config.cluster.auto_join_timeout, 10_000);
    assert_eq!(config.cluster.auto_join_retry_interval, 500);
}

#[test]
fn test_auto_join_configuration_validation() {
    let mut config = FerriteConfig::default();

    config.cluster.enable_auto_join = true;
    assert!(config.cluster.enable_auto_join);

    config.cluster.auto_accept_learners = true;
    assert!(config.cluster.auto_accept_learners);

    config.cluster.enable_auto_join = false;
    assert!(!config.cluster.enable_auto_join);
    assert!(config.cluster.auto_accept_learners);

    config.cluster.auto_accept_learners = false;
    assert!(!config.cluster.auto_accept_learners);
}

#[test]
fn test_multiple_peer_discovery_scenarios() {
    let config1 = create_test_config_with_peers(1, vec![]);
    let peers1 = config1.cluster.get_all_peers();
    assert_eq!(peers1.len(), 0);

    let config2 = create_test_config_with_peers(1, vec![(2, "127.0.0.1:8002", "127.0.0.1:9002")]);
    let peers2 = config2.cluster.get_all_peers();
    assert_eq!(peers2.len(), 1);
    assert!(peers2.contains_key(&2));

    let config3 = create_test_config_with_peers(
        1,
        vec![
            (2, "127.0.0.1:8002", "127.0.0.1:9002"),
            (3, "127.0.0.1:8003", "127.0.0.1:9003"),
            (4, "127.0.0.1:8004", "127.0.0.1:9004"),
        ],
    );
    let peers3 = config3.cluster.get_all_peers();
    assert_eq!(peers3.len(), 3);
    assert!(peers3.contains_key(&2));
    assert!(peers3.contains_key(&3));
    assert!(peers3.contains_key(&4));
}

#[test]
fn test_node_address_formatting() {
    let config = create_test_config_with_peers(1, vec![(2, "127.0.0.1:8002", "127.0.0.1:9002")]);

    let http_addr = format!("http://{}", config.node.http_addr);
    assert!(http_addr.starts_with("http://"));
    assert!(http_addr.contains("127.0.0.1:8001"));

    let peers = config.cluster.get_all_peers();
    let peer2 = &peers[&2];
    assert_eq!(peer2.http_addr, "127.0.0.1:8002");
    assert_eq!(peer2.grpc_addr, "127.0.0.1:9002");
}

#[test]
fn test_configuration_edge_cases() {
    let mut config = FerriteConfig::default();
    config.cluster.leader_discovery_timeout = 1;
    config.cluster.auto_join_timeout = 1;
    config.cluster.auto_join_retry_interval = 1;

    assert_eq!(config.cluster.leader_discovery_timeout, 1);

    config.cluster.leader_discovery_timeout = 3_600_000;
    assert_eq!(config.cluster.leader_discovery_timeout, 3_600_000);

    config.cluster.enable_auto_join = false;
    let peers = vec![(2, "127.0.0.1:8002", "127.0.0.1:9002")];
    let config_with_peers = create_test_config_with_peers(1, peers);

    assert!(config_with_peers.cluster.enable_auto_join);
    assert!(!config_with_peers.cluster.get_all_peers().is_empty());
}

#[test]
fn init_node_uses_http_address_and_scheme() {
    let mut config = FerriteConfig::default();
    let (id, node) = init_node(&config);
    assert_eq!(id, 1);
    assert_eq!(node.rpc_addr, "http://127.0.0.1:8001");
    assert_eq!(node.api_addr, "http://127.0.0.1:8001");

    config.security.enable_tls = true;
    let (_, node) = init_node(&config);
    assert_eq!(node.rpc_addr, "https://127.0.0.1:8001");
}

#[test]
fn leader_check() {
    assert!(is_leader(Some(3), 3));
    assert!(!is_leader(Some(2), 3));
    assert!(!is_leader(None, 3));
}

#[test]
fn read_value_of_answers() {
    assert_eq!(read_value(KvResponse::Get { value: Some("v".to_string()) }), Some("v".to_string()));
    assert_eq!(read_value(KvResponse::Get { value: None }), None);
    assert_eq!(read_value(KvResponse::Put), None);
    assert_eq!(read_value(KvResponse::Delete), None);
}

#[test]
fn discovery_asks_every_other_peer() {
    let config = create_test_config_with_peers(
        1,
        vec![
            (1, "127.0.0.1:8001", "127.0.0.1:9001"),
            (2, "127.0.0.1:8002", "127.0.0.1:9002"),
            (3, "127.0.0.1:8003", "127.0.0.1:9003"),
        ],
    );
    let peers = config.cluster.get_all_peers();
    let mut targets = discovery_targets(&peers, 1, false);
    targets.sort();
    assert_eq!(
        targets,
        vec![
            (2, "http://127.0.0.1:8002/leader".to_string()),
            (3, "http://127.0.0.1:8003/leader".to_string()),
        ]
    );
    let tls_targets = discovery_targets(&peers, 3, true);
    assert_eq!(tls_targets.len(), 2);
    assert!(tls_targets.iter().all(|(_, u)| u.starts_with("https://")));
}

#[test]
fn leader_reports_decide_discovery() {
    let config = create_test_config_with_peers(1, vec![(2, "127.0.0.1:8002", "127.0.0.1:9002")]);
    let peers = config.cluster.get_all_peers();
    match on_leader_report(&peers, 1, 2, true) {
        DiscoveryStep::Found(id, url) => {
            assert_eq!(id, 2);
            assert_eq!(url, "https://127.0.0.1:8002");
        }
        _ => panic!("expected the leader"),
    }
    assert!(matches!(on_leader_report(&peers, 1, 1, false), DiscoveryStep::SelfIsLeader));
    assert!(matches!(on_leader_report(&peers, 1, 9, false), DiscoveryStep::KeepLooking));
}

#[test]
fn auto_join_needs_enabling_and_peers() {
    let mut config = create_test_config_with_peers(1, vec![]);
    assert!(!auto_join_should_start(&config));
    config = create_test_config_with_peers(1, vec![(2, "127.0.0.1:8002", "127.0.0.1:9002")]);
    assert!(auto_join_should_start(&config));
    config.cluster.enable_auto_join = false;
    assert!(!auto_join_should_start(&config));
}

#[test]
fn join_request_and_url() {
    let config = create_test_config_with_peers(4, vec![]);
    let req = join_request(&config, 4, true);
    assert_eq!(req.node_id, 4);
    assert_eq!(req.rpc_addr, "https://127.0.0.1:8004");
    assert_eq!(req.api_addr, "https://127.0.0.1:8004");
    assert_eq!(join_url("http://127.0.0.1:8001"), "http://127.0.0.1:8001/add-learner");
}

#[test]
fn client_tls_setup_decisions() {
    let insecure = ClientTlsConfig::insecure();
    assert_eq!(tls_setup(ClientUse::Rpc, None), TlsSetup::Plain);
    assert_eq!(tls_setup(ClientUse::Discovery, Some(&insecure)), TlsSetup::AcceptAny);
    assert_eq!(tls_setup(ClientUse::Join, Some(&insecure)), TlsSetup::Rustls);
    assert_eq!(tls_setup(ClientUse::Rpc, Some(&insecure)), TlsSetup::Rustls);

    assert!(matches!(after_rustls_error(ClientUse::Rpc, &insecure, "x"), SetupStep::Use(TlsSetup::Plain)));
    assert!(matches!(after_rustls_error(ClientUse::Discovery, &insecure, "x"), SetupStep::Use(TlsSetup::AcceptAny)));
    match after_rustls_error(ClientUse::Join, &insecure, "bad key") {
        SetupStep::Fail(m) => assert_eq!(m, "Failed to create TLS client config: bad key"),
        other => panic!("unexpected: {:?}", other),
    }
    match after_build_error(ClientUse::Discovery, Some(&insecure), "no backend") {
        SetupStep::Fail(m) => assert_eq!(m, "Failed to create HTTP client: no backend"),
        other => panic!("unexpected: {:?}", other),
    }
    let mut with_cert = ClientTlsConfig::insecure();
    with_cert.client_cert = Some(vec![vec![1, 2, 3]]);
    assert!(matches!(after_build_error(ClientUse::Join, Some(&with_cert), "e"), SetupStep::Use(TlsSetup::AcceptAny)));
    assert!(matches!(after_build_error(ClientUse::Rpc, Some(&with_cert), "e"), SetupStep::Fail(_)));
}

#[test]
fn auto_join_outcomes() {
    match auto_join_after_discovery(Ok(Some((2, "http://127.0.0.1:8002".to_string())))) {
        AutoJoinStep::RequestJoin(id, url) => {
            assert_eq!(id, 2);
            assert_eq!(url, "http://127.0.0.1:8002");
        }
        other => panic!("unexpected: {:?}", other),
    }
    assert!(matches!(auto_join_after_discovery(Ok(None)), AutoJoinStep::Finish(false)));
    assert!(matches!(auto_join_after_discovery(Err("timeout".to_string())), AutoJoinStep::Finish(false)));
    assert!(auto_join_after_request(&Ok(())));
    assert!(!auto_join_after_request(&Err("rejected".to_string())));
}
