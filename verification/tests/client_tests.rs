use ferrium::client::{extract_addr, scan_for_leader, FerriteError, FerriumClient, LeaderScan, NodeMetrics};

#[test]
fn test_client_creation() {
    let client = FerriumClient::new(vec![
        "127.0.0.1:8001".to_string(),
        "127.0.0.1:8002".to_string(),
    ]);

    assert_eq!(client.node_count(), 2);
    assert_eq!(client.nodes().len(), 2);
    assert!(client.current_leader().is_none());
}

#[test]
fn test_add_node() {
    let mut client = FerriumClient::new(vec!["127.0.0.1:8001".to_string()]);
    client.add_node("127.0.0.1:8002".to_string());

    assert_eq!(client.node_count(), 2);
    assert!(client.nodes().contains(&"127.0.0.1:8001".to_string()));
    assert!(client.nodes().contains(&"127.0.0.1:8002".to_string()));

    client.add_node("127.0.0.1:8002".to_string());
    assert_eq!(client.node_count(), 2);
}

#[test]
fn test_nodes_getter() {
    let client = FerriumClient::new(vec![
        "127.0.0.1:8001".to_string(),
        "127.0.0.1:8002".to_string(),
    ]);

    let nodes = client.nodes();
    assert_eq!(nodes.len(), 2);
    assert_eq!(nodes[0], "127.0.0.1:8001");
    assert_eq!(nodes[1], "127.0.0.1:8002");
}

#[test]
fn make_url_by_scheme() {
    let plain = FerriumClient::new(vec![]);
    assert_eq!(plain.make_url("127.0.0.1:8001", "/metrics"), "http://127.0.0.1:8001/metrics");
    assert_eq!(plain.make_url("127.0.0.1:8001", "//write"), "http://127.0.0.1:8001/write");
    let tls = FerriumClient::with_tls(vec![], true);
    assert_eq!(tls.make_url("h:1", "read"), "https://h:1/read");
}

#[test]
fn extract_addr_strips_scheme() {
    assert_eq!(extract_addr("http://127.0.0.1:8001"), "127.0.0.1:8001");
    assert_eq!(extract_addr("https://127.0.0.1:8001"), "127.0.0.1:8001");
    assert_eq!(extract_addr("127.0.0.1:8001"), "127.0.0.1:8001");
}

#[test]
fn current_leader_is_remembered() {
    let mut client = FerriumClient::new(vec!["a".to_string()]);
    client.set_current_leader(Some("a".to_string()));
    assert_eq!(client.current_leader(), Some("a".to_string()));
}

fn metrics(state: Option<&str>, leader: Option<u64>) -> Option<NodeMetrics> {
    Some(NodeMetrics { state: state.map(|s| s.to_string()), current_leader: leader })
}

#[test]
fn scan_finds_first_leader() {
    let round = vec![None, metrics(Some("Follower"), Some(3)), metrics(Some("Leader"), Some(3)), metrics(Some("Leader"), Some(4))];
    assert!(matches!(scan_for_leader(&round), LeaderScan::Leader(2)));
}

#[test]
fn scan_waits_when_a_leader_is_known() {
    let round = vec![metrics(Some("Follower"), Some(3)), None];
    assert!(matches!(scan_for_leader(&round), LeaderScan::WaitAndRetry));
}

#[test]
fn scan_gives_up_without_leader() {
    let round = vec![metrics(Some("Follower"), Some(0)), metrics(Some("Learner"), None), None];
    assert!(matches!(scan_for_leader(&round), LeaderScan::NoLeader));
    assert!(matches!(scan_for_leader(&[]), LeaderScan::NoLeader));
}

#[test]
fn ferrite_error_display() {
    assert_eq!(FerriteError::Network("No leader found".to_string()).to_string(), "Network error: No leader found");
    assert_eq!(FerriteError::Raft("x".to_string()).to_string(), "Raft error: x");
    assert_eq!(FerriteError::Config("x".to_string()).to_string(), "Configuration error: x");
}
