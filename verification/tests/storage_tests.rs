use ferrium::config::{KvRequest, KvResponse, KvSnapshot, Node};
use ferrium::kv_map::KvMap;
use ferrium::raft::{Entry, EntryPayload, LogId, Membership, SnapshotMeta, StoredMembership};
use ferrium::storage::{
    bin_to_id, conflict_key_range, id_to_bin, log_state, purge_key_range, snapshot_id,
    IndexBound, KvStateMachine, LogRange,
};

fn create_test_entry(index: u64, term: u64, request: KvRequest) -> Entry {
    Entry { log_id: LogId::new(term, 1, index), payload: EntryPayload::Normal(request) }
}

fn put(key: &str, value: &str) -> KvRequest {
    KvRequest::Put { key: key.to_string(), value: value.to_string() }
}

#[test]
fn test_state_machine_operations() {
    let mut sm = KvStateMachine::new();
    let entries = vec![
        create_test_entry(1, 1, put("name", "ferrite")),
        create_test_entry(2, 1, put("version", "1.0")),
        create_test_entry(3, 1, KvRequest::Get { key: "name".to_string() }),
        create_test_entry(4, 1, KvRequest::Delete { key: "version".to_string() }),
    ];

    let responses = sm.apply(&entries);

    assert_eq!(responses.len(), 4);
    assert!(matches!(responses[0], KvResponse::Put));
    assert!(matches!(responses[1], KvResponse::Put));
    assert!(matches!(responses[2], KvResponse::Get { value: Some(ref v) } if v == "ferrite"));
    assert!(matches!(responses[3], KvResponse::Delete));

    assert_eq!(sm.data.get("name"), Some("ferrite".to_string()));
    assert_eq!(sm.data.get("version"), None);
    assert!(sm.last_applied_log_id == Some(LogId::new(1, 1, 4)));
}

#[test]
fn read_after_write_and_overwrite() {
    let mut sm = KvStateMachine::new();
    let responses = sm.apply(&[
        create_test_entry(1, 1, put("k", "v1")),
        create_test_entry(2, 1, put("k", "v2")),
        create_test_entry(3, 1, KvRequest::Get { key: "k".to_string() }),
        create_test_entry(4, 1, KvRequest::Get { key: "missing".to_string() }),
    ]);
    assert!(matches!(responses[2], KvResponse::Get { value: Some(ref v) } if v == "v2"));
    assert!(matches!(responses[3], KvResponse::Get { value: None }));
    assert_eq!(sm.data.len(), 1);
}

#[test]
fn blank_entries_answer_put_and_move_last_applied() {
    let mut sm = KvStateMachine::new();
    let responses = sm.apply(&[Entry { log_id: LogId::new(2, 3, 9), payload: EntryPayload::Blank }]);
    assert!(matches!(responses[0], KvResponse::Put));
    assert!(sm.last_applied_log_id == Some(LogId::new(2, 3, 9)));
    assert!(sm.data.is_empty());
}

#[test]
fn batches_give_the_same_state() {
    let entries: Vec<Entry> = (1..=6)
        .map(|i| create_test_entry(i, 1, if i % 3 == 0 {
            KvRequest::Delete { key: format!("key{}", i - 1) }
        } else {
            put(&format!("key{i}"), &format!("value{i}"))
        }))
        .collect();
    let mut at_once = KvStateMachine::new();
    at_once.apply(&entries);
    let mut in_two = KvStateMachine::new();
    in_two.apply(&entries[..2]);
    in_two.apply(&entries[2..]);
    for i in 1..=6 {
        let k = format!("key{i}");
        assert_eq!(at_once.data.get(&k), in_two.data.get(&k));
    }
    assert_eq!(at_once.data.len(), in_two.data.len());
}

#[test]
fn test_membership_changes() {
    let mut sm = KvStateMachine::new();
    let membership = Membership {
        configs: vec![vec![1, 2, 3]],
        nodes: vec![(1, Node { rpc_addr: "a".to_string(), api_addr: "a".to_string() })],
    };
    let entry = Entry { log_id: LogId::new(1, 1, 1), payload: EntryPayload::Membership(membership) };
    let responses = sm.apply(&[entry]);

    assert_eq!(responses.len(), 1);
    assert!(matches!(responses[0], KvResponse::Put));

    let (last_applied, last_membership) = sm.last_applied_state();
    assert!(last_applied == Some(LogId::new(1, 1, 1)));
    assert!(last_membership.log_id == Some(LogId::new(1, 1, 1)));
    assert_eq!(last_membership.membership.configs, vec![vec![1, 2, 3]]);
    assert_eq!(last_membership.membership.nodes.len(), 1);
}

#[test]
fn test_snapshot_creation_and_installation() {
    let mut sm = KvStateMachine::new();
    sm.apply(&[
        create_test_entry(1, 1, put("config", "production")),
        create_test_entry(2, 1, put("nodes", "3")),
    ]);

    let (meta, snapshot) = sm.build_snapshot();
    assert!(meta.last_log_id == Some(LogId::new(1, 1, 2)));
    assert_eq!(meta.snapshot_id, "T1-N1-2");
    assert_eq!(snapshot.data.len(), 2);
    assert!(snapshot.data.contains(&("config".to_string(), "production".to_string())));
    assert!(snapshot.data.contains(&("nodes".to_string(), "3".to_string())));

    let mut fresh = KvStateMachine::new();
    fresh.install_snapshot(&meta, &snapshot);
    assert_eq!(fresh.data.get("config"), Some("production".to_string()));
    assert_eq!(fresh.data.get("nodes"), Some("3".to_string()));
    assert!(fresh.last_applied_log_id == Some(LogId::new(1, 1, 2)));
}

#[test]
fn loading_snapshot_data_keeps_the_rest() {
    let mut sm = KvStateMachine::new();
    sm.apply(&[create_test_entry(5, 2, put("a", "1"))]);
    let snapshot = KvSnapshot { data: vec![("persistent".to_string(), "data".to_string()), ("persistent".to_string(), "later".to_string())] };
    sm.load_snapshot_data(&snapshot);
    assert_eq!(sm.data.get("persistent"), Some("later".to_string()));
    assert_eq!(sm.data.get("a"), None);
    assert!(sm.last_applied_log_id == Some(LogId::new(2, 1, 5)));
}

#[test]
fn empty_snapshot_id() {
    let sm = KvStateMachine::new();
    let (meta, snapshot) = sm.build_snapshot();
    assert_eq!(meta.snapshot_id, "empty");
    assert!(snapshot.data.is_empty());
    assert_eq!(snapshot_id(Some(LogId::new(12, 3, 4567))), "T12-N3-4567");
    let installed = SnapshotMeta { last_log_id: None, last_membership: StoredMembership::empty(), snapshot_id: "x".to_string() };
    let mut other = KvStateMachine::new();
    other.install_snapshot(&installed, &snapshot);
    assert!(other.last_applied_log_id.is_none());
}

#[test]
fn test_binary_key_conversion_helpers() {
    let test_values = vec![0u64, 1, 42, 1000, u64::MAX];

    for value in test_values {
        let binary = id_to_bin(value);
        let recovered = bin_to_id(&binary);
        assert_eq!(value, recovered, "Failed to convert value {} correctly", value);
    }

    let values = vec![1u64, 5, 10, 42, 100];
    let mut binary_keys: Vec<_> = values.iter().map(|v| id_to_bin(*v)).collect();
    binary_keys.sort();

    let recovered_values: Vec<_> = binary_keys.iter().map(|k| bin_to_id(k)).collect();
    assert_eq!(values, recovered_values, "Binary keys don't sort correctly");
}

#[test]
fn keys_are_big_endian() {
    assert_eq!(id_to_bin(0x0102030405060708), vec![1, 2, 3, 4, 5, 6, 7, 8]);
    assert_eq!(bin_to_id(&[0, 0, 0, 0, 0, 0, 1, 0, 99]), 256);
}

#[test]
fn ranges() {
    let r = LogRange { start: IndexBound::Included(1), end: IndexBound::Included(5) };
    assert!(r.contains(1) && r.contains(5) && !r.contains(6) && !r.contains(0));
    assert_eq!(r.start_key(), id_to_bin(1));
    let open = LogRange { start: IndexBound::Excluded(3), end: IndexBound::Unbounded };
    assert!(!open.contains(3) && open.contains(u64::MAX));
    assert_eq!(open.start_key(), id_to_bin(4));
    let all = LogRange { start: IndexBound::Unbounded, end: IndexBound::Excluded(2) };
    assert_eq!(all.start_key(), id_to_bin(0));
    assert!(all.contains(1) && !all.contains(2));
}

#[test]
fn log_state_falls_back_to_purged() {
    let purged = Some(LogId::new(1, 1, 3));
    let s = log_state(None, purged);
    assert!(s.last_log_id == purged && s.last_purged_log_id == purged);
    let s = log_state(Some(LogId::new(1, 1, 5)), purged);
    assert!(s.last_log_id == Some(LogId::new(1, 1, 5)));
}

#[test]
fn deletion_key_ranges() {
    let (from, to) = conflict_key_range(LogId::new(1, 1, 6));
    assert_eq!(from, id_to_bin(6));
    assert_eq!(to, id_to_bin(u64::MAX));
    let (from, to) = purge_key_range(LogId::new(1, 1, 3));
    assert_eq!(from, id_to_bin(0));
    assert_eq!(to, id_to_bin(4));
}

#[test]
fn kv_map_basics() {
    let mut m = KvMap::new();
    m.insert("a".to_string(), "1".to_string());
    m.insert("b".to_string(), "2".to_string());
    m.insert("a".to_string(), "3".to_string());
    assert_eq!(m.len(), 2);
    assert!(m.contains_key("b"));
    m.remove("b");
    m.remove("zzz");
    assert!(!m.contains_key("b"));
    assert_eq!(m.get("a"), Some("3".to_string()));
    let pairs = m.to_pairs();
    assert_eq!(pairs, vec![("a".to_string(), "3".to_string())]);
}
