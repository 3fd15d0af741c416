use ferrium::config::Node;
use ferrium::raft::Membership;
use ferrium::services::{
    batch_set_done, batch_set_step, delete_answer, exists_answer, get_answer, key_existed,
    leader_answer, write_answer, BatchStep,
};

fn node(rpc: &str, api: &str) -> Node {
    Node { rpc_addr: rpc.to_string(), api_addr: api.to_string() }
}

#[test]
fn test_write_answer_success_and_failure() {
    let ok = write_answer(&Ok(()));
    assert!(ok.success);
    assert_eq!(ok.error, "");

    let failed = write_answer(&Err("not leader".to_string()));
    assert!(!failed.success);
    assert_eq!(failed.error, "not leader");
}

#[test]
fn test_get_answer_cases() {
    let found = get_answer("k".to_string(), &Ok(Some("v".to_string())));
    assert_eq!(found.key, "k");
    assert_eq!(found.value, "v");
    assert!(found.found);
    assert_eq!(found.error, "");

    let missing = get_answer("k".to_string(), &Ok(None));
    assert!(!missing.found);
    assert_eq!(missing.value, "");
    assert_eq!(missing.error, "");

    let failed = get_answer("k".to_string(), &Err("timeout".to_string()));
    assert!(!failed.found);
    assert_eq!(failed.value, "");
    assert_eq!(failed.error, "timeout");
}

#[test]
fn test_delete_and_exists_answers() {
    assert!(key_existed(&Ok(Some("v".to_string()))));
    assert!(!key_existed(&Ok(None)));
    assert!(!key_existed(&Err("down".to_string())));

    let d = delete_answer(true, &Ok(()));
    assert!(d.success && d.existed);
    assert_eq!(d.error, "");
    let d = delete_answer(false, &Err("no quorum".to_string()));
    assert!(!d.success && !d.existed);
    assert_eq!(d.error, "no quorum");

    let e = exists_answer(&Ok(Some("v".to_string())));
    assert!(e.exists);
    assert_eq!(e.error, "");
    let e = exists_answer(&Ok(None));
    assert!(!e.exists);
    let e = exists_answer(&Err("down".to_string()));
    assert!(!e.exists);
    assert_eq!(e.error, "down");
}

#[test]
fn test_batch_set_counts_until_first_failure() {
    let outcomes: Vec<Result<(), String>> =
        vec![Ok(()), Ok(()), Err("lost leadership".to_string()), Ok(())];
    let mut count: u32 = 0;
    let mut answer = None;
    for o in &outcomes {
        match batch_set_step(count, o) {
            BatchStep::Continue(c) => count = c,
            BatchStep::Stop(a) => {
                answer = Some(a);
                break;
            }
        }
    }
    let a = answer.unwrap_or_else(|| batch_set_done(count));
    assert!(!a.success);
    assert_eq!(a.count, 2);
    assert_eq!(a.error, "lost leadership");

    let all_ok = batch_set_done(3);
    assert!(all_ok.success);
    assert_eq!(all_ok.count, 3);
    assert_eq!(all_ok.error, "");
}

#[test]
fn test_leader_answer_cases() {
    let membership = Membership {
        configs: vec![vec![1, 2]],
        nodes: vec![
            (1, node("http://127.0.0.1:8001", "http://127.0.0.1:8001")),
            (2, node("http://127.0.0.1:8002", "http://127.0.0.1:8002")),
        ],
    };

    let none = leader_answer(None, &membership);
    assert_eq!(none.leader_id, None);
    assert!(none.leader_info.is_none());
    assert_eq!(none.error, "");

    let found = leader_answer(Some(2), &membership);
    assert_eq!(found.leader_id, Some(2));
    let info = found.leader_info.unwrap();
    assert_eq!(info.rpc_addr, "http://127.0.0.1:8002");
    assert_eq!(info.api_addr, "http://127.0.0.1:8002");
    assert_eq!(found.error, "");

    let unknown = leader_answer(Some(7), &membership);
    assert_eq!(unknown.leader_id, Some(7));
    assert!(unknown.leader_info.is_none());
    assert_eq!(unknown.error, "Leader node not found in membership");
}
