//! What the key-value and management services answer: the answer to each
//! request from the outcome of the Raft operation behind it, the leader's
//! address from the membership, and the progress of a batch of writes.
use vstd::prelude::*;
use crate::config::{Node, NodeId};
use crate::raft::Membership;
use crate::text::string_from;

verus! {

/// The answer to a write, an initialization or a membership change: whether
/// it succeeded, and the error message when it did not (else empty).
#[derive(Debug)]
pub struct WriteAnswer {
    pub success: bool,
    pub error: String,
}

/// The answer of an operation that either succeeds or fails with a message.
pub fn write_answer(result: &Result<(), String>) -> (r: WriteAnswer)
    ensures
        match result {
            Ok(()) => r.success && r.error@.len() == 0,
            Err(e) => !r.success && r.error@ == e@,
        },
{
    match result {
        Ok(()) => WriteAnswer { success: true, error: String::new() },
        Err(e) => WriteAnswer { success: false, error: e.clone() },
    }
}

/// The answer to a read of `key`.
#[derive(Debug)]
pub struct GetAnswer {
    pub key: String,
    pub value: String,
    pub found: bool,
    pub error: String,
}

/// The answer to a read: the value when the key holds one; not found, with an
/// empty value, when it holds none or the read failed, the failure's message
/// then standing in `error`.
pub fn get_answer(key: String, read: &Result<Option<String>, String>) -> (r: GetAnswer)
    ensures
        r.key == key,
        match read {
            Ok(Some(v)) => r.found && r.value@ == v@ && r.error@.len() == 0,
            Ok(None) => !r.found && r.value@.len() == 0 && r.error@.len() == 0,
            Err(e) => !r.found && r.value@.len() == 0 && r.error@ == e@,
        },
{
    match read {
        Ok(Some(v)) => GetAnswer { key, value: v.clone(), found: true, error: String::new() },
        Ok(None) => GetAnswer { key, value: String::new(), found: false, error: String::new() },
        Err(e) => GetAnswer { key, value: String::new(), found: false, error: e.clone() },
    }
}

/// Whether a read found the key; a failed read counts as not found.
pub fn key_existed(read: &Result<Option<String>, String>) -> (r: bool)
    ensures
        r == (read matches Ok(Some(_))),
{
    match read {
        Ok(Some(_)) => true,
        _ => false,
    }
}

/// The answer to a removal.
#[derive(Debug)]
pub struct DeleteAnswer {
    pub success: bool,
    pub existed: bool,
    pub error: String,
}

/// The answer to a removal, from whether the key existed before it and the
/// outcome of the write.
pub fn delete_answer(existed: bool, result: &Result<(), String>) -> (r: DeleteAnswer)
    ensures
        r.existed == existed,
        match result {
            Ok(()) => r.success && r.error@.len() == 0,
            Err(e) => !r.success && r.error@ == e@,
        },
{
    let w = write_answer(result);
    DeleteAnswer { success: w.success, existed, error: w.error }
}

/// The answer to a question whether a key exists.
#[derive(Debug)]
pub struct ExistsAnswer {
    pub exists: bool,
    pub error: String,
}

/// Whether the key exists, from a read of it; a failed read answers no, with
/// its message.
pub fn exists_answer(read: &Result<Option<String>, String>) -> (r: ExistsAnswer)
    ensures
        r.exists == (read matches Ok(Some(_))),
        match read {
            Err(e) => r.error@ == e@,
            Ok(_) => r.error@.len() == 0,
        },
{
    match read {
        Ok(Some(_)) => ExistsAnswer { exists: true, error: String::new() },
        Ok(None) => ExistsAnswer { exists: false, error: String::new() },
        Err(e) => ExistsAnswer { exists: false, error: e.clone() },
    }
}

/// The answer to a batch of writes: whether all succeeded, how many did before
/// the first failure, and that failure's message.
#[derive(Debug)]
pub struct BatchSetAnswer {
    pub success: bool,
    pub count: u32,
    pub error: String,
}

/// What the outcome of one write of a batch decides.
#[derive(Debug)]
pub enum BatchStep {
    /// Go on with the next pair; this many writes have succeeded.
    Continue(u32),
    /// Stop: the batch is answered.
    Stop(BatchSetAnswer),
}

/// The step after a write of a batch in which `count` writes succeeded before:
/// one more on success, else the batch stops with the failure.
pub fn batch_set_step(count: u32, write: &Result<(), String>) -> (r: BatchStep)
    requires
        count < u32::MAX,
    ensures
        match write {
            Ok(()) => r == BatchStep::Continue((count + 1) as u32),
            Err(e) => r matches BatchStep::Stop(a) && !a.success && a.count == count && a.error@ == e@,
        },
{
    match write {
        Ok(()) => BatchStep::Continue(count + 1),
        Err(e) => BatchStep::Stop(BatchSetAnswer { success: false, count, error: e.clone() }),
    }
}

/// The answer to a batch whose writes all succeeded.
pub fn batch_set_done(count: u32) -> (r: BatchSetAnswer)
    ensures
        r.success,
        r.count == count,
        r.error@.len() == 0,
{
    BatchSetAnswer { success: true, count, error: String::new() }
}

/// The answer to a question for the leader.
#[derive(Debug)]
pub struct LeaderAnswer {
    pub leader_id: Option<NodeId>,
    pub leader_info: Option<Node>,
    pub error: String,
}

/// Whether `i` is the first position of the node `id` in a membership's nodes.
pub open spec fn first_position(nodes: Seq<(NodeId, Node)>, id: NodeId, i: int) -> bool {
    &&& 0 <= i < nodes.len()
    &&& nodes[i].0 == id
    &&& forall|j: int| 0 <= j < i ==> #[trigger] nodes[j].0 != id
}

/// The answer to a question for the leader: none without a leader; with one,
/// the node that the membership holds for it, or an error when it holds none.
pub open spec fn answers_leader(current_leader: Option<NodeId>, nodes: Seq<(NodeId, Node)>, r: LeaderAnswer) -> bool {
    &&& r.leader_id == current_leader
    &&& match current_leader {
        None => r.leader_info is None && r.error@.len() == 0,
        Some(id) => match r.leader_info {
            Some(n) => r.error@.len() == 0 && exists|i: int| #[trigger] first_position(nodes, id, i) && nodes[i].1 == n,
            None => r.error@ == "Leader node not found in membership"@ && forall|i: int|
                0 <= i < nodes.len() ==> #[trigger] nodes[i].0 != id,
        },
    }
}

/// The node that `nodes` holds for `id`, at its first position.
fn find_node(nodes: &Vec<(NodeId, Node)>, id: NodeId) -> (r: Option<Node>)
    ensures
        match r {
            Some(n) => exists|i: int| #[trigger] first_position(nodes@, id, i) && nodes@[i].1 == n,
            None => forall|i: int| 0 <= i < nodes@.len() ==> #[trigger] nodes@[i].0 != id,
        },
{
    let mut i: usize = 0;
    while i < nodes.len()
        invariant
            i <= nodes@.len(),
            forall|j: int| 0 <= j < i ==> #[trigger] nodes@[j].0 != id,
        decreases nodes@.len() - i,
    {
        if nodes[i].0 == id {
            let node = nodes[i].1.clone();
            proof {
                assert(first_position(nodes@, id, i as int));
            }
            return Some(node);
        }
        i = i + 1;
    }
    None
}

/// The leader and its addresses, looked up in the membership.
pub fn leader_answer(current_leader: Option<NodeId>, membership: &Membership) -> (r: LeaderAnswer)
    ensures
        answers_leader(current_leader, membership.nodes@, r),
{
    match current_leader {
        None => LeaderAnswer { leader_id: None, leader_info: None, error: String::new() },
        Some(id) => match find_node(&membership.nodes, id) {
            Some(node) => LeaderAnswer { leader_id: Some(id), leader_info: Some(node), error: String::new() },
            None => LeaderAnswer {
                leader_id: Some(id),
                leader_info: None,
                error: string_from("Leader node not found in membership"),
            },
        },
    }
}

} // verus!
