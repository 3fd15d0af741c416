//! Raft log identities, log entries, memberships and snapshot metadata, as
//! plain values.
use vstd::prelude::*;
use crate::config::{KvRequest, Node, NodeId};

verus! {

/// The leader that proposed a log entry: its term and its node.
#[derive(PartialEq, Eq, Structural, Clone, Copy, Debug)]
pub struct LeaderId {
    pub term: u64,
    pub node_id: NodeId,
}

/// The identity of a raft log entry.
#[derive(PartialEq, Eq, Structural, Clone, Copy, Debug)]
pub struct LogId {
    pub leader_id: LeaderId,
    pub index: u64,
}

impl LogId {
    pub fn new(term: u64, node_id: NodeId, index: u64) -> (r: LogId)
        ensures
            r.leader_id.term == term,
            r.leader_id.node_id == node_id,
            r.index == index,
    {
        LogId { leader_id: LeaderId { term, node_id }, index }
    }
}

/// A cluster membership: the voter configurations (more than one during a
/// joint change) and the nodes with their addresses.
#[derive(Debug)]
pub struct Membership {
    pub configs: Vec<Vec<NodeId>>,
    pub nodes: Vec<(NodeId, Node)>,
}

/// A membership taken by its contents.
pub type MembershipView = (Seq<Seq<NodeId>>, Seq<(NodeId, Node)>);

impl Membership {
    pub open spec fn view(&self) -> MembershipView {
        (self.configs@.map_values(|c: Vec<NodeId>| c@), self.nodes@)
    }

    /// The empty membership.
    pub fn empty() -> (r: Membership)
        ensures
            r.view().0.len() == 0,
            r.view().1.len() == 0,
    {
        Membership { configs: Vec::new(), nodes: Vec::new() }
    }

    /// A copy with the same contents.
    pub fn copy(&self) -> (r: Membership)
        ensures
            r.view() == self.view(),
    {
        let mut configs: Vec<Vec<NodeId>> = Vec::new();
        let mut i: usize = 0;
        while i < self.configs.len()
            invariant
                i <= self.configs@.len(),
                configs@.len() == i,
                forall|j: int| 0 <= j < i ==> #[trigger] configs@[j]@ == self.configs@[j]@,
            decreases self.configs@.len() - i,
        {
            let c = copy_ids(&self.configs[i]);
            configs.push(c);
            i = i + 1;
        }
        proof {
            assert(configs@.map_values(|c: Vec<NodeId>| c@) =~= self.configs@.map_values(
                |c: Vec<NodeId>| c@,
            ));
        }
        let mut nodes: Vec<(NodeId, Node)> = Vec::new();
        let mut j: usize = 0;
        while j < self.nodes.len()
            invariant
                j <= self.nodes@.len(),
                nodes@ == self.nodes@.take(j as int),
            decreases self.nodes@.len() - j,
        {
            let id = self.nodes[j].0;
            let node = self.nodes[j].1.clone();
            proof {
                assert(self.nodes@.take(j + 1) == self.nodes@.take(j as int).push(self.nodes@[j as int]));
            }
            nodes.push((id, node));
            j = j + 1;
        }
        proof {
            assert(self.nodes@.take(j as int) == self.nodes@);
        }
        Membership { configs, nodes }
    }
}

fn copy_ids(v: &Vec<NodeId>) -> (r: Vec<NodeId>)
    ensures
        r@ == v@,
{
    let mut r: Vec<NodeId> = Vec::new();
    let mut i: usize = 0;
    while i < v.len()
        invariant
            i <= v@.len(),
            r@ == v@.take(i as int),
        decreases v@.len() - i,
    {
        proof {
            assert(v@.take(i + 1) == v@.take(i as int).push(v@[i as int]));
        }
        r.push(v[i]);
        i = i + 1;
    }
    proof {
        assert(v@.take(i as int) == v@);
    }
    r
}

/// A membership together with the log entry that carried it.
#[derive(Debug)]
pub struct StoredMembership {
    pub log_id: Option<LogId>,
    pub membership: Membership,
}

/// A stored membership taken by its contents.
pub type StoredMembershipView = (Option<LogId>, MembershipView);

impl StoredMembership {
    pub open spec fn view(&self) -> StoredMembershipView {
        (self.log_id, self.membership.view())
    }

    /// No membership yet: no log id and an empty membership.
    pub fn empty() -> (r: StoredMembership)
        ensures
            r.log_id is None,
            r.view().1.0.len() == 0,
            r.view().1.1.len() == 0,
    {
        StoredMembership { log_id: None, membership: Membership::empty() }
    }

    /// A copy with the same contents.
    pub fn copy(&self) -> (r: StoredMembership)
        ensures
            r.view() == self.view(),
    {
        StoredMembership { log_id: self.log_id, membership: self.membership.copy() }
    }
}

/// What a log entry carries.
#[derive(Debug)]
pub enum EntryPayload {
    /// An empty entry, such as the one a new leader appends.
    Blank,
    /// A client request.
    Normal(KvRequest),
    /// A membership change.
    Membership(Membership),
}

/// A raft log entry.
#[derive(Debug)]
pub struct Entry {
    pub log_id: LogId,
    pub payload: EntryPayload,
}

/// The log id of the last purged entry and of the last entry of a log.
#[derive(PartialEq, Eq, Structural, Clone, Copy, Debug)]
pub struct LogState {
    pub last_purged_log_id: Option<LogId>,
    pub last_log_id: Option<LogId>,
}

/// The metadata of a snapshot of the state machine.
#[derive(Debug)]
pub struct SnapshotMeta {
    pub last_log_id: Option<LogId>,
    pub last_membership: StoredMembership,
    pub snapshot_id: String,
}

} // verus!
