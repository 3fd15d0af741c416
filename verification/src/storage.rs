//! The replicated key-value state machine, its snapshots, and the keys and
//! key ranges under which the raft log is stored.
use vstd::prelude::*;
use byteorder::{BigEndian, ReadBytesExt, WriteBytesExt};
use crate::config::{KvRequest, KvResponse, KvResponseView, KvSnapshot, NodeId};
use crate::kv_map::{pairs_map, pairs_view, keys_unique, KvMap};
use crate::raft::{Entry, EntryPayload, LogId, LogState, SnapshotMeta, StoredMembership, StoredMembershipView};
use crate::text::{decimal, push_decimal, push_str};

verus! {

// ---------------------------------------------------------------------------
// Log keys
// ---------------------------------------------------------------------------

/// The eight bytes of `n`, most significant first.
pub open spec fn be_bytes(n: u64) -> Seq<u8> {
    seq![
        (n >> 56u64) as u8,
        (n >> 48u64) as u8,
        (n >> 40u64) as u8,
        (n >> 32u64) as u8,
        (n >> 24u64) as u8,
        (n >> 16u64) as u8,
        (n >> 8u64) as u8,
        n as u8,
    ]
}

/// The number whose eight bytes, most significant first, open `b`.
pub open spec fn be_value(b: Seq<u8>) -> u64 {
    ((b[0] as u64) << 56u64) | ((b[1] as u64) << 48u64) | ((b[2] as u64) << 40u64) | ((
    b[3] as u64) << 32u64) | ((b[4] as u64) << 24u64) | ((b[5] as u64) << 16u64) | ((
    b[6] as u64) << 8u64) | (b[7] as u64)
}

/// Byte strings in lexicographic order, the order in which the log's store
/// keeps its keys.
pub open spec fn bytes_lt(a: Seq<u8>, b: Seq<u8>) -> bool
    decreases a.len(),
{
    if a.len() == 0 {
        b.len() > 0
    } else if b.len() == 0 {
        false
    } else if a[0] < b[0] {
        true
    } else if a[0] > b[0] {
        false
    } else {
        bytes_lt(a.drop_first(), b.drop_first())
    }
}

/// `WriteBytesExt::write_u64::<BigEndian>` into an empty vector, which cannot
/// fail: the vector then holds the eight bytes of `id`, most significant first.
#[verifier::external_body]
fn write_u64_be(id: u64) -> (r: Vec<u8>)
    ensures
        r@ == be_bytes(id),
{
    let mut buf = Vec::with_capacity(8);
    buf.write_u64::<BigEndian>(id).unwrap();
    buf
}

/// `ReadBytesExt::read_u64::<BigEndian>` on a slice of at least eight bytes,
/// which cannot fail: the number that the first eight bytes make, most
/// significant first.
#[verifier::external_body]
fn read_u64_be(buf: &[u8]) -> (r: u64)
    requires
        buf@.len() >= 8,
    ensures
        r == be_value(buf@),
{
    let mut reader = buf;
    reader.read_u64::<BigEndian>().unwrap()
}

/// The key under which the log entry with index `id` is stored.
pub fn id_to_bin(id: u64) -> (r: Vec<u8>)
    ensures
        r@ == be_bytes(id),
        r@.len() == 8,
{
    write_u64_be(id)
}

/// The index that a log key names.
pub fn bin_to_id(buf: &[u8]) -> (r: u64)
    requires
        buf@.len() >= 8,
    ensures
        r == be_value(buf@),
{
    read_u64_be(&buf[0..8])
}

/// Reading back the key of an index gives the index.
pub proof fn law_log_key_roundtrip(id: u64)
    ensures
        be_value(be_bytes(id)) == id,
{
    let b = be_bytes(id);
    let (b0, b1, b2, b3, b4, b5, b6, b7) = (b[0], b[1], b[2], b[3], b[4], b[5], b[6], b[7]);
    assert(((b0 as u64) << 56u64) | ((b1 as u64) << 48u64) | ((b2 as u64) << 40u64) | ((
    b3 as u64) << 32u64) | ((b4 as u64) << 24u64) | ((b5 as u64) << 16u64) | ((b6 as u64)
        << 8u64) | (b7 as u64) == id) by (bit_vector)
        requires
            b0 == (id >> 56u64) as u8,
            b1 == (id >> 48u64) as u8,
            b2 == (id >> 40u64) as u8,
            b3 == (id >> 32u64) as u8,
            b4 == (id >> 24u64) as u8,
            b5 == (id >> 16u64) as u8,
            b6 == (id >> 8u64) as u8,
            b7 == id as u8,
    ;
}

/// The keys of two indexes are in the order of the indexes, so that a forward
/// scan of the store meets the entries by increasing index.
pub proof fn law_log_keys_ordered(a: u64, b: u64)
    ensures
        a < b <==> bytes_lt(be_bytes(a), be_bytes(b)),
{
    let x = be_bytes(a);
    let y = be_bytes(b);
    reveal_with_fuel(bytes_lt, 9);
    assert(x.drop_first().drop_first().drop_first().drop_first().drop_first().drop_first().drop_first().drop_first().len() == 0);
    assert(y.drop_first().drop_first().drop_first().drop_first().drop_first().drop_first().drop_first().drop_first().len() == 0);
    let (x0, x1, x2, x3, x4, x5, x6, x7) = (x[0], x[1], x[2], x[3], x[4], x[5], x[6], x[7]);
    let (y0, y1, y2, y3, y4, y5, y6, y7) = (y[0], y[1], y[2], y[3], y[4], y[5], y[6], y[7]);
    assert(a < b <==> (x0 < y0 || (x0 == y0 && (x1 < y1 || (x1 == y1 && (x2 < y2 || (x2 == y2 && (
    x3 < y3 || (x3 == y3 && (x4 < y4 || (x4 == y4 && (x5 < y5 || (x5 == y5 && (x6 < y6 || (x6
        == y6 && x7 < y7))))))))))))))) by (bit_vector)
        requires
            x0 == (a >> 56u64) as u8,
            x1 == (a >> 48u64) as u8,
            x2 == (a >> 40u64) as u8,
            x3 == (a >> 32u64) as u8,
            x4 == (a >> 24u64) as u8,
            x5 == (a >> 16u64) as u8,
            x6 == (a >> 8u64) as u8,
            x7 == a as u8,
            y0 == (b >> 56u64) as u8,
            y1 == (b >> 48u64) as u8,
            y2 == (b >> 40u64) as u8,
            y3 == (b >> 32u64) as u8,
            y4 == (b >> 24u64) as u8,
            y5 == (b >> 16u64) as u8,
            y6 == (b >> 8u64) as u8,
            y7 == b as u8,
    ;
}

/// One end of a range of log indexes.
#[derive(Debug)]
pub enum IndexBound {
    Included(u64),
    Excluded(u64),
    Unbounded,
}

/// A range of log indexes, as `RangeBounds<u64>` gives it.
#[derive(Debug)]
pub struct LogRange {
    pub start: IndexBound,
    pub end: IndexBound,
}

impl LogRange {
    /// Whether the range holds `id`.
    pub open spec fn admits(&self, id: u64) -> bool {
        &&& match self.start {
            IndexBound::Included(s) => s <= id,
            IndexBound::Excluded(s) => s < id,
            IndexBound::Unbounded => true,
        }
        &&& match self.end {
            IndexBound::Included(e) => id <= e,
            IndexBound::Excluded(e) => id < e,
            IndexBound::Unbounded => true,
        }
    }

    /// The index at which a scan of the range starts.
    pub open spec fn first_index(&self) -> int {
        match self.start {
            IndexBound::Included(s) => s as int,
            IndexBound::Excluded(s) => s + 1,
            IndexBound::Unbounded => 0,
        }
    }

    /// Whether the range holds `id` (`RangeBounds::contains`).
    pub fn contains(&self, id: u64) -> (r: bool)
        ensures
            r == self.admits(id),
    {
        let after_start = match self.start {
            IndexBound::Included(s) => s <= id,
            IndexBound::Excluded(s) => s < id,
            IndexBound::Unbounded => true,
        };
        let before_end = match self.end {
            IndexBound::Included(e) => id <= e,
            IndexBound::Excluded(e) => id < e,
            IndexBound::Unbounded => true,
        };
        after_start && before_end
    }

    /// The key at which a forward scan of the log for this range starts.
    pub fn start_key(&self) -> (r: Vec<u8>)
        requires
            self.first_index() <= u64::MAX,
        ensures
            r@ == be_bytes(self.first_index() as u64),
    {
        match self.start {
            IndexBound::Included(x) => id_to_bin(x),
            IndexBound::Excluded(x) => id_to_bin(x + 1),
            IndexBound::Unbounded => id_to_bin(0),
        }
    }
}

/// The log state from the id of the last stored entry and the id of the last
/// purged entry: with no entry left, the last log id is the last purged one.
pub fn log_state(last_entry: Option<LogId>, last_purged: Option<LogId>) -> (r: LogState)
    ensures
        r.last_purged_log_id == last_purged,
        r.last_log_id == match last_entry {
            Some(x) => Some(x),
            None => last_purged,
        },
{
    let last_log_id = match last_entry {
        None => last_purged,
        Some(x) => Some(x),
    };
    LogState { last_purged_log_id: last_purged, last_log_id }
}

/// The key range `[from, to)` that removing the entries in conflict from
/// `log_id` on deletes.
pub fn conflict_key_range(log_id: LogId) -> (r: (Vec<u8>, Vec<u8>))
    ensures
        r.0@ == be_bytes(log_id.index),
        r.1@ == be_bytes(u64::MAX),
{
    (id_to_bin(log_id.index), id_to_bin(0xffff_ffff_ffff_ffffu64))
}

/// The key range `[from, to)` that purging the log up to `log_id` deletes.
pub fn purge_key_range(log_id: LogId) -> (r: (Vec<u8>, Vec<u8>))
    requires
        log_id.index < u64::MAX,
    ensures
        r.0@ == be_bytes(0),
        r.1@ == be_bytes((log_id.index + 1) as u64),
{
    (id_to_bin(0), id_to_bin(log_id.index + 1))
}

/// Whether a store key lies in the key range `[from, to)`.
pub open spec fn key_in_range(key: Seq<u8>, from: Seq<u8>, to: Seq<u8>) -> bool {
    !bytes_lt(key, from) && bytes_lt(key, to)
}

/// Deleting the conflict range removes exactly the entries from the conflicting
/// index on, save one stored at the largest index.
pub proof fn law_conflict_range_removes_suffix(log_id: LogId, id: u64)
    ensures
        key_in_range(be_bytes(id), be_bytes(log_id.index), be_bytes(u64::MAX)) <==> (log_id.index
            <= id && id < u64::MAX),
{
    law_log_keys_ordered(id, log_id.index);
    law_log_keys_ordered(id, u64::MAX);
}

/// Deleting the purge range removes exactly the entries up to the purged index.
pub proof fn law_purge_range_removes_prefix(log_id: LogId, id: u64)
    requires
        log_id.index < u64::MAX,
    ensures
        key_in_range(be_bytes(id), be_bytes(0), be_bytes((log_id.index + 1) as u64)) <==> id
            <= log_id.index,
{
    law_log_keys_ordered(id, 0);
    law_log_keys_ordered(id, (log_id.index + 1) as u64);
}

// ---------------------------------------------------------------------------
// Snapshot ids
// ---------------------------------------------------------------------------

/// The id of a snapshot taken up to `last`: the leader id as `T<term>-N<node>`,
/// a dash and the index; `empty` for a state machine that applied nothing.
pub open spec fn snapshot_id_view(last: Option<LogId>) -> Seq<char> {
    match last {
        Some(l) => "T"@ + decimal(l.leader_id.term as nat) + "-N"@ + decimal(
            l.leader_id.node_id as nat,
        ) + "-"@ + decimal(l.index as nat),
        None => "empty"@,
    }
}

/// The id of a snapshot taken up to `last`.
pub fn snapshot_id(last: Option<LogId>) -> (r: String)
    ensures
        r@ == snapshot_id_view(last),
{
    let mut s = String::new();
    match last {
        Some(l) => {
            push_str(&mut s, "T");
            push_decimal(&mut s, l.leader_id.term);
            push_str(&mut s, "-N");
            push_decimal(&mut s, l.leader_id.node_id);
            push_str(&mut s, "-");
            push_decimal(&mut s, l.index);
        },
        None => {
            push_str(&mut s, "empty");
        },
    }
    s
}

// ---------------------------------------------------------------------------
// The state machine
// ---------------------------------------------------------------------------

/// The state machine taken by its contents.
pub struct StateMachineView {
    pub data: Map<Seq<char>, Seq<char>>,
    pub last_applied: Option<LogId>,
    pub membership: StoredMembershipView,
}

/// The data after applying one payload.
pub open spec fn data_after(data: Map<Seq<char>, Seq<char>>, p: EntryPayload) -> Map<
    Seq<char>,
    Seq<char>,
> {
    match p {
        EntryPayload::Normal(KvRequest::Put { key, value }) => data.insert(key@, value@),
        EntryPayload::Normal(KvRequest::Delete { key }) => data.remove(key@),
        _ => data,
    }
}

/// The response to one payload, applied to `data`.
pub open spec fn response_for(data: Map<Seq<char>, Seq<char>>, p: EntryPayload) -> KvResponseView {
    match p {
        EntryPayload::Normal(KvRequest::Get { key }) => KvResponseView::Get(
            if data.contains_key(key@) {
                Some(data[key@])
            } else {
                None
            },
        ),
        EntryPayload::Normal(KvRequest::Delete { .. }) => KvResponseView::Delete,
        _ => KvResponseView::Put,
    }
}

/// The state after applying one entry.
pub open spec fn state_after(s: StateMachineView, e: Entry) -> StateMachineView {
    StateMachineView {
        data: data_after(s.data, e.payload),
        last_applied: Some(e.log_id),
        membership: match e.payload {
            EntryPayload::Membership(m) => (Some(e.log_id), m.view()),
            _ => s.membership,
        },
    }
}

/// The state after applying the entries, in order.
pub open spec fn state_after_all(s: StateMachineView, es: Seq<Entry>) -> StateMachineView
    decreases es.len(),
{
    if es.len() == 0 {
        s
    } else {
        state_after(state_after_all(s, es.drop_last()), es.last())
    }
}

/// What a snapshot taken of the state `s` holds: the id of the last applied
/// entry, the last applied membership and the data.
pub open spec fn snapshot_taken(s: StateMachineView, meta: SnapshotMeta, snap: KvSnapshot) -> bool {
    &&& meta.last_log_id == s.last_applied
    &&& meta.last_membership.view() == s.membership
    &&& snap.view() == s.data
}

/// The state after installing a snapshot: all of it comes from the snapshot.
pub open spec fn installed_state(meta: SnapshotMeta, snap: KvSnapshot) -> StateMachineView {
    StateMachineView {
        data: snap.view(),
        last_applied: meta.last_log_id,
        membership: meta.last_membership.view(),
    }
}

/// The key-value state machine: the data, the id of the last applied entry
/// and the last membership applied.
#[derive(Debug)]
pub struct KvStateMachine {
    pub data: KvMap,
    pub last_applied_log_id: Option<LogId>,
    pub last_membership: StoredMembership,
}

impl KvStateMachine {
    pub open spec fn view(&self) -> StateMachineView {
        StateMachineView {
            data: self.data@,
            last_applied: self.last_applied_log_id,
            membership: self.last_membership.view(),
        }
    }

    /// A state machine that has applied nothing.
    pub fn new() -> (r: KvStateMachine)
        ensures
            r.data@ == Map::<Seq<char>, Seq<char>>::empty(),
            r.last_applied_log_id is None,
            r.last_membership.log_id is None,
            r.last_membership.view().1.0.len() == 0,
            r.last_membership.view().1.1.len() == 0,
    {
        KvStateMachine {
            data: KvMap::new(),
            last_applied_log_id: None,
            last_membership: StoredMembership::empty(),
        }
    }

    /// A copy with the same contents.
    pub fn copy(&self) -> (r: KvStateMachine)
        ensures
            r.view() == self.view(),
    {
        KvStateMachine {
            data: self.data.copy(),
            last_applied_log_id: self.last_applied_log_id,
            last_membership: self.last_membership.copy(),
        }
    }

    /// Applies one entry and gives its response.
    fn apply_one(&mut self, e: &Entry) -> (r: KvResponse)
        ensures
            final(self).view() == state_after(old(self).view(), *e),
            r.view() == response_for(old(self).data@, e.payload),
    {
        self.last_applied_log_id = Some(e.log_id);
        match &e.payload {
            EntryPayload::Blank => KvResponse::Put,
            EntryPayload::Normal(req) => match req {
                KvRequest::Put { key, value } => {
                    self.data.insert(key.clone(), value.clone());
                    KvResponse::Put
                },
                KvRequest::Get { key } => {
                    let value = self.data.get(key.as_str());
                    KvResponse::Get { value }
                },
                KvRequest::Delete { key } => {
                    self.data.remove(key.as_str());
                    KvResponse::Delete
                },
            },
            EntryPayload::Membership(m) => {
                self.last_membership = StoredMembership { log_id: Some(e.log_id), membership: m.copy() };
                KvResponse::Put
            },
        }
    }

    /// Applies the entries in order and gives one response for each: `Put`
    /// for a write, a blank entry or a membership change, the value held for a
    /// read, `Delete` for a removal.
    pub fn apply(&mut self, entries: &[Entry]) -> (r: Vec<KvResponse>)
        ensures
            final(self).view() == state_after_all(old(self).view(), entries@),
            r@.len() == entries@.len(),
            forall|i: int|
                0 <= i < entries@.len() ==> (#[trigger] r@[i]).view() == response_for(
                    state_after_all(old(self).view(), entries@.take(i)).data,
                    entries@[i].payload,
                ),
    {
        let ghost start = self.view();
        let mut responses: Vec<KvResponse> = Vec::new();
        let mut i: usize = 0;
        while i < entries.len()
            invariant
                i <= entries@.len(),
                self.view() == state_after_all(start, entries@.take(i as int)),
                responses@.len() == i,
                forall|j: int|
                    0 <= j < i ==> (#[trigger] responses@[j]).view() == response_for(
                        state_after_all(start, entries@.take(j)).data,
                        entries@[j].payload,
                    ),
            decreases entries@.len() - i,
        {
            let ghost before = self.view();
            let resp = self.apply_one(&entries[i]);
            proof {
                let next = entries@.take(i + 1);
                assert(next.drop_last() == entries@.take(i as int));
                assert(next.last() == entries@[i as int]);
            }
            responses.push(resp);
            i = i + 1;
        }
        proof {
            assert(entries@.take(i as int) == entries@);
        }
        responses
    }

    /// The id of the last applied entry and the last applied membership.
    pub fn last_applied_state(&self) -> (r: (Option<LogId>, StoredMembership))
        ensures
            r.0 == self.last_applied_log_id,
            r.1.view() == self.last_membership.view(),
    {
        (self.last_applied_log_id, self.last_membership.copy())
    }

    /// A snapshot of the state machine: metadata naming the last applied entry
    /// and membership, and the data.
    pub fn build_snapshot(&self) -> (r: (SnapshotMeta, KvSnapshot))
        ensures
            snapshot_taken(self.view(), r.0, r.1),
            r.0.last_log_id == self.last_applied_log_id,
            r.0.last_membership.view() == self.last_membership.view(),
            r.0.snapshot_id@ == snapshot_id_view(self.last_applied_log_id),
            r.1.view() == self.data@,
            keys_unique(pairs_view(r.1.data@)),
    {
        let data = self.data.to_pairs();
        let meta = SnapshotMeta {
            last_log_id: self.last_applied_log_id,
            last_membership: self.last_membership.copy(),
            snapshot_id: snapshot_id(self.last_applied_log_id),
        };
        (meta, KvSnapshot { data })
    }

    /// Replaces the whole state with an installed snapshot.
    pub fn install_snapshot(&mut self, meta: &SnapshotMeta, snapshot: &KvSnapshot)
        ensures
            final(self).view() == installed_state(*meta, *snapshot),
    {
        self.data = KvMap::from_pairs(&snapshot.data);
        self.last_applied_log_id = meta.last_log_id;
        self.last_membership = meta.last_membership.copy();
    }

    /// Replaces the data with that of a stored snapshot, as when a node starts
    /// again; the rest of the state is kept.
    pub fn load_snapshot_data(&mut self, snapshot: &KvSnapshot)
        ensures
            final(self).data@ == snapshot.view(),
            final(self).last_applied_log_id == old(self).last_applied_log_id,
            final(self).last_membership.view() == old(self).last_membership.view(),
    {
        self.data = KvMap::from_pairs(&snapshot.data);
    }
}

/// A read that follows a write of the same key answers the written value.
pub proof fn law_get_after_put(data: Map<Seq<char>, Seq<char>>, key: String, value: String, read_key: String)
    requires
        read_key@ == key@,
    ensures
        response_for(
            data_after(data, EntryPayload::Normal(KvRequest::Put { key, value })),
            EntryPayload::Normal(KvRequest::Get { key: read_key }),
        ) == KvResponseView::Get(Some(value@)),
{
}

/// A read that follows a removal of the same key finds nothing.
pub proof fn law_get_after_delete(data: Map<Seq<char>, Seq<char>>, key: String, read_key: String)
    requires
        read_key@ == key@,
    ensures
        response_for(
            data_after(data, EntryPayload::Normal(KvRequest::Delete { key })),
            EntryPayload::Normal(KvRequest::Get { key: read_key }),
        ) == KvResponseView::Get(None),
{
}

/// A write or a removal leaves every other key as it was.
pub proof fn law_other_keys_unchanged(data: Map<Seq<char>, Seq<char>>, p: EntryPayload, other: Seq<char>)
    requires
        match p {
            EntryPayload::Normal(KvRequest::Put { key, .. }) => key@ != other,
            EntryPayload::Normal(KvRequest::Delete { key }) => key@ != other,
            _ => true,
        },
    ensures
        data_after(data, p).contains_key(other) == data.contains_key(other),
        data.contains_key(other) ==> data_after(data, p)[other] == data[other],
{
}

/// Applying a log in two batches gives the state that applying it at once
/// gives: the state does not depend on how the entries were batched.
pub proof fn law_apply_batches(s: StateMachineView, a: Seq<Entry>, b: Seq<Entry>)
    ensures
        state_after_all(state_after_all(s, a), b) == state_after_all(s, a + b),
    decreases b.len(),
{
    if b.len() == 0 {
        assert(a + b == a);
    } else {
        law_apply_batches(s, a, b.drop_last());
        assert((a + b).drop_last() == a + b.drop_last());
        assert((a + b).last() == b.last());
    }
}

/// Installing the snapshot of a state machine restores that state machine.
pub proof fn law_snapshot_restores(s: StateMachineView, meta: SnapshotMeta, snap: KvSnapshot)
    requires
        snapshot_taken(s, meta, snap),
    ensures
        installed_state(meta, snap) == s,
{
}

/// Applying an entry records its log id as the last applied one. An entry
/// that carries a membership makes it the stored membership, at its log id;
/// a blank entry, a read, a write or a removal leaves the stored membership as
/// it was; a blank entry and a read leave the data as they were.
pub proof fn law_membership_changes_only_by_membership_entries(s: StateMachineView, e: Entry)
    ensures
        state_after(s, e).last_applied == Some(e.log_id),
        !(e.payload is Membership) ==> state_after(s, e).membership == s.membership,
        e.payload matches EntryPayload::Membership(m) ==> state_after(s, e).membership == (
            Some(e.log_id),
            m.view(),
        ),
        (e.payload is Blank || e.payload matches EntryPayload::Normal(KvRequest::Get { .. }))
            ==> state_after(s, e).data == s.data,
{
}

/// A run of entries none of which carries a membership leaves the stored
/// membership as it was.
pub proof fn law_membership_kept_without_membership_entries(s: StateMachineView, es: Seq<Entry>)
    requires
        forall|i: int| 0 <= i < es.len() ==> !(#[trigger] es[i].payload is Membership),
    ensures
        state_after_all(s, es).membership == s.membership,
    decreases es.len(),
{
    if es.len() > 0 {
        assert forall|i: int| 0 <= i < es.drop_last().len() implies !(#[trigger] es.drop_last()[i].payload is Membership) by {
            assert(es.drop_last()[i] == es[i]);
        }
        law_membership_kept_without_membership_entries(s, es.drop_last());
        assert(!(es[es.len() - 1].payload is Membership));
    }
}

/// A range holds an index exactly when each of its bounds does, each bound on
/// its own: an included start at most the index, an excluded start below it,
/// an included end at least the index, an excluded end above it, an unbounded
/// side always.
pub proof fn law_range_holds_what_its_bounds_hold(r: LogRange, id: u64)
    ensures
        r.admits(id) <==> (
            (r.start matches IndexBound::Included(a) ==> a <= id)
            && (r.start matches IndexBound::Excluded(a) ==> a < id)
            && (r.end matches IndexBound::Included(b) ==> id <= b)
            && (r.end matches IndexBound::Excluded(b) ==> id < b)
        ),
{
}

/// A scan of the log for a range starts at or below every index the range
/// holds, and its start bound holds the index it starts at.
pub proof fn law_scan_starts_at_first_index(r: LogRange, id: u64)
    ensures
        r.admits(id) ==> r.first_index() <= id,
        (r.start matches IndexBound::Included(a) ==> a <= r.first_index()),
        (r.start matches IndexBound::Excluded(a) ==> a < r.first_index()),
        r.first_index() >= 0,
{
}

} // verus!
