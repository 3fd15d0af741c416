//! The decisions of the Raft network and of cluster management: RPC URLs, the
//! node a cluster is initialized with, which learners are accepted, and how
//! leader discovery and auto-join proceed.
use vstd::prelude::*;
use std::collections::HashMap;
use crate::config::{FerriteConfig, KvResponse, Node, NodeId, PeerConfig, peers_with_list};
use crate::text::{has_prefix, push_str, starts_with, string_from};
use crate::tls::ClientTlsConfig;

verus! {

/// Network configuration for nodes
#[derive(Debug)]
pub struct NetworkConfig {
    pub node_id: NodeId,
    pub http_addr: String,
    pub raft_addr: String,
}

/// The URL scheme: `https` with TLS, else `http`.
pub open spec fn scheme(use_tls: bool) -> Seq<char> {
    if use_tls {
        "https"@
    } else {
        "http"@
    }
}

/// `<scheme>://<addr>`.
pub open spec fn url_of(use_tls: bool, addr: Seq<char>) -> Seq<char> {
    scheme(use_tls) + "://"@ + addr
}

/// `<scheme>://<addr>`.
pub fn url_for(use_tls: bool, addr: &str) -> (r: String)
    ensures
        r@ == url_of(use_tls, addr@),
{
    let mut s = if use_tls {
        string_from("https")
    } else {
        string_from("http")
    };
    push_str(&mut s, "://");
    push_str(&mut s, addr);
    s
}

/// The URL of a Raft RPC: a target address that already names its scheme is
/// kept, any other gets `http://` in front; then a slash and the RPC path.
pub open spec fn rpc_url_view(target: Seq<char>, uri: Seq<char>) -> Seq<char> {
    if has_prefix(target, "http://"@) || has_prefix(target, "https://"@) {
        target + "/"@ + uri
    } else {
        "http://"@ + target + "/"@ + uri
    }
}

/// The URL of a Raft RPC to `target`.
pub fn rpc_url(target: &str, uri: &str) -> (r: String)
    ensures
        r@ == rpc_url_view(target@, uri@),
{
    let mut s = if starts_with(target, "http://") || starts_with(target, "https://") {
        string_from(target)
    } else {
        let mut s = string_from("http://");
        push_str(&mut s, target);
        s
    };
    push_str(&mut s, "/");
    push_str(&mut s, uri);
    s
}

/// The node that a cluster is initialized with: this node, reached at its HTTP
/// address for both Raft RPCs and the API, with `https` under TLS.
pub fn init_node(config: &FerriteConfig) -> (r: (NodeId, Node))
    ensures
        r.0 == config.node.id,
        r.1.rpc_addr@ == url_of(config.security.enable_tls, config.node.http_addr@),
        r.1.api_addr@ == url_of(config.security.enable_tls, config.node.http_addr@),
{
    let rpc_addr = url_for(config.security.enable_tls, config.node.http_addr.as_str());
    let api_addr = url_for(config.security.enable_tls, config.node.http_addr.as_str());
    (config.node.id, Node { rpc_addr, api_addr })
}

/// Whether this node is the leader that the Raft state names.
pub fn is_leader(current_leader: Option<NodeId>, node_id: NodeId) -> (r: bool)
    ensures
        r == (current_leader == Some(node_id)),
{
    match current_leader {
        Some(leader_id) => leader_id == node_id,
        None => false,
    }
}

/// The value that the answer to a read carries: the value of a `Get` answer,
/// none for any other answer.
pub fn read_value(response: KvResponse) -> (r: Option<String>)
    ensures
        match response {
            KvResponse::Get { value } => r == value,
            _ => r is None,
        },
{
    match response {
        KvResponse::Get { value } => value,
        _ => None,
    }
}

/// Whether a learner's join request is accepted automatically: auto-accept is
/// on and the node is a known peer.
pub fn should_auto_accept_learner(node_id: NodeId, config: &FerriteConfig) -> (r: bool)
    ensures
        r == (config.cluster.auto_accept_learners && peers_with_list(
            config.cluster.peers@,
            config.cluster.peer_list@,
        ).contains_key(node_id)),
{
    broadcast use vstd::std_specs::hash::group_hash_axioms;

    let all_peers = config.cluster.get_all_peers();
    config.cluster.auto_accept_learners && all_peers.contains_key(&node_id)
}

// ---------------------------------------------------------------------------
// Leader discovery and auto-join
// ---------------------------------------------------------------------------

/// The peers that leader discovery asks: every peer but this node, with the URL
/// of its `/leader` endpoint.
pub open spec fn discovery_target_ok(peers: Map<NodeId, PeerConfig>, self_id: NodeId, use_tls: bool, t: (NodeId, String)) -> bool {
    &&& peers.contains_key(t.0)
    &&& t.0 != self_id
    &&& t.1@ == url_of(use_tls, peers[t.0].http_addr@) + "/leader"@
}

/// The peers to ask for the leader, each once, in no particular order.
pub fn discovery_targets(peers: &HashMap<NodeId, PeerConfig>, self_id: NodeId, use_tls: bool) -> (r: Vec<(NodeId, String)>)
    ensures
        forall|i: int| 0 <= i < r@.len() ==> discovery_target_ok(peers@, self_id, use_tls, #[trigger] r@[i]),
        forall|id: NodeId| #[trigger] peers@.contains_key(id) && id != self_id ==> exists|i: int| 0 <= i < r@.len() && r@[i].0 == id,
        forall|i: int, j: int| 0 <= i < j < r@.len() ==> #[trigger] r@[i].0 != #[trigger] r@[j].0,
{
    broadcast use vstd::std_specs::hash::group_hash_axioms;

    let mut r: Vec<(NodeId, String)> = Vec::new();
    let ghost all = peers@;
    let ghost mut seen: Set<NodeId> = Set::empty();
    for entry in it: peers.iter()
        invariant
            all == peers@,
            it.seq().len() == all.dom().len(),
            it.seq().no_duplicates(),
            forall|k: int| #![trigger it.seq()[k]] 0 <= k < it.seq().len() ==> all.contains_key(*it.seq()[k].0) && all[*it.seq()[k].0] == *it.seq()[k].1,
            seen.finite(),
            seen.len() == it.index(),
            seen.subset_of(all.dom()),
            forall|id: NodeId| #[trigger] seen.contains(id) <==> exists|k: int| 0 <= k < it.index() && *it.seq()[k].0 == id,
            forall|i: int| 0 <= i < r@.len() ==> discovery_target_ok(all, self_id, use_tls, #[trigger] r@[i]),
            forall|i: int| 0 <= i < r@.len() ==> seen.contains(#[trigger] r@[i].0),
            forall|id: NodeId| #[trigger] seen.contains(id) && id != self_id ==> exists|i: int| 0 <= i < r@.len() && r@[i].0 == id,
            forall|i: int, j: int| 0 <= i < j < r@.len() ==> #[trigger] r@[i].0 != #[trigger] r@[j].0,
    {
        let (id, peer) = entry;
        let ghost k0 = it.index() as int;
        let ghost old_r = r@;
        let ghost old_seen = seen;
        proof {
            assert(it.seq()[k0] == entry);
            assert(!seen.contains(*id)) by {
                if seen.contains(*id) {
                    let k = choose|k: int| 0 <= k < it.index() && *it.seq()[k].0 == *id;
                    assert(it.seq()[k] == it.seq()[k0]);
                }
            }
        }
        if *id != self_id {
            let mut url = url_for(use_tls, peer.http_addr.as_str());
            push_str(&mut url, "/leader");
            r.push((*id, url));
        }
        proof {
            seen = seen.insert(*id);
            assert forall|x: NodeId| #[trigger] seen.contains(x) && x != self_id implies exists|i: int| 0 <= i < r@.len() && r@[i].0 == x by {
                if x == *id {
                    assert(r@[r@.len() - 1].0 == x);
                } else {
                    assert(old_seen.contains(x));
                    let i = choose|i: int| 0 <= i < old_r.len() && old_r[i].0 == x;
                    assert(r@[i] == old_r[i]);
                }
            }
            assert forall|x: NodeId| #[trigger] seen.contains(x) <==> exists|k: int| 0 <= k < it.index() + 1 && *it.seq()[k].0 == x by {
                if x == *id {
                    assert(*it.seq()[k0].0 == x);
                }
            }
        }
    }
    proof {
        vstd::set_lib::lemma_subset_equality(seen, all.dom());
    }
    r
}

/// What one peer's answer about the leader decides.
#[derive(Debug)]
pub enum DiscoveryStep {
    /// The leader is a known peer, reachable at this URL.
    Found(NodeId, String),
    /// This node is the leader.
    SelfIsLeader,
    /// Ask on.
    KeepLooking,
}

/// What a peer naming `leader_id` as leader decides: a known peer is the found
/// leader, at its HTTP address; this node being named means it leads; any other
/// id leaves the search going.
pub fn on_leader_report(peers: &HashMap<NodeId, PeerConfig>, self_id: NodeId, leader_id: NodeId, use_tls: bool) -> (r: DiscoveryStep)
    ensures
        peers@.contains_key(leader_id) ==> (r matches DiscoveryStep::Found(id, url) && id == leader_id
            && url@ == url_of(use_tls, peers@[leader_id].http_addr@)),
        !peers@.contains_key(leader_id) && leader_id == self_id ==> r is SelfIsLeader,
        !peers@.contains_key(leader_id) && leader_id != self_id ==> r is KeepLooking,
{
    broadcast use vstd::std_specs::hash::group_hash_axioms;

    match peers.get(&leader_id) {
        Some(leader) => DiscoveryStep::Found(leader_id, url_for(use_tls, leader.http_addr.as_str())),
        None => {
            if leader_id == self_id {
                DiscoveryStep::SelfIsLeader
            } else {
                DiscoveryStep::KeepLooking
            }
        },
    }
}

/// Whether auto-join starts: it must be enabled and some peer configured.
pub fn auto_join_should_start(config: &FerriteConfig) -> (r: bool)
    ensures
        r == (config.cluster.enable_auto_join && peers_with_list(
            config.cluster.peers@,
            config.cluster.peer_list@,
        ).len() > 0),
{
    broadcast use vstd::std_specs::hash::group_hash_axioms;

    if !config.cluster.enable_auto_join {
        return false;
    }
    let all_peers = config.cluster.get_all_peers();
    !all_peers.is_empty()
}

/// The body of a request to join the cluster as a learner: this node's id, and
/// its HTTP address as its RPC and API address.
#[derive(Debug)]
pub struct JoinRequest {
    pub node_id: NodeId,
    pub rpc_addr: String,
    pub api_addr: String,
}

/// The join request of this node, with `https` when TLS is used.
pub fn join_request(config: &FerriteConfig, node_id: NodeId, use_tls: bool) -> (r: JoinRequest)
    ensures
        r.node_id == node_id,
        r.rpc_addr@ == url_of(use_tls, config.node.http_addr@),
        r.api_addr@ == url_of(use_tls, config.node.http_addr@),
{
    JoinRequest {
        node_id,
        rpc_addr: url_for(use_tls, config.node.http_addr.as_str()),
        api_addr: url_for(use_tls, config.node.http_addr.as_str()),
    }
}

/// Where a join request goes: the leader's `/add-learner` endpoint.
pub fn join_url(leader_url: &str) -> (r: String)
    ensures
        r@ == leader_url@ + "/add-learner"@,
{
    let mut s = string_from(leader_url);
    push_str(&mut s, "/add-learner");
    s
}

// ---------------------------------------------------------------------------
// The outcome of auto-join
// ---------------------------------------------------------------------------

/// What auto-join does after leader discovery.
#[derive(Debug)]
pub enum AutoJoinStep {
    /// Ask the leader with this id, at this URL, to take this node as a learner.
    RequestJoin(NodeId, String),
    /// Stop; the value says whether the node joined.
    Finish(bool),
}

/// After discovery: a found leader is asked to take this node; when this node
/// leads, or discovery failed, auto-join ends without joining.
pub fn auto_join_after_discovery(found: Result<Option<(NodeId, String)>, String>) -> (r: AutoJoinStep)
    ensures
        match found {
            Ok(Some((id, url))) => r matches AutoJoinStep::RequestJoin(rid, rurl) && rid == id && rurl@ == url@,
            _ => r matches AutoJoinStep::Finish(false),
        },
{
    match found {
        Ok(Some((id, url))) => AutoJoinStep::RequestJoin(id, url),
        _ => AutoJoinStep::Finish(false),
    }
}

/// After the join request: the node joined exactly when the request was taken.
pub fn auto_join_after_request(result: &Result<(), String>) -> (r: bool)
    ensures
        r == (result is Ok),
{
    match result {
        Ok(()) => true,
        Err(_) => false,
    }
}

// ---------------------------------------------------------------------------
// TLS of the HTTP clients
// ---------------------------------------------------------------------------

/// What an HTTP client is for: Raft RPCs and the cluster client, leader
/// discovery, or a join request.
#[derive(PartialEq, Eq, Structural, Clone, Copy, Debug)]
pub enum ClientUse {
    Rpc,
    Discovery,
    Join,
}

/// How an HTTP client is set up: without TLS configuration, accepting any
/// certificate and host name, or with the rustls configuration built from the
/// client TLS configuration.
#[derive(PartialEq, Eq, Structural, Clone, Copy, Debug)]
pub enum TlsSetup {
    Plain,
    AcceptAny,
    Rustls,
}

/// Whether the configuration carries both a client certificate and key.
pub open spec fn has_identity(t: ClientTlsConfig) -> bool {
    t.client_cert is Some && t.client_key is Some
}

/// The setup first tried: none without TLS; for discovery that accepts
/// invalid certificates and has no client identity, any certificate; else the
/// rustls configuration.
pub open spec fn first_setup(purpose: ClientUse, tls: Option<ClientTlsConfig>) -> TlsSetup {
    match tls {
        None => TlsSetup::Plain,
        Some(t) => if purpose == ClientUse::Discovery && t.accept_invalid_certs && !has_identity(t) {
            TlsSetup::AcceptAny
        } else {
            TlsSetup::Rustls
        },
    }
}

/// The setup to try first.
pub fn tls_setup(purpose: ClientUse, tls: Option<&ClientTlsConfig>) -> (r: TlsSetup)
    ensures
        r == first_setup(purpose, match tls { Some(t) => Some(*t), None => None }),
{
    match tls {
        None => TlsSetup::Plain,
        Some(t) => {
            let identity = t.client_cert.is_some() && t.client_key.is_some();
            if purpose == ClientUse::Discovery && t.accept_invalid_certs && !identity {
                TlsSetup::AcceptAny
            } else {
                TlsSetup::Rustls
            }
        },
    }
}

/// What follows a failed step of a client's setup.
#[derive(Debug)]
pub enum SetupStep {
    /// Go on with this setup.
    Use(TlsSetup),
    /// Give up with this message.
    Fail(String),
}

/// After the rustls configuration could not be built (with this error): Raft
/// RPC clients go on without it; discovery that accepts invalid certificates
/// falls back to accepting any; otherwise the client is not made.
pub fn after_rustls_error(purpose: ClientUse, tls: &ClientTlsConfig, error: &str) -> (r: SetupStep)
    ensures
        purpose == ClientUse::Rpc ==> r matches SetupStep::Use(TlsSetup::Plain),
        purpose == ClientUse::Discovery && tls.accept_invalid_certs ==> r matches SetupStep::Use(
            TlsSetup::AcceptAny,
        ),
        (purpose == ClientUse::Join || (purpose == ClientUse::Discovery && !tls.accept_invalid_certs))
            ==> (r matches SetupStep::Fail(m) && m@ == "Failed to create TLS client config: "@ + error@),
{
    if purpose == ClientUse::Rpc {
        SetupStep::Use(TlsSetup::Plain)
    } else if purpose == ClientUse::Discovery && tls.accept_invalid_certs {
        SetupStep::Use(TlsSetup::AcceptAny)
    } else {
        let mut m = string_from("Failed to create TLS client config: ");
        push_str(&mut m, error);
        SetupStep::Fail(m)
    }
}

/// After the HTTP client could not be built (with this error): discovery and
/// join requests that accept invalid certificates and have a client
/// certificate fall back to accepting any; otherwise the client is not made.
pub fn after_build_error(purpose: ClientUse, tls: Option<&ClientTlsConfig>, error: &str) -> (r: SetupStep)
    ensures
        match tls {
            Some(t) if purpose != ClientUse::Rpc && t.accept_invalid_certs && t.client_cert is Some => r matches SetupStep::Use(
                TlsSetup::AcceptAny,
            ),
            _ => r matches SetupStep::Fail(m) && m@ == "Failed to create HTTP client: "@ + error@,
        },
{
    match tls {
        Some(t) => {
            if purpose != ClientUse::Rpc && t.accept_invalid_certs && t.client_cert.is_some() {
                return SetupStep::Use(TlsSetup::AcceptAny);
            }
        },
        None => {},
    }
    let mut m = string_from("Failed to create HTTP client: ");
    push_str(&mut m, error);
    SetupStep::Fail(m)
}

} // verus!
