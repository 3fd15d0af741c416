//! The client's view of a cluster: the nodes it knows, the leader it last
//! found, the URLs it calls, and how it finds the leader from the nodes'
//! metrics.
use vstd::prelude::*;
use crate::network::scheme;
use crate::text::{has_prefix, push_str, str_eq, string_from, trim_start_char, trim_start_matching, chars_of, chars_from};

verus! {

/// Errors of the library's callers: storage, network, Raft, configuration,
/// I/O and serialization, each with its message.
#[derive(Debug)]
pub enum FerriteError {
    Storage(String),
    Network(String),
    Raft(String),
    Config(String),
    Io(String),
    Serde(String),
}

impl FerriteError {
    /// How the error is displayed.
    pub open spec fn display_view(&self) -> Seq<char> {
        match self {
            FerriteError::Storage(m) => "Storage error: "@ + m@,
            FerriteError::Network(m) => "Network error: "@ + m@,
            FerriteError::Raft(m) => "Raft error: "@ + m@,
            FerriteError::Config(m) => "Configuration error: "@ + m@,
            FerriteError::Io(m) => "IO error: "@ + m@,
            FerriteError::Serde(m) => "Serialization error: "@ + m@,
        }
    }

    /// The error as displayed.
    pub fn to_string(&self) -> (r: String)
        ensures
            r@ == self.display_view(),
    {
        let (prefix, m) = match self {
            FerriteError::Storage(m) => ("Storage error: ", m),
            FerriteError::Network(m) => ("Network error: ", m),
            FerriteError::Raft(m) => ("Raft error: ", m),
            FerriteError::Config(m) => ("Configuration error: ", m),
            FerriteError::Io(m) => ("IO error: ", m),
            FerriteError::Serde(m) => ("Serialization error: ", m),
        };
        let mut s = string_from(prefix);
        push_str(&mut s, m.as_str());
        s
    }
}

/// Strings taken by their characters.
pub open spec fn strings_view(s: Seq<String>) -> Seq<Seq<char>> {
    s.map_values(|x: String| x@)
}

/// The client's knowledge of a cluster.
#[derive(Debug)]
pub struct FerriumClient {
    nodes: Vec<String>,
    current_leader: Option<String>,
    use_tls: bool,
}

/// The address part of a URL: without an `http://` or `https://` in front.
pub open spec fn address_of(url: Seq<char>) -> Seq<char> {
    if has_prefix(url, "http://"@) {
        url.skip(7)
    } else if has_prefix(url, "https://"@) {
        url.skip(8)
    } else {
        url
    }
}

/// `<scheme>://<addr>/<endpoint without leading slashes>`.
pub open spec fn client_url(use_tls: bool, addr: Seq<char>, endpoint: Seq<char>) -> Seq<char> {
    scheme(use_tls) + "://"@ + addr + "/"@ + trim_start_char(endpoint, '/')
}

/// The address part of a URL.
pub fn extract_addr(url: &str) -> (r: String)
    ensures
        r@ == address_of(url@),
{
    let cs = chars_of(url);
    proof {
        reveal_strlit("http://");
        reveal_strlit("https://");
    }
    if crate::text::starts_with(url, "http://") {
        let rest = chars_from(&cs, 7);
        let mut s = String::new();
        crate::text::push_chars(&mut s, &rest);
        s
    } else if crate::text::starts_with(url, "https://") {
        let rest = chars_from(&cs, 8);
        let mut s = String::new();
        crate::text::push_chars(&mut s, &rest);
        s
    } else {
        string_from(url)
    }
}

impl FerriumClient {
    /// The node addresses, in order.
    pub closed spec fn nodes_view(&self) -> Seq<Seq<char>> {
        strings_view(self.nodes@)
    }

    /// The leader last found, if any.
    pub closed spec fn leader_view(&self) -> Option<Seq<char>> {
        match self.current_leader {
            Some(l) => Some(l@),
            None => None,
        }
    }

    /// Whether the client speaks HTTPS.
    pub closed spec fn tls(&self) -> bool {
        self.use_tls
    }

    /// A client for the given node addresses, speaking plain HTTP.
    pub fn new(nodes: Vec<String>) -> (r: FerriumClient)
        ensures
            r.nodes_view() == strings_view(nodes@),
            r.leader_view() is None,
            !r.tls(),
    {
        FerriumClient { nodes, current_leader: None, use_tls: false }
    }

    /// A client for the given node addresses, speaking HTTPS when `use_tls`.
    pub fn with_tls(nodes: Vec<String>, use_tls: bool) -> (r: FerriumClient)
        ensures
            r.nodes_view() == strings_view(nodes@),
            r.leader_view() is None,
            r.tls() == use_tls,
    {
        FerriumClient { nodes, current_leader: None, use_tls }
    }

    /// Adds a node address, unless it is already known.
    pub fn add_node(&mut self, addr: String)
        ensures
            final(self).nodes_view() == if old(self).nodes_view().contains(addr@) {
                old(self).nodes_view()
            } else {
                old(self).nodes_view().push(addr@)
            },
            final(self).leader_view() == old(self).leader_view(),
            final(self).tls() == old(self).tls(),
    {
        let mut i: usize = 0;
        while i < self.nodes.len()
            invariant
                i <= self.nodes@.len(),
                forall|j: int| 0 <= j < i ==> #[trigger] self.nodes@[j]@ != addr@,
            decreases self.nodes@.len() - i,
        {
            if str_eq(self.nodes[i].as_str(), addr.as_str()) {
                proof {
                    assert(strings_view(self.nodes@)[i as int] == addr@);
                }
                return;
            }
            i = i + 1;
        }
        proof {
            assert(!strings_view(self.nodes@).contains(addr@)) by {
                if strings_view(self.nodes@).contains(addr@) {
                    let j = choose|j: int| 0 <= j < strings_view(self.nodes@).len() && strings_view(self.nodes@)[j] == addr@;
                    assert(self.nodes@[j]@ == addr@);
                }
            }
        }
        self.nodes.push(addr);
        proof {
            assert(strings_view(self.nodes@) =~= strings_view(old(self).nodes@).push(addr@));
        }
    }

    /// The node addresses.
    pub fn nodes(&self) -> (r: &[String])
        ensures
            strings_view(r@) == self.nodes_view(),
    {
        self.nodes.as_slice()
    }

    /// The number of node addresses.
    pub fn node_count(&self) -> (r: usize)
        ensures
            r == self.nodes_view().len(),
    {
        self.nodes.len()
    }

    /// The leader last found.
    pub fn current_leader(&self) -> (r: Option<String>)
        ensures
            match r {
                Some(l) => self.leader_view() == Some(l@),
                None => self.leader_view() is None,
            },
    {
        match &self.current_leader {
            Some(l) => Some(l.clone()),
            None => None,
        }
    }

    /// Remembers `leader` as the leader.
    pub fn set_current_leader(&mut self, leader: Option<String>)
        ensures
            final(self).leader_view() == match leader {
                Some(l) => Some(l@),
                None => None,
            },
            final(self).nodes_view() == old(self).nodes_view(),
            final(self).tls() == old(self).tls(),
    {
        self.current_leader = leader;
    }

    /// The URL of an endpoint of the node at `addr`.
    pub fn make_url(&self, addr: &str, endpoint: &str) -> (r: String)
        ensures
            r@ == client_url(self.tls(), addr@, endpoint@),
    {
        let mut s = if self.use_tls {
            string_from("https")
        } else {
            string_from("http")
        };
        push_str(&mut s, "://");
        push_str(&mut s, addr);
        push_str(&mut s, "/");
        let e = trim_start_matching(endpoint, '/');
        push_str(&mut s, e.as_str());
        s
    }
}

// ---------------------------------------------------------------------------
// Finding the leader
// ---------------------------------------------------------------------------

/// What a node's metrics said: its Raft state (`Leader`, `Follower`, ...) and
/// the leader it knows, if the metrics named them.
#[derive(Debug)]
pub struct NodeMetrics {
    pub state: Option<String>,
    pub current_leader: Option<u64>,
}

/// Whether the metrics name the node the leader.
pub open spec fn says_leader(m: Option<NodeMetrics>) -> bool {
    m matches Some(x) && (x.state matches Some(s) && s@ == "Leader"@)
}

/// Whether the metrics name a leader other than node 0.
pub open spec fn knows_leader(m: Option<NodeMetrics>) -> bool {
    m matches Some(x) && (x.current_leader matches Some(id) && id != 0)
}

/// Whether the node may become leader soon: it is a follower or a candidate.
pub open spec fn may_lead(m: Option<NodeMetrics>) -> bool {
    m matches Some(x) && (x.state matches Some(s) && (s@ == "Follower"@ || s@ == "Candidate"@))
}

/// Whether the metrics of a node (none when they could not be had) name it the
/// leader.
pub fn is_leader_metrics(m: &Option<NodeMetrics>) -> (r: bool)
    ensures
        r == says_leader(*m),
{
    match m {
        Some(x) => match &x.state {
            Some(s) => str_eq(s.as_str(), "Leader"),
            None => false,
        },
        None => false,
    }
}

/// What a round of metrics from every node decides.
#[derive(Debug)]
pub enum LeaderScan {
    /// The node at this position is the leader.
    Leader(usize),
    /// Some node knows of a leader and some node may become leader: wait and
    /// ask again.
    WaitAndRetry,
    /// No leader is in sight.
    NoLeader,
}

/// Decides a round of metrics (one per known node, in order): the first node
/// that says it leads; else wait and retry when some node knows of a leader
/// and some node is a follower or a candidate; else no leader.
pub fn scan_for_leader(metrics: &[Option<NodeMetrics>]) -> (r: LeaderScan)
    ensures
        match r {
            LeaderScan::Leader(i) => i < metrics@.len() && says_leader(metrics@[i as int]) && forall|j: int|
                0 <= j < i ==> !says_leader(#[trigger] metrics@[j]),
            LeaderScan::WaitAndRetry => (forall|j: int| 0 <= j < metrics@.len() ==> !says_leader(#[trigger] metrics@[j]))
                && (exists|j: int| 0 <= j < metrics@.len() && knows_leader(#[trigger] metrics@[j]))
                && (exists|j: int| 0 <= j < metrics@.len() && may_lead(#[trigger] metrics@[j])),
            LeaderScan::NoLeader => (forall|j: int| 0 <= j < metrics@.len() ==> !says_leader(#[trigger] metrics@[j]))
                && !((exists|j: int| 0 <= j < metrics@.len() && knows_leader(#[trigger] metrics@[j]))
                && (exists|j: int| 0 <= j < metrics@.len() && may_lead(#[trigger] metrics@[j]))),
        },
{
    let mut known = false;
    let mut candidate = false;
    let mut i: usize = 0;
    while i < metrics.len()
        invariant
            i <= metrics@.len(),
            forall|j: int| 0 <= j < i ==> !says_leader(#[trigger] metrics@[j]),
            known == exists|j: int| 0 <= j < i && knows_leader(#[trigger] metrics@[j]),
            candidate == exists|j: int| 0 <= j < i && may_lead(#[trigger] metrics@[j]),
        decreases metrics@.len() - i,
    {
        if is_leader_metrics(&metrics[i]) {
            return LeaderScan::Leader(i);
        }
        match &metrics[i] {
            Some(x) => {
                match x.current_leader {
                    Some(id) => {
                        if id != 0 {
                            known = true;
                        }
                    },
                    None => {},
                }
                match &x.state {
                    Some(s) => {
                        if str_eq(s.as_str(), "Follower") || str_eq(s.as_str(), "Candidate") {
                            candidate = true;
                        }
                    },
                    None => {},
                }
            },
            None => {},
        }
        proof {
            assert(knows_leader(metrics@[i as int]) ==> (exists|j: int| 0 <= j < i + 1 && knows_leader(#[trigger] metrics@[j])));
            assert(may_lead(metrics@[i as int]) ==> (exists|j: int| 0 <= j < i + 1 && may_lead(#[trigger] metrics@[j])));
        }
        i = i + 1;
    }
    if known && candidate {
        LeaderScan::WaitAndRetry
    } else {
        LeaderScan::NoLeader
    }
}

/// How a node's metrics are read: it leads when its state is `Leader`; it may
/// become leader soon when its state is `Follower` or `Candidate`; it knows
/// of a leader when it names one other than node 0; metrics that could not be
/// had say none of these.
pub proof fn law_metrics_reading(x: NodeMetrics)
    ensures
        says_leader(Some(x)) <==> (x.state matches Some(s) && s@ == "Leader"@),
        may_lead(Some(x)) <==> (x.state matches Some(s) && (s@ == "Follower"@ || s@ == "Candidate"@)),
        knows_leader(Some(x)) <==> (x.current_leader matches Some(id) && id != 0),
        !says_leader(None) && !may_lead(None) && !knows_leader(None),
{
}

/// A round in which no node says it leads, some node names a leader other
/// than node 0, and some node is a follower or a candidate, is answered by
/// waiting and asking again; a round in which some node leads names a node
/// that leads.
pub proof fn law_round_decision(metrics: Seq<Option<NodeMetrics>>, known: int, campaigning: int)
    requires
        0 <= known < metrics.len(),
        0 <= campaigning < metrics.len(),
        forall|j: int| 0 <= j < metrics.len() ==> !(#[trigger] metrics[j] matches Some(x) && (x.state matches Some(s) && s@ == "Leader"@)),
        metrics[known] matches Some(x) && (x.current_leader matches Some(id) && id != 0),
        metrics[campaigning] matches Some(x) && (x.state matches Some(s) && (s@ == "Follower"@ || s@ == "Candidate"@)),
    ensures
        forall|j: int| 0 <= j < metrics.len() ==> !says_leader(#[trigger] metrics[j]),
        exists|j: int| 0 <= j < metrics.len() && knows_leader(#[trigger] metrics[j]),
        exists|j: int| 0 <= j < metrics.len() && may_lead(#[trigger] metrics[j]),
{
    assert(knows_leader(metrics[known]));
    assert(may_lead(metrics[campaigning]));
}

} // verus!
