//! The key-value request and response types, cluster nodes, and the node
//! configuration with its defaults and validation.
use vstd::prelude::*;
use crate::kv_map::{pairs_map, pairs_view};
use crate::text::{push_str, str_eq, string_from};
use crate::tls::file_exists;
use std::collections::HashMap;

verus! {

/// Node ID type.
pub type NodeId = u64;

/// A request to the key-value state machine.
#[derive(Debug)]
pub enum KvRequest {
    Put { key: String, value: String },
    Get { key: String },
    Delete { key: String },
}

/// The answer of the key-value state machine to one log entry.
#[derive(Debug)]
pub enum KvResponse {
    Put,
    Get { value: Option<String> },
    Delete,
}

/// What a response says, with strings taken by their characters.
pub enum KvResponseView {
    Put,
    Get(Option<Seq<char>>),
    Delete,
}

impl KvResponse {
    pub open spec fn view(&self) -> KvResponseView {
        match self {
            KvResponse::Put => KvResponseView::Put,
            KvResponse::Get { value } => KvResponseView::Get(
                match value {
                    Some(v) => Some(v@),
                    None => None,
                },
            ),
            KvResponse::Delete => KvResponseView::Delete,
        }
    }
}

/// A member of the cluster: where its Raft RPC and its API listen.
#[derive(Debug)]
pub struct Node {
    pub rpc_addr: String,
    pub api_addr: String,
}

impl Clone for Node {
    fn clone(&self) -> (r: Self)
        ensures
            r == *self,
    {
        Node { rpc_addr: self.rpc_addr.clone(), api_addr: self.api_addr.clone() }
    }
}

/// The data of a snapshot of the key-value store: its pairs.
#[derive(Debug)]
pub struct KvSnapshot {
    pub data: Vec<(String, String)>,
}

impl KvSnapshot {
    /// The map that the pairs make, a later pair winning over an earlier one.
    pub open spec fn view(&self) -> Map<Seq<char>, Seq<char>> {
        pairs_map(pairs_view(self.data@))
    }
}

impl Node {
    /// How the node is displayed: `Node { rpc_addr: <rpc>, api_addr: <api> }`.
    pub open spec fn display_view(&self) -> Seq<char> {
        "Node { rpc_addr: "@ + self.rpc_addr@ + ", api_addr: "@ + self.api_addr@ + " }"@
    }

    /// The node as displayed.
    pub fn to_string(&self) -> (r: String)
        ensures
            r@ == self.display_view(),
    {
        let mut s = String::new();
        push_str(&mut s, "Node { rpc_addr: ");
        push_str(&mut s, self.rpc_addr.as_str());
        push_str(&mut s, ", api_addr: ");
        push_str(&mut s, self.api_addr.as_str());
        push_str(&mut s, " }");
        s
    }
}

impl Default for Node {
    fn default() -> (r: Self)
        ensures
            r.rpc_addr@.len() == 0,
            r.api_addr@.len() == 0,
    {
        Node { rpc_addr: String::new(), api_addr: String::new() }
    }
}

// ---------------------------------------------------------------------------
// Configuration
// ---------------------------------------------------------------------------

/// Node-specific configuration. Addresses are `ip:port` in their canonical
/// form.
#[derive(Debug)]
pub struct NodeConfig {
    /// Unique node identifier
    pub id: NodeId,
    /// HTTP API bind address
    pub http_addr: String,
    /// gRPC API bind address
    pub grpc_addr: String,
    /// Data directory for persistent storage
    pub data_dir: String,
    /// Node name (optional, for display purposes)
    pub name: Option<String>,
    /// Node description (optional)
    pub description: Option<String>,
}

/// Network configuration; durations are in milliseconds.
#[derive(Debug)]
pub struct NetworkConfig {
    /// Request timeout for client operations
    pub request_timeout: u64,
    /// Connection timeout for establishing connections
    pub connect_timeout: u64,
    /// Keep-alive interval for HTTP connections
    pub keep_alive_interval: u64,
    /// Maximum number of retry attempts
    pub max_retries: u32,
    /// Retry delay base (exponential backoff)
    pub retry_delay: u64,
    /// Enable compression for network communication
    pub enable_compression: bool,
    /// Maximum message size (in bytes)
    pub max_message_size: usize,
}

/// Compaction strategy of the storage engine.
#[derive(PartialEq, Eq, Structural, Clone, Copy, Debug)]
pub enum CompactionStrategy {
    Level,
    Universal,
    Fifo,
}

/// Storage configuration
#[derive(Debug)]
pub struct StorageConfig {
    /// Enable data compression
    pub enable_compression: bool,
    /// Compaction strategy
    pub compaction_strategy: CompactionStrategy,
    /// Maximum log file size before rotation
    pub max_log_size: u64,
    /// Number of log files to retain
    pub log_retention_count: u32,
    /// Enable write-ahead logging
    pub enable_wal: bool,
    /// Sync writes to disk (durability vs performance)
    pub sync_writes: bool,
    /// Block cache size (in MB)
    pub block_cache_size: u32,
    /// Write buffer size (in MB)
    pub write_buffer_size: u32,
}

/// Snapshot creation policy; the interval is in milliseconds.
#[derive(Debug)]
pub struct SnapshotPolicy {
    /// Enable automatic snapshots
    pub enable_auto_snapshot: bool,
    /// Number of log entries before creating snapshot
    pub entries_since_last_snapshot: u64,
    /// Time interval for automatic snapshots
    pub snapshot_interval: u64,
}

/// Raft-specific configuration; durations are in milliseconds.
#[derive(Debug)]
pub struct RaftConfig {
    /// Heartbeat interval
    pub heartbeat_interval: u64,
    /// Minimum election timeout
    pub election_timeout_min: u64,
    /// Maximum election timeout
    pub election_timeout_max: u64,
    /// Maximum entries per append entries request
    pub max_append_entries: u32,
    /// Snapshot policy
    pub snapshot_policy: SnapshotPolicy,
    /// Enable automatic log compaction
    pub enable_auto_compaction: bool,
    /// Log compaction threshold (number of entries)
    pub compaction_threshold: u64,
    /// Maximum number of inflight append entries requests
    pub max_inflight_requests: u32,
}

/// Log output format
#[derive(PartialEq, Eq, Structural, Clone, Copy, Debug)]
pub enum LogFormat {
    Json,
    Pretty,
    Compact,
}

/// Logging configuration
#[derive(Debug)]
pub struct LoggingConfig {
    /// Log level (trace, debug, info, warn, error)
    pub level: String,
    /// Log format (json, pretty, compact)
    pub format: LogFormat,
    /// Enable structured logging
    pub structured: bool,
    /// Log file path (None = stdout)
    pub file_path: Option<String>,
    /// Maximum log file size before rotation
    pub max_file_size: Option<u64>,
    /// Number of rotated log files to keep
    pub max_files: Option<u32>,
    /// Enable ANSI colors in output
    pub enable_colors: bool,
}

/// Individual peer configuration
#[derive(Debug)]
pub struct PeerConfig {
    /// Peer's HTTP address
    pub http_addr: String,
    /// Peer's gRPC address
    pub grpc_addr: String,
    /// Priority for leader election (higher = more likely to be leader)
    pub priority: Option<u32>,
    /// Whether this peer should participate in voting
    pub voting: bool,
}

impl Clone for PeerConfig {
    fn clone(&self) -> (r: Self)
        ensures
            r == *self,
    {
        PeerConfig {
            http_addr: self.http_addr.clone(),
            grpc_addr: self.grpc_addr.clone(),
            priority: self.priority,
            voting: self.voting,
        }
    }
}

/// Individual peer configuration with ID (for array format)
#[derive(Debug)]
pub struct PeerConfigWithId {
    /// Peer's node ID
    pub id: NodeId,
    /// Peer's HTTP address
    pub http_addr: String,
    /// Peer's gRPC address
    pub grpc_addr: String,
    /// Priority for leader election (higher = more likely to be leader)
    pub priority: Option<u32>,
    /// Whether this peer should participate in voting
    pub voting: bool,
}

impl PeerConfigWithId {
    /// The peer without its id.
    pub open spec fn peer(&self) -> PeerConfig {
        PeerConfig {
            http_addr: self.http_addr,
            grpc_addr: self.grpc_addr,
            priority: self.priority,
            voting: self.voting,
        }
    }
}

/// Service discovery methods
#[derive(PartialEq, Eq, Structural, Clone, Copy, Debug)]
pub enum DiscoveryMethod {
    Static,
    Dns,
    Consul,
    Etcd,
    Kubernetes,
}

/// Service discovery configuration; the interval is in milliseconds.
#[derive(Debug)]
pub struct DiscoveryConfig {
    /// Enable automatic peer discovery
    pub enabled: bool,
    /// Discovery method
    pub method: DiscoveryMethod,
    /// Discovery interval
    pub interval: u64,
}

/// Cluster configuration; durations are in milliseconds.
#[derive(Debug)]
pub struct ClusterConfig {
    /// Known peers for cluster discovery (map format)
    pub peers: HashMap<NodeId, PeerConfig>,
    /// Known peers for cluster discovery (array format, preferred)
    pub peer_list: Vec<PeerConfigWithId>,
    /// Auto-discovery settings
    pub discovery: DiscoveryConfig,
    /// Cluster name (for identification)
    pub name: String,
    /// Expected cluster size (for initialization)
    pub expected_size: Option<u32>,
    /// Enable automatic joining as learners
    pub enable_auto_join: bool,
    /// Timeout for leader discovery during auto-join
    pub leader_discovery_timeout: u64,
    /// Timeout for auto-join process
    pub auto_join_timeout: u64,
    /// Retry interval for auto-join attempts
    pub auto_join_retry_interval: u64,
    /// Auto-accept learner join requests (for leaders)
    pub auto_accept_learners: bool,
}

/// Authentication methods
#[derive(PartialEq, Eq, Structural, Clone, Copy, Debug)]
pub enum AuthMethod {
    /// No authentication (`none` in configuration files).
    NoAuth,
    Token,
    Certificate,
    Jwt,
}

/// Security configuration
#[derive(Debug)]
pub struct SecurityConfig {
    /// Enable TLS for all communication
    pub enable_tls: bool,
    /// Path to TLS certificate file
    pub cert_file: Option<String>,
    /// Path to TLS private key file
    pub key_file: Option<String>,
    /// Path to CA certificate for peer verification
    pub ca_file: Option<String>,
    /// Enable mutual TLS authentication
    pub enable_mtls: bool,
    /// Accept certificates that do not verify (self-signed test setups)
    pub accept_invalid_certs: bool,
    /// Authentication method
    pub auth_method: AuthMethod,
}

/// Complete configuration of a node.
#[derive(Debug)]
pub struct FerriteConfig {
    pub node: NodeConfig,
    pub network: NetworkConfig,
    pub storage: StorageConfig,
    pub raft: RaftConfig,
    pub logging: LoggingConfig,
    pub cluster: ClusterConfig,
    pub security: SecurityConfig,
}

/// Configuration error types
#[derive(Debug)]
pub enum ConfigError {
    Io(String),
    Parse(String),
    Serialize(String),
    Validation(String),
}

impl ConfigError {
    /// How the error is displayed.
    pub open spec fn display_view(&self) -> Seq<char> {
        match self {
            ConfigError::Io(m) => "IO error: "@ + m@,
            ConfigError::Parse(m) => "Parse error: "@ + m@,
            ConfigError::Serialize(m) => "Serialization error: "@ + m@,
            ConfigError::Validation(m) => "Validation error: "@ + m@,
        }
    }

    /// The error as displayed.
    pub fn to_string(&self) -> (r: String)
        ensures
            r@ == self.display_view(),
    {
        let mut s = String::new();
        match self {
            ConfigError::Io(m) => {
                push_str(&mut s, "IO error: ");
                push_str(&mut s, m.as_str());
            },
            ConfigError::Parse(m) => {
                push_str(&mut s, "Parse error: ");
                push_str(&mut s, m.as_str());
            },
            ConfigError::Serialize(m) => {
                push_str(&mut s, "Serialization error: ");
                push_str(&mut s, m.as_str());
            },
            ConfigError::Validation(m) => {
                push_str(&mut s, "Validation error: ");
                push_str(&mut s, m.as_str());
            },
        }
        s
    }
}

/// The log levels that a configuration may name.
pub open spec fn valid_log_level(level: Seq<char>) -> bool {
    level == "trace"@ || level == "debug"@ || level == "info"@ || level == "warn"@ || level
        == "error"@
}

/// The message of the first rule that a configuration breaks, if any: the node
/// id is not 0, the election timeout range is not empty, the HTTP and gRPC
/// addresses differ, the log level is a known one, and the data directory is
/// accessible (`data_dir_ok` says whether it is).
pub open spec fn validation_error(c: FerriteConfig, data_dir_ok: bool) -> Option<Seq<char>> {
    if c.node.id == 0 {
        Some("Node ID cannot be 0"@)
    } else if c.raft.election_timeout_min >= c.raft.election_timeout_max {
        Some("Election timeout min must be less than max"@)
    } else if c.node.http_addr@ == c.node.grpc_addr@ {
        Some("HTTP and gRPC addresses cannot be the same"@)
    } else if !valid_log_level(c.logging.level@) {
        Some(
            "Invalid log level: "@ + c.logging.level@
                + ". Must be one of: [\"trace\", \"debug\", \"info\", \"warn\", \"error\"]"@,
        )
    } else if !data_dir_ok {
        Some("Data directory is not accessible: "@ + c.node.data_dir@)
    } else {
        None
    }
}

fn is_valid_log_level(level: &str) -> (r: bool)
    ensures
        r == valid_log_level(level@),
{
    str_eq(level, "trace") || str_eq(level, "debug") || str_eq(level, "info") || str_eq(level, "warn")
        || str_eq(level, "error")
}

impl FerriteConfig {
    /// Checks the configuration, given whether its data directory is
    /// accessible: `Ok` when it breaks no rule, else the validation error of the
    /// first rule it breaks.
    pub fn validate_with(&self, data_dir_accessible: bool) -> (r: Result<(), ConfigError>)
        ensures
            match r {
                Ok(()) => validation_error(*self, data_dir_accessible) is None,
                Err(ConfigError::Validation(m)) => validation_error(*self, data_dir_accessible) == Some(m@),
                Err(_) => false,
            },
    {
        if self.node.id == 0 {
            return Err(ConfigError::Validation(string_from("Node ID cannot be 0")));
        }
        if self.raft.election_timeout_min >= self.raft.election_timeout_max {
            return Err(ConfigError::Validation(string_from("Election timeout min must be less than max")));
        }
        if str_eq(self.node.http_addr.as_str(), self.node.grpc_addr.as_str()) {
            return Err(ConfigError::Validation(string_from("HTTP and gRPC addresses cannot be the same")));
        }
        if !is_valid_log_level(self.logging.level.as_str()) {
            let mut m = string_from("Invalid log level: ");
            push_str(&mut m, self.logging.level.as_str());
            push_str(&mut m, ". Must be one of: [\"trace\", \"debug\", \"info\", \"warn\", \"error\"]");
            return Err(ConfigError::Validation(m));
        }
        if !data_dir_accessible {
            let mut m = string_from("Data directory is not accessible: ");
            push_str(&mut m, self.node.data_dir.as_str());
            return Err(ConfigError::Validation(m));
        }
        Ok(())
    }

    /// Checks the configuration against the disk: the outcome is the one that
    /// `validation_error` gives for what the disk says of the data directory.
    pub fn validate(&self) -> (r: Result<(), ConfigError>)
        ensures
            exists|ok: bool| match r {
                Ok(()) => #[trigger] validation_error(*self, ok) is None,
                Err(ConfigError::Validation(m)) => validation_error(*self, ok) == Some(m@),
                Err(_) => false,
            },
    {
        let ok = data_dir_accessible(self.node.data_dir.as_str());
        let r = self.validate_with(ok);
        assert(match r {
            Ok(()) => validation_error(*self, ok) is None,
            Err(ConfigError::Validation(m)) => validation_error(*self, ok) == Some(m@),
            Err(_) => false,
        });
        r
    }
}

// ---------------------------------------------------------------------------
// Accessibility of the data directory
// ---------------------------------------------------------------------------

/// The position of the last `/` in `p`, or -1 when it holds none.
pub open spec fn last_slash(p: Seq<char>) -> int
    decreases p.len(),
{
    if p.len() == 0 {
        -1
    } else if p.last() == '/' {
        p.len() - 1
    } else {
        last_slash(p.drop_last())
    }
}

proof fn lemma_last_slash(p: Seq<char>)
    ensures
        -1 <= last_slash(p) < p.len(),
        last_slash(p) >= 0 ==> p[last_slash(p)] == '/',
        forall|j: int| last_slash(p) < j < p.len() ==> p[j] != '/',
    decreases p.len(),
{
    if p.len() > 0 && p.last() != '/' {
        lemma_last_slash(p.drop_last());
        assert forall|j: int| last_slash(p) < j < p.len() implies p[j] != '/' by {
            if j < p.len() - 1 {
                assert(p.drop_last()[j] == p[j]);
            }
        }
    }
}

/// The directory that holds `p`: what comes before its last `/` (the root for
/// a path directly under it); none for a name without a `/` (it lies in the
/// current directory) and for the root itself.
pub open spec fn parent_dir(p: Seq<char>) -> Option<Seq<char>> {
    let k = last_slash(p);
    if k < 0 {
        None
    } else if k == 0 {
        if p.len() == 1 {
            None
        } else {
            Some("/"@)
        }
    } else {
        Some(p.take(k))
    }
}

/// The parent of a path is shorter than it.
proof fn lemma_parent_shorter(p: Seq<char>)
    ensures
        parent_dir(p) matches Some(q) ==> q.len() < p.len(),
{
    lemma_last_slash(p);
    reveal_strlit("/");
}

/// The directory that holds `p`.
fn parent_dir_of(p: &str) -> (r: Option<String>)
    ensures
        match r {
            Some(q) => parent_dir(p@) == Some(q@),
            None => parent_dir(p@) is None,
        },
{
    let cs = crate::text::chars_of(p);
    let mut i: usize = cs.len();
    proof {
        assert(cs@.take(i as int) == cs@);
    }
    while i > 0 && cs[i - 1] != '/'
        invariant
            i <= cs@.len(),
            cs@ == p@,
            last_slash(cs@) == last_slash(cs@.take(i as int)),
        decreases i,
    {
        proof {
            assert(cs@.take(i as int).drop_last() == cs@.take(i - 1));
            assert(cs@.take(i as int).last() == cs@[i - 1]);
        }
        i = i - 1;
    }
    proof {
        lemma_last_slash(cs@);
        if i > 0 {
            assert(cs@.take(i as int).last() == cs@[i - 1]);
            assert(last_slash(cs@) == i - 1);
        } else {
            assert(cs@.take(0).len() == 0);
            assert(last_slash(cs@) == -1);
        }
    }
    if i == 0 {
        None
    } else if i == 1 {
        if cs.len() == 1 {
            None
        } else {
            proof {
                reveal_strlit("/");
            }
            Some(string_from("/"))
        }
    } else {
        let mut q = String::new();
        let mut j: usize = 0;
        while j < i - 1
            invariant
                i <= cs@.len(),
                j <= i - 1,
                q@ == cs@.take(j as int),
            decreases i - 1 - j,
        {
            proof {
                assert(cs@.take(j + 1) == cs@.take(j as int).push(cs@[j as int]));
            }
            crate::text::push_char(&mut q, cs[j]);
            j = j + 1;
        }
        Some(q)
    }
}

/// `chain` is `p` and the directories that hold it, each holding the one
/// before, up to one that no directory holds.
pub open spec fn dir_chain(p: Seq<char>, chain: Seq<Seq<char>>) -> bool {
    &&& chain.len() >= 1
    &&& chain[0] == p
    &&& forall|i: int| 0 <= i < chain.len() - 1 ==> parent_dir(#[trigger] chain[i]) == Some(chain[i + 1])
    &&& parent_dir(chain.last()) is None
}

/// `p` and the directories that hold it, innermost first.
fn dir_chain_of(p: &str) -> (r: Vec<String>)
    ensures
        dir_chain(p@, paths_view(r@)),
{
    let mut chain: Vec<String> = Vec::new();
    chain.push(string_from(p));
    let mut current = string_from(p);
    loop
        invariant
            chain@.len() >= 1,
            paths_view(chain@)[0] == p@,
            paths_view(chain@).last() == current@,
            forall|i: int| 0 <= i < chain@.len() - 1 ==> parent_dir(#[trigger] paths_view(chain@)[i]) == Some(paths_view(chain@)[i + 1]),
        decreases current@.len(),
    {
        match parent_dir_of(current.as_str()) {
            None => {
                return chain;
            },
            Some(q) => {
                proof {
                    lemma_parent_shorter(current@);
                }
                let ghost before = paths_view(chain@);
                chain.push(q.clone());
                proof {
                    assert(paths_view(chain@) =~= before.push(q@));
                    assert forall|i: int| 0 <= i < chain@.len() - 1 implies parent_dir(#[trigger] paths_view(chain@)[i]) == Some(paths_view(chain@)[i + 1]) by {
                        if i < before.len() - 1 {
                            assert(paths_view(chain@)[i] == before[i]);
                            assert(paths_view(chain@)[i + 1] == before[i + 1]);
                        } else {
                            assert(paths_view(chain@)[i] == before.last());
                        }
                    }
                }
                current = q;
            },
        }
    }
}

/// Whether a directory is accessible, given what the disk says of each path of
/// its chain (whether it exists, whether it is a directory): the innermost path
/// that exists decides, and it must be a directory; where none exists the
/// directory lies under the current one and can be made.
pub open spec fn accessible_by(probes: Seq<(bool, bool)>) -> bool
    decreases probes.len(),
{
    if probes.len() == 0 {
        true
    } else if probes[0].0 {
        probes[0].1
    } else {
        accessible_by(probes.skip(1))
    }
}

/// Decides accessibility from the probes of a directory's chain.
pub fn decide_accessible(probes: &[(bool, bool)]) -> (r: bool)
    ensures
        r == accessible_by(probes@),
{
    let mut i: usize = 0;
    proof {
        assert(probes@.skip(0) == probes@);
    }
    while i < probes.len()
        invariant
            i <= probes@.len(),
            accessible_by(probes@) == accessible_by(probes@.skip(i as int)),
        decreases probes@.len() - i,
    {
        let (exists, is_dir) = probes[i];
        proof {
            assert(probes@.skip(i as int)[0] == probes@[i as int]);
            assert(probes@.skip(i as int).skip(1) == probes@.skip(i + 1));
        }
        if exists {
            return is_dir;
        }
        i = i + 1;
    }
    proof {
        assert(probes@.skip(i as int).len() == 0);
    }
    true
}

/// `Path::is_dir`: whether a directory is at `path`. What is on disk decides;
/// nothing is stated of the result.
#[verifier::external_body]
fn dir_exists(path: &str) -> bool {
    std::path::Path::new(path).is_dir()
}

/// Whether the data directory is accessible: not for an empty path; else as
/// `accessible_by` decides for what the disk says of each path of its chain.
pub fn data_dir_accessible(data_dir: &str) -> (r: bool)
    ensures
        data_dir@.len() == 0 ==> !r,
        data_dir@.len() > 0 ==> exists|chain: Seq<Seq<char>>, probes: Seq<(bool, bool)>|
            #[trigger] dir_chain(data_dir@, chain) && probes.len() == chain.len() && r == #[trigger] accessible_by(probes),
{
    let cs = crate::text::chars_of(data_dir);
    if cs.len() == 0 {
        return false;
    }
    let chain = dir_chain_of(data_dir);
    let mut probes: Vec<(bool, bool)> = Vec::new();
    let mut i: usize = 0;
    while i < chain.len()
        invariant
            i <= chain@.len(),
            probes@.len() == i,
        decreases chain@.len() - i,
    {
        let p = chain[i].as_str();
        probes.push((file_exists(p), dir_exists(p)));
        i = i + 1;
    }
    let r = decide_accessible(&probes);
    proof {
        assert(dir_chain(data_dir@, paths_view(chain@)) && probes@.len() == paths_view(chain@).len()
            && r == accessible_by(probes@));
    }
    r
}

/// The peers of the map with those of the list put in, one after the other:
/// the list wins over the map, and a later list entry over an earlier one.
pub open spec fn peers_with_list(m: Map<NodeId, PeerConfig>, list: Seq<PeerConfigWithId>) -> Map<
    NodeId,
    PeerConfig,
>
    decreases list.len(),
{
    if list.len() == 0 {
        m
    } else {
        peers_with_list(m, list.drop_last()).insert(list.last().id, list.last().peer())
    }
}

/// The last entry of the list with the given id.
pub open spec fn last_with_id(list: Seq<PeerConfigWithId>, id: NodeId) -> Option<PeerConfigWithId>
    decreases list.len(),
{
    if list.len() == 0 {
        None
    } else if list.last().id == id {
        Some(list.last())
    } else {
        last_with_id(list.drop_last(), id)
    }
}

impl ClusterConfig {
    /// All peers in one map: those of the map format, overridden by those of
    /// the array format.
    pub fn get_all_peers(&self) -> (r: HashMap<NodeId, PeerConfig>)
        ensures
            r@ == peers_with_list(self.peers@, self.peer_list@),
    {
        broadcast use vstd::std_specs::hash::group_hash_axioms;

        let mut all_peers = self.peers.clone();
        let mut i: usize = 0;
        while i < self.peer_list.len()
            invariant
                i <= self.peer_list@.len(),
                all_peers@ == peers_with_list(self.peers@, self.peer_list@.take(i as int)),
            decreases self.peer_list@.len() - i,
        {
            let p = &self.peer_list[i];
            let peer = PeerConfig {
                http_addr: p.http_addr.clone(),
                grpc_addr: p.grpc_addr.clone(),
                priority: p.priority,
                voting: p.voting,
            };
            all_peers.insert(p.id, peer);
            proof {
                let next = self.peer_list@.take(i + 1);
                assert(next.drop_last() == self.peer_list@.take(i as int));
                assert(next.last() == self.peer_list@[i as int]);
            }
            i = i + 1;
        }
        proof {
            assert(self.peer_list@.take(i as int) == self.peer_list@);
        }
        all_peers
    }
}

/// A peer of the array format overrides one of the map format with the same
/// id, and the last of several with one id wins; a peer of the map format that
/// the array does not name stays.
pub proof fn law_peer_list_overrides(m: Map<NodeId, PeerConfig>, list: Seq<PeerConfigWithId>, id: NodeId)
    ensures
        peers_with_list(m, list).contains_key(id) == (m.contains_key(id) || last_with_id(list, id) is Some),
        last_with_id(list, id) matches Some(p) ==> peers_with_list(m, list)[id] == p.peer(),
        (last_with_id(list, id) is None && m.contains_key(id)) ==> peers_with_list(m, list)[id] == m[id],
    decreases list.len(),
{
    if list.len() > 0 {
        law_peer_list_overrides(m, list.drop_last(), id);
    }
}

impl Default for NodeConfig {
    fn default() -> (r: Self)
        ensures
            r.id == 1,
            r.http_addr@ == "127.0.0.1:8001"@,
            r.grpc_addr@ == "127.0.0.1:9001"@,
            r.data_dir@ == "./data"@,
            r.name is None,
            r.description is None,
    {
        NodeConfig {
            id: 1,
            http_addr: string_from("127.0.0.1:8001"),
            grpc_addr: string_from("127.0.0.1:9001"),
            data_dir: string_from("./data"),
            name: None,
            description: None,
        }
    }
}

impl Default for NetworkConfig {
    fn default() -> (r: Self)
        ensures
            r.request_timeout == 30_000,
            r.connect_timeout == 10_000,
            r.keep_alive_interval == 60_000,
            r.max_retries == 3,
            r.retry_delay == 100,
            r.enable_compression,
            r.max_message_size == 4 * 1024 * 1024,
    {
        NetworkConfig {
            request_timeout: 30_000,
            connect_timeout: 10_000,
            keep_alive_interval: 60_000,
            max_retries: 3,
            retry_delay: 100,
            enable_compression: true,
            max_message_size: 4 * 1024 * 1024,
        }
    }
}

impl Default for StorageConfig {
    fn default() -> (r: Self)
        ensures
            r.enable_compression,
            r.compaction_strategy == CompactionStrategy::Level,
            r.max_log_size == 100 * 1024 * 1024,
            r.log_retention_count == 10,
            r.enable_wal,
            !r.sync_writes,
            r.block_cache_size == 64,
            r.write_buffer_size == 64,
    {
        StorageConfig {
            enable_compression: true,
            compaction_strategy: CompactionStrategy::Level,
            max_log_size: 100 * 1024 * 1024,
            log_retention_count: 10,
            enable_wal: true,
            sync_writes: false,
            block_cache_size: 64,
            write_buffer_size: 64,
        }
    }
}

impl Default for SnapshotPolicy {
    fn default() -> (r: Self)
        ensures
            r.enable_auto_snapshot,
            r.entries_since_last_snapshot == 1000,
            r.snapshot_interval == 300_000,
    {
        SnapshotPolicy {
            enable_auto_snapshot: true,
            entries_since_last_snapshot: 1000,
            snapshot_interval: 300_000,
        }
    }
}

impl Default for RaftConfig {
    fn default() -> (r: Self)
        ensures
            r.heartbeat_interval == 250,
            r.election_timeout_min == 299,
            r.election_timeout_max == 500,
            r.max_append_entries == 100,
            r.snapshot_policy.enable_auto_snapshot,
            r.snapshot_policy.entries_since_last_snapshot == 1000,
            r.snapshot_policy.snapshot_interval == 300_000,
            r.enable_auto_compaction,
            r.compaction_threshold == 1000,
            r.max_inflight_requests == 10,
    {
        RaftConfig {
            heartbeat_interval: 250,
            election_timeout_min: 299,
            election_timeout_max: 500,
            max_append_entries: 100,
            snapshot_policy: SnapshotPolicy::default(),
            enable_auto_compaction: true,
            compaction_threshold: 1000,
            max_inflight_requests: 10,
        }
    }
}

impl Default for LoggingConfig {
    fn default() -> (r: Self)
        ensures
            r.level@ == "info"@,
            r.format == LogFormat::Pretty,
            !r.structured,
            r.file_path is None,
            r.max_file_size == Some(104857600u64),
            r.max_files == Some(5u32),
            r.enable_colors,
    {
        LoggingConfig {
            level: string_from("info"),
            format: LogFormat::Pretty,
            structured: false,
            file_path: None,
            max_file_size: Some(100 * 1024 * 1024),
            max_files: Some(5),
            enable_colors: true,
        }
    }
}

impl Default for DiscoveryConfig {
    fn default() -> (r: Self)
        ensures
            !r.enabled,
            r.method == DiscoveryMethod::Static,
            r.interval == 30_000,
    {
        DiscoveryConfig { enabled: false, method: DiscoveryMethod::Static, interval: 30_000 }
    }
}

impl Default for ClusterConfig {
    fn default() -> (r: Self)
        ensures
            r.peers@ == Map::<NodeId, PeerConfig>::empty(),
            r.peer_list@.len() == 0,
            !r.discovery.enabled,
            r.discovery.method == DiscoveryMethod::Static,
            r.discovery.interval == 30_000,
            r.name@ == "ferrite-cluster"@,
            r.expected_size is None,
            r.enable_auto_join,
            r.leader_discovery_timeout == 30_000,
            r.auto_join_timeout == 60_000,
            r.auto_join_retry_interval == 5_000,
            r.auto_accept_learners,
    {
        ClusterConfig {
            peers: HashMap::new(),
            peer_list: Vec::new(),
            discovery: DiscoveryConfig::default(),
            name: string_from("ferrite-cluster"),
            expected_size: None,
            enable_auto_join: true,
            leader_discovery_timeout: 30_000,
            auto_join_timeout: 60_000,
            auto_join_retry_interval: 5_000,
            auto_accept_learners: true,
        }
    }
}

impl Default for SecurityConfig {
    fn default() -> (r: Self)
        ensures
            !r.enable_tls,
            r.cert_file is None,
            r.key_file is None,
            r.ca_file is None,
            !r.enable_mtls,
            !r.accept_invalid_certs,
            r.auth_method == AuthMethod::NoAuth,
    {
        SecurityConfig {
            enable_tls: false,
            cert_file: None,
            key_file: None,
            ca_file: None,
            enable_mtls: false,
            accept_invalid_certs: false,
            auth_method: AuthMethod::NoAuth,
        }
    }
}

/// The default configuration.
pub open spec fn is_default_config(c: FerriteConfig) -> bool {
    &&& c.node.id == 1
    &&& c.node.http_addr@ == "127.0.0.1:8001"@
    &&& c.node.grpc_addr@ == "127.0.0.1:9001"@
    &&& c.node.data_dir@ == "./data"@
    &&& c.node.name is None
    &&& c.node.description is None
    &&& c.network.request_timeout == 30_000
    &&& c.network.connect_timeout == 10_000
    &&& c.network.keep_alive_interval == 60_000
    &&& c.network.max_retries == 3
    &&& c.network.retry_delay == 100
    &&& c.network.enable_compression
    &&& c.network.max_message_size == 4 * 1024 * 1024
    &&& c.storage.enable_compression
    &&& c.storage.compaction_strategy == CompactionStrategy::Level
    &&& c.storage.max_log_size == 100 * 1024 * 1024
    &&& c.storage.log_retention_count == 10
    &&& c.storage.enable_wal
    &&& !c.storage.sync_writes
    &&& c.storage.block_cache_size == 64
    &&& c.storage.write_buffer_size == 64
    &&& c.raft.heartbeat_interval == 250
    &&& c.raft.election_timeout_min == 299
    &&& c.raft.election_timeout_max == 500
    &&& c.raft.max_append_entries == 100
    &&& c.raft.snapshot_policy.enable_auto_snapshot
    &&& c.raft.snapshot_policy.entries_since_last_snapshot == 1000
    &&& c.raft.snapshot_policy.snapshot_interval == 300_000
    &&& c.raft.enable_auto_compaction
    &&& c.raft.compaction_threshold == 1000
    &&& c.raft.max_inflight_requests == 10
    &&& c.logging.level@ == "info"@
    &&& c.logging.format == LogFormat::Pretty
    &&& !c.logging.structured
    &&& c.logging.file_path is None
    &&& c.logging.max_file_size == Some(104857600u64)
    &&& c.logging.max_files == Some(5u32)
    &&& c.logging.enable_colors
    &&& c.cluster.peers@ == Map::<NodeId, PeerConfig>::empty()
    &&& c.cluster.peer_list@.len() == 0
    &&& !c.cluster.discovery.enabled
    &&& c.cluster.discovery.method == DiscoveryMethod::Static
    &&& c.cluster.discovery.interval == 30_000
    &&& c.cluster.name@ == "ferrite-cluster"@
    &&& c.cluster.expected_size is None
    &&& c.cluster.enable_auto_join
    &&& c.cluster.leader_discovery_timeout == 30_000
    &&& c.cluster.auto_join_timeout == 60_000
    &&& c.cluster.auto_join_retry_interval == 5_000
    &&& c.cluster.auto_accept_learners
    &&& !c.security.enable_tls
    &&& c.security.cert_file is None
    &&& c.security.key_file is None
    &&& c.security.ca_file is None
    &&& !c.security.enable_mtls
    &&& !c.security.accept_invalid_certs
    &&& c.security.auth_method == AuthMethod::NoAuth
}

impl Default for FerriteConfig {
    fn default() -> (r: Self)
        ensures
            is_default_config(r),
    {
        FerriteConfig {
            node: NodeConfig::default(),
            network: NetworkConfig::default(),
            storage: StorageConfig::default(),
            raft: RaftConfig::default(),
            logging: LoggingConfig::default(),
            cluster: ClusterConfig::default(),
            security: SecurityConfig::default(),
        }
    }
}

/// The default configuration passes validation wherever its data directory is
/// accessible.
pub proof fn law_default_config_is_valid(c: FerriteConfig)
    requires
        is_default_config(c),
    ensures
        validation_error(c, true) is None,
{
    reveal_strlit("127.0.0.1:8001");
    reveal_strlit("127.0.0.1:9001");
    reveal_strlit("info");
    assert(c.node.http_addr@[10] != c.node.grpc_addr@[10]);
}

// ---------------------------------------------------------------------------
// Configuration file locations
// ---------------------------------------------------------------------------

/// `dirs::config_dir`, the path made a string (lossily where it is not
/// UTF-8). The environment and the platform decide; nothing is stated.
#[verifier::external_body]
fn user_config_dir() -> Option<String> {
    dirs::config_dir().map(|p| p.to_string_lossy().into_owned())
}

/// `dirs::home_dir`, the path made a string (lossily where it is not UTF-8).
/// The environment and the platform decide; nothing is stated.
#[verifier::external_body]
fn user_home_dir() -> Option<String> {
    dirs::home_dir().map(|p| p.to_string_lossy().into_owned())
}

/// A relative path component joined onto a path (`Path::join` on Unix): a
/// separator goes between them unless the path is empty or ends in one.
pub open spec fn path_join(base: Seq<char>, component: Seq<char>) -> Seq<char> {
    if base.len() == 0 || base.last() == '/' {
        base + component
    } else {
        base + "/"@ + component
    }
}

/// `path` joined with `component`.
pub fn join_path(base: &str, component: &str) -> (r: String)
    ensures
        r@ == path_join(base@, component@),
{
    let cs = crate::text::chars_of(base);
    let mut r = string_from(base);
    if cs.len() > 0 && cs[cs.len() - 1] != '/' {
        push_str(&mut r, "/");
    }
    push_str(&mut r, component);
    r
}

/// The candidate places for a configuration file, in order: three fixed ones,
/// then one under the user's configuration directory, then two under the home
/// directory, each when that directory is known.
pub open spec fn config_path_candidates(config_dir: Option<Seq<char>>, home_dir: Option<Seq<char>>) -> Seq<Seq<char>> {
    seq!["ferrite.toml"@, "config/ferrite.toml"@, "/etc/ferrite/config.toml"@] + match config_dir {
        Some(c) => seq![path_join(path_join(c, "ferrite"@), "config.toml"@)],
        None => Seq::empty(),
    } + match home_dir {
        Some(h) => seq![
            path_join(path_join(path_join(h, ".config"@), "ferrite"@), "config.toml"@),
            path_join(h, ".ferrite.toml"@),
        ],
        None => Seq::empty(),
    }
}

/// The paths of `s` without repeats: each one once, where it first appears.
pub open spec fn without_repeats(s: Seq<Seq<char>>) -> Seq<Seq<char>>
    decreases s.len(),
{
    if s.len() == 0 {
        s
    } else if s.drop_last().contains(s.last()) {
        without_repeats(s.drop_last())
    } else {
        without_repeats(s.drop_last()).push(s.last())
    }
}

/// Leaving out repeats keeps every path.
pub proof fn lemma_without_repeats_contains(s: Seq<Seq<char>>, x: Seq<char>)
    ensures
        without_repeats(s).contains(x) == s.contains(x),
    decreases s.len(),
{
    if s.len() > 0 {
        lemma_without_repeats_contains(s.drop_last(), x);
        let w = without_repeats(s.drop_last());
        if s.contains(x) && !s.drop_last().contains(x) {
            let k = choose|k: int| 0 <= k < s.len() && s[k] == x;
            if k < s.len() - 1 {
                assert(s.drop_last()[k] == x);
            }
        }
        if s.drop_last().contains(x) {
            let k = choose|k: int| 0 <= k < s.drop_last().len() && s.drop_last()[k] == x;
            assert(s[k] == x);
        }
        if !s.drop_last().contains(s.last()) {
            assert(w.push(s.last())[w.len() as int] == s.last());
            if w.push(s.last()).contains(x) {
                let k = choose|k: int| 0 <= k < w.len() + 1 && w.push(s.last())[k] == x;
                if k < w.len() {
                    assert(w[k] == x);
                }
            }
            if w.contains(x) {
                let k = choose|k: int| 0 <= k < w.len() && w[k] == x;
                assert(w.push(s.last())[k] == x);
            }
        }
    }
}

/// No path repeats in a sequence without repeats.
proof fn lemma_without_repeats_unique(s: Seq<Seq<char>>)
    ensures
        without_repeats(s).no_duplicates(),
    decreases s.len(),
{
    if s.len() > 0 {
        lemma_without_repeats_unique(s.drop_last());
        lemma_without_repeats_contains(s.drop_last(), s.last());
        let w = without_repeats(s.drop_last());
        if !s.drop_last().contains(s.last()) {
            let v = w.push(s.last());
            assert forall|a: int, b: int| 0 <= a < v.len() && 0 <= b < v.len() && a != b implies v[a] != v[b] by {
                if a == w.len() {
                    assert(v[b] == w[b]);
                    if v[a] == v[b] {
                        assert(w.contains(s.last()));
                    }
                } else if b == w.len() {
                    assert(v[a] == w[a]);
                    if v[a] == v[b] {
                        assert(w.contains(s.last()));
                    }
                } else {
                    assert(v[a] == w[a] && v[b] == w[b]);
                }
            }
        }
    }
}

/// The places where a configuration file is looked for, in order, each once:
/// a candidate already listed (the configuration directory is often
/// `~/.config`) is not listed again.
pub open spec fn config_paths(config_dir: Option<Seq<char>>, home_dir: Option<Seq<char>>) -> Seq<Seq<char>> {
    without_repeats(config_path_candidates(config_dir, home_dir))
}

/// The search list names every candidate place, and none twice.
pub proof fn law_config_paths_each_once(config_dir: Option<Seq<char>>, home_dir: Option<Seq<char>>, p: Seq<char>)
    ensures
        config_paths(config_dir, home_dir).no_duplicates(),
        config_paths(config_dir, home_dir).contains(p) == config_path_candidates(config_dir, home_dir).contains(p),
{
    lemma_without_repeats_unique(config_path_candidates(config_dir, home_dir));
    lemma_without_repeats_contains(config_path_candidates(config_dir, home_dir), p);
}

/// Strings taken by their characters.
pub open spec fn paths_view(s: Seq<String>) -> Seq<Seq<char>> {
    s.map_values(|x: String| x@)
}

/// Whether `v` holds a string with the characters of `s`.
fn contains_path(v: &Vec<String>, s: &str) -> (r: bool)
    ensures
        r == paths_view(v@).contains(s@),
{
    let mut i: usize = 0;
    while i < v.len()
        invariant
            i <= v@.len(),
            forall|j: int| 0 <= j < i ==> #[trigger] paths_view(v@)[j] != s@,
        decreases v@.len() - i,
    {
        if str_eq(v[i].as_str(), s) {
            assert(paths_view(v@)[i as int] == s@);
            return true;
        }
        i = i + 1;
    }
    proof {
        if paths_view(v@).contains(s@) {
            let k = choose|k: int| 0 <= k < paths_view(v@).len() && paths_view(v@)[k] == s@;
            assert(paths_view(v@)[k] != s@);
        }
    }
    false
}

/// The candidate places, given the user's configuration and home directories.
fn config_path_candidates_from(config_dir: Option<String>, home_dir: Option<String>) -> (r: Vec<String>)
    ensures
        paths_view(r@) == config_path_candidates(
            match config_dir { Some(c) => Some(c@), None => None },
            match home_dir { Some(h) => Some(h@), None => None },
        ),
{
    let mut paths: Vec<String> = Vec::new();
    paths.push(string_from("ferrite.toml"));
    paths.push(string_from("config/ferrite.toml"));
    paths.push(string_from("/etc/ferrite/config.toml"));
    match &config_dir {
        Some(c) => {
            let d = join_path(c.as_str(), "ferrite");
            paths.push(join_path(d.as_str(), "config.toml"));
        },
        None => {},
    }
    match &home_dir {
        Some(h) => {
            let d1 = join_path(h.as_str(), ".config");
            let d2 = join_path(d1.as_str(), "ferrite");
            paths.push(join_path(d2.as_str(), "config.toml"));
            paths.push(join_path(h.as_str(), ".ferrite.toml"));
        },
        None => {},
    }
    proof {
        let cd = match config_dir { Some(c) => Some(c@), None => None };
        let hd = match home_dir { Some(h) => Some(h@), None => None };
        assert(paths_view(paths@) =~= config_path_candidates(cd, hd));
    }
    paths
}

/// The places where a configuration file is looked for, given the user's
/// configuration and home directories: the candidates in order, each once.
pub fn config_paths_from(config_dir: Option<String>, home_dir: Option<String>) -> (r: Vec<String>)
    ensures
        paths_view(r@) == config_paths(
            match config_dir { Some(c) => Some(c@), None => None },
            match home_dir { Some(h) => Some(h@), None => None },
        ),
{
    let candidates = config_path_candidates_from(config_dir, home_dir);
    let ghost cv = paths_view(candidates@);
    let mut paths: Vec<String> = Vec::new();
    let mut i: usize = 0;
    while i < candidates.len()
        invariant
            cv == paths_view(candidates@),
            i <= candidates@.len(),
            paths_view(paths@) == without_repeats(cv.take(i as int)),
        decreases candidates@.len() - i,
    {
        proof {
            let t = cv.take(i + 1);
            assert(t.drop_last() == cv.take(i as int));
            assert(t.last() == cv[i as int]);
            assert(cv[i as int] == candidates@[i as int]@);
            lemma_without_repeats_contains(cv.take(i as int), cv[i as int]);
        }
        if !contains_path(&paths, candidates[i].as_str()) {
            let ghost before = paths@;
            paths.push(candidates[i].clone());
            proof {
                assert(paths_view(paths@) =~= paths_view(before).push(cv[i as int]));
            }
        }
        i = i + 1;
    }
    proof {
        assert(cv.take(i as int) == cv);
    }
    paths
}

impl FerriteConfig {
    /// The places where a configuration file is looked for, for the user's
    /// configuration and home directories as the environment gives them.
    pub fn default_config_paths() -> (r: Vec<String>)
        ensures
            exists|c: Option<Seq<char>>, h: Option<Seq<char>>| paths_view(r@) == #[trigger] config_paths(c, h),
    {
        let config_dir = user_config_dir();
        let home_dir = user_home_dir();
        config_paths_from(config_dir, home_dir)
    }
}

} // verus!
