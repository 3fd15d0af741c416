//! The server's command line: peers given as `id=address`, and the overrides
//! that command-line options put on a loaded configuration.
use vstd::prelude::*;
use crate::config::{ConfigError, FerriteConfig, LoggingConfig, NodeConfig, NodeId, validation_error};
use crate::text::{chars_of, parse_u64, parse_u64_spec, push_chars, push_str, string_from, IntErrorKind};

verus! {

/// Why a peer argument does not parse.
#[derive(PartialEq, Eq, Structural, Clone, Copy, Debug)]
pub enum PeerParseError {
    /// It is not of the form `id=address`.
    Format,
    /// The id is not a number.
    InvalidId(IntErrorKind),
}

impl PeerParseError {
    /// How the error is displayed.
    pub open spec fn message(&self) -> Seq<char> {
        match self {
            PeerParseError::Format => "Peer format should be 'id=address'"@,
            PeerParseError::InvalidId(k) => k.message(),
        }
    }

    /// The error as displayed.
    pub fn to_string(&self) -> (r: String)
        ensures
            r@ == self.message(),
    {
        match self {
            PeerParseError::Format => string_from("Peer format should be 'id=address'"),
            PeerParseError::InvalidId(k) => k.to_string(),
        }
    }
}

/// The positions of `c` in `s`.
pub open spec fn positions_of(s: Seq<char>, c: char) -> Set<int> {
    Set::new(|i: int| 0 <= i < s.len() && s[i] == c)
}

/// What a peer argument gives: with exactly one `=`, the id before it (parsed
/// as `u64::from_str` does) and the address after it.
pub open spec fn parse_peer_spec(s: Seq<char>) -> Result<(NodeId, Seq<char>), PeerParseError> {
    if exists|k: int| positions_of(s, '=') == set![k] {
        let k = choose|k: int| positions_of(s, '=') == set![k];
        match parse_u64_spec(s.take(k)) {
            Ok(id) => Ok((id, s.skip(k + 1))),
            Err(e) => Err(PeerParseError::InvalidId(e)),
        }
    } else {
        Err(PeerParseError::Format)
    }
}

/// Parses a peer argument of the form `id=address`.
pub fn parse_peer(peer: &str) -> (r: Result<(NodeId, String), PeerParseError>)
    ensures
        match r {
            Ok((id, addr)) => parse_peer_spec(peer@) == Ok::<(NodeId, Seq<char>), PeerParseError>((id, addr@)),
            Err(e) => parse_peer_spec(peer@) == Err::<(NodeId, Seq<char>), PeerParseError>(e),
        },
{
    let cs = chars_of(peer);
    let mut count: usize = 0;
    let mut pos: usize = 0;
    let mut i: usize = 0;
    assert(positions_of(cs@, '=').filter(|j: int| j < 0) =~= Set::<int>::empty());
    while i < cs.len()
        invariant
            cs@ == peer@,
            i <= cs@.len(),
            count <= i,
            count == positions_of(cs@, '=').filter(|j: int| j < i).len(),
            positions_of(cs@, '=').filter(|j: int| j < i).finite(),
            count == 1 ==> pos < i && positions_of(cs@, '=').filter(|j: int| j < i) == set![pos as int],
            count == 0 ==> positions_of(cs@, '=').filter(|j: int| j < i) == Set::<int>::empty(),
        decreases cs@.len() - i,
    {
        let ghost before = positions_of(cs@, '=').filter(|j: int| j < i);
        let ghost after = positions_of(cs@, '=').filter(|j: int| j < i + 1);
        if cs[i] == '=' {
            proof {
                assert(after =~= before.insert(i as int));
                assert(!before.contains(i as int));
            }
            if count == 0 {
                pos = i;
            }
            count = count + 1;
        } else {
            proof {
                assert(after =~= before);
            }
        }
        i = i + 1;
    }
    proof {
        assert(positions_of(cs@, '=').filter(|j: int| j < i) =~= positions_of(cs@, '='));
    }
    if count != 1 {
        proof {
            if exists|k: int| positions_of(peer@, '=') == set![k] {
                let k = choose|k: int| positions_of(peer@, '=') == set![k];
                assert(set![k].len() == 1);
            }
        }
        return Err(PeerParseError::Format);
    }
    proof {
        assert(positions_of(peer@, '=') == set![pos as int]);
        let k = choose|k: int| positions_of(peer@, '=') == set![k];
        assert(set![k].contains(k));
        assert(set![pos as int].contains(k));
    }
    let mut id_chars: Vec<char> = Vec::new();
    let mut j: usize = 0;
    while j < pos
        invariant
            j <= pos < cs@.len(),
            id_chars@ == cs@.take(j as int),
        decreases pos - j,
    {
        proof {
            assert(cs@.take(j + 1) == cs@.take(j as int).push(cs@[j as int]));
        }
        id_chars.push(cs[j]);
        j = j + 1;
    }
    let rest = crate::text::chars_from(&cs, pos + 1);
    match parse_u64(&id_chars) {
        Ok(id) => {
            let mut addr = String::new();
            push_chars(&mut addr, &rest);
            Ok((id, addr))
        },
        Err(e) => Err(PeerParseError::InvalidId(e)),
    }
}

/// Values that command-line options put over the loaded configuration;
/// addresses are in canonical `ip:port` form.
#[derive(Debug)]
pub struct CliOverrides {
    pub id: Option<NodeId>,
    pub http_addr: Option<String>,
    pub grpc_addr: Option<String>,
    pub data_dir: Option<String>,
    pub log_level: Option<String>,
}

/// The configuration with the overrides put on it: each option that is given
/// replaces the field it names.
pub open spec fn overridden(config: FerriteConfig, o: CliOverrides) -> FerriteConfig {
    FerriteConfig {
        node: NodeConfig {
            id: match o.id {
                Some(id) => id,
                None => config.node.id,
            },
            http_addr: match o.http_addr {
                Some(a) => a,
                None => config.node.http_addr,
            },
            grpc_addr: match o.grpc_addr {
                Some(a) => a,
                None => config.node.grpc_addr,
            },
            data_dir: match o.data_dir {
                Some(d) => d,
                None => config.node.data_dir,
            },
            ..config.node
        },
        logging: LoggingConfig {
            level: match o.log_level {
                Some(l) => l,
                None => config.logging.level,
            },
            ..config.logging
        },
        ..config
    }
}

/// Puts the overrides on the configuration and validates the result: the
/// overridden configuration when it breaks no rule, else the validation error
/// of the first rule it breaks.
pub fn apply_overrides(config: FerriteConfig, overrides: CliOverrides) -> (r: Result<FerriteConfig, ConfigError>)
    ensures
        match r {
            Ok(c) => c == overridden(config, overrides) && exists|ok: bool| #[trigger] validation_error(c, ok) is None,
            Err(ConfigError::Validation(m)) => exists|ok: bool| #[trigger] validation_error(overridden(config, overrides), ok) == Some(m@),
            Err(_) => false,
        },
{
    let mut config = config;
    match overrides.id {
        Some(id) => config.node.id = id,
        None => {},
    }
    match overrides.http_addr {
        Some(a) => config.node.http_addr = a,
        None => {},
    }
    match overrides.grpc_addr {
        Some(a) => config.node.grpc_addr = a,
        None => {},
    }
    match overrides.data_dir {
        Some(d) => config.node.data_dir = d,
        None => {},
    }
    match overrides.log_level {
        Some(l) => config.logging.level = l,
        None => {},
    }
    match config.validate() {
        Ok(()) => Ok(config),
        Err(e) => Err(e),
    }
}

/// Each option that is given replaces the field it names, each option that
/// is not given keeps it, and every other part of the configuration is kept.
pub proof fn law_overrides_replace_named_fields(config: FerriteConfig, o: CliOverrides)
    ensures
        (o.id matches Some(id) ==> overridden(config, o).node.id == id),
        o.id is None ==> overridden(config, o).node.id == config.node.id,
        (o.http_addr matches Some(a) ==> overridden(config, o).node.http_addr == a),
        o.http_addr is None ==> overridden(config, o).node.http_addr == config.node.http_addr,
        (o.grpc_addr matches Some(a) ==> overridden(config, o).node.grpc_addr == a),
        o.grpc_addr is None ==> overridden(config, o).node.grpc_addr == config.node.grpc_addr,
        (o.data_dir matches Some(d) ==> overridden(config, o).node.data_dir == d),
        o.data_dir is None ==> overridden(config, o).node.data_dir == config.node.data_dir,
        (o.log_level matches Some(l) ==> overridden(config, o).logging.level == l),
        o.log_level is None ==> overridden(config, o).logging.level == config.logging.level,
        overridden(config, o).node.name == config.node.name,
        overridden(config, o).node.description == config.node.description,
        overridden(config, o).network == config.network,
        overridden(config, o).storage == config.storage,
        overridden(config, o).raft == config.raft,
        overridden(config, o).cluster == config.cluster,
        overridden(config, o).security == config.security,
        overridden(config, o).logging.format == config.logging.format,
        overridden(config, o).logging.structured == config.logging.structured,
        overridden(config, o).logging.file_path == config.logging.file_path,
        overridden(config, o).logging.max_file_size == config.logging.max_file_size,
        overridden(config, o).logging.max_files == config.logging.max_files,
        overridden(config, o).logging.enable_colors == config.logging.enable_colors,
{
}

} // verus!
