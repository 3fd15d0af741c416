use ferrium::cli::{apply_overrides, parse_peer, CliOverrides, PeerParseError};
use ferrium::config::{ConfigError, FerriteConfig};
use ferrium::text::IntErrorKind;

#[test]
fn test_parse_peer() {
    assert_eq!(
        parse_peer("1=127.0.0.1:8001").unwrap(),
        (1, "127.0.0.1:8001".to_string())
    );
    assert_eq!(
        parse_peer("2=127.0.0.1:8002").unwrap(),
        (2, "127.0.0.1:8002".to_string())
    );
    assert!(parse_peer("invalid").is_err());
    assert!(parse_peer("abc=127.0.0.1:8001").is_err());
}

#[test]
fn parse_peer_errors() {
    assert_eq!(parse_peer("1=a=b"), Err(PeerParseError::Format));
    assert_eq!(parse_peer("=addr"), Err(PeerParseError::InvalidId(IntErrorKind::Empty)));
    assert_eq!(parse_peer("x=addr"), Err(PeerParseError::InvalidId(IntErrorKind::InvalidDigit)));
    assert_eq!(
        parse_peer("18446744073709551616=addr"),
        Err(PeerParseError::InvalidId(IntErrorKind::PosOverflow))
    );
    assert_eq!(parse_peer("+7=h:1").unwrap(), (7, "h:1".to_string()));
    assert_eq!(parse_peer("18446744073709551615=").unwrap(), (u64::MAX, String::new()));
    assert_eq!(PeerParseError::Format.to_string(), "Peer format should be 'id=address'");
    assert_eq!(
        PeerParseError::InvalidId(IntErrorKind::InvalidDigit).to_string(),
        "invalid digit found in string"
    );
}

#[test]
fn overrides_replace_fields_and_validate() {
    let overrides = CliOverrides {
        id: Some(42),
        http_addr: Some("0.0.0.0:8080".to_string()),
        grpc_addr: None,
        data_dir: Some("/nvme/ferrite".to_string()),
        log_level: Some("debug".to_string()),
    };
    let config = apply_overrides(FerriteConfig::default(), overrides).unwrap();
    assert_eq!(config.node.id, 42);
    assert_eq!(config.node.http_addr, "0.0.0.0:8080");
    assert_eq!(config.node.grpc_addr, "127.0.0.1:9001");
    assert_eq!(config.node.data_dir, "/nvme/ferrite");
    assert_eq!(config.logging.level, "debug");

    let bad = CliOverrides { id: None, http_addr: None, grpc_addr: None, data_dir: None, log_level: Some("loud".to_string()) };
    assert!(matches!(apply_overrides(FerriteConfig::default(), bad), Err(ConfigError::Validation(_))));
}
