//! The cause partition over all variants, and the three upstream conversions.

use pumpfun::error::{AnyError, ClientError, ClientResult, ErrorSource};

fn io_err(msg: &str) -> std::io::Error {
    std::io::Error::new(std::io::ErrorKind::Other, msg)
}

fn rpc_err_io(msg: &str) -> solana_rpc_client_api::client_error::Error {
    solana_rpc_client_api::client_error::Error {
        request: None,
        kind: Box::new(solana_rpc_client_api::client_error::ErrorKind::Io(io_err(msg))),
    }
}

#[test]
fn source_partition_over_all_variants() {
    let wrapping = vec![
        ClientError::BorshError(io_err("short read")),
        ClientError::SolanaClientError(rpc_err_io("refused")),
        ClientError::UploadMetadataError(AnyError::from_text("gateway".to_string())),
        ClientError::AnchorClientError(AnyError::from_text("program".to_string())),
    ];
    for e in &wrapping {
        assert!(e.source().is_some());
    }
    let plain = vec![
        ClientError::BondingCurveNotFound,
        ClientError::BondingCurveError("m"),
        ClientError::InvalidInput("m"),
        ClientError::InsufficientFunds,
        ClientError::SimulationError("m".to_string()),
        ClientError::RateLimitExceeded,
        ClientError::Solana("l".to_string(), "d".to_string()),
        ClientError::Parse("l".to_string(), "d".to_string()),
        ClientError::Join("m".to_string()),
        ClientError::Subscribe("l".to_string(), "d".to_string()),
        ClientError::Send("l".to_string(), "d".to_string()),
        ClientError::Other("m".to_string()),
        ClientError::Timeout("l".to_string(), "d".to_string()),
        ClientError::Duplicate("m".to_string()),
        ClientError::InvalidEventType,
        ClientError::ChannelClosed,
    ];
    for e in &plain {
        assert!(e.source().is_none());
    }
}

#[test]
fn source_hands_back_the_wrapped_error() {
    let e = ClientError::BorshError(io_err("short read"));
    match e.source() {
        Some(ErrorSource::Borsh(io)) => assert_eq!(io.to_string(), "short read"),
        _ => panic!("expected the wrapped I/O error"),
    }
    let e = ClientError::SolanaClientError(rpc_err_io("refused"));
    match e.source() {
        Some(ErrorSource::SolanaClient(rpc)) => assert_eq!(rpc.to_string(), "refused"),
        _ => panic!("expected the wrapped RPC error"),
    }
    let e = ClientError::UploadMetadataError(AnyError::from_text("gateway down".to_string()));
    match e.source() {
        Some(ErrorSource::UploadMetadata(any)) => assert_eq!(any.text(), "gateway down"),
        _ => panic!("expected the wrapped upload error"),
    }
    let e = ClientError::AnchorClientError(AnyError::from_text("bad seed".to_string()));
    match e.source() {
        Some(ErrorSource::AnchorClient(any)) => assert_eq!(any.text(), "bad seed"),
        _ => panic!("expected the wrapped program-client error"),
    }
}

#[test]
fn rpc_client_error_converts_to_labeled_solana_failure() {
    let upstream = rpc_err_io("connection refused");
    let e = ClientError::from_solana_client_error(upstream);
    match &e {
        ClientError::Solana(label, details) => {
            assert_eq!(label.as_str(), "Solana client error");
            assert_eq!(details.as_str(), "connection refused");
        }
        _ => panic!("expected the Solana variant"),
    }
    assert_eq!(
        e.render(),
        "Solana error: Solana client error, details: connection refused"
    );
}

#[test]
fn rpc_client_error_converts_through_from() {
    let e = ClientError::from(rpc_err_io("connection refused"));
    assert!(matches!(e, ClientError::Solana(..)));
}

#[test]
fn pubsub_client_error_converts_to_labeled_solana_failure() {
    let upstream =
        solana_pubsub_client::pubsub_client::PubsubClientError::RequestError("boom".to_string());
    let e = ClientError::from_pubsub_client_error(upstream);
    match &e {
        ClientError::Solana(label, details) => {
            assert_eq!(label.as_str(), "PubSub client error");
            assert_eq!(details.as_str(), "request error: boom");
        }
        _ => panic!("expected the Solana variant"),
    }
    let upstream =
        solana_pubsub_client::pubsub_client::PubsubClientError::RequestError("boom".to_string());
    let e = ClientError::from(upstream);
    assert_eq!(
        e.render(),
        "Solana error: PubSub client error, details: request error: boom"
    );
}

/// A reader that fails at once, to make `serde_json` report an I/O-category
/// error whose rendering is exactly the reader's message.
struct FailingReader(&'static str);

impl std::io::Read for FailingReader {
    fn read(&mut self, _buf: &mut [u8]) -> std::io::Result<usize> {
        Err(std::io::Error::new(std::io::ErrorKind::Other, self.0))
    }
}

fn json_err(msg: &'static str) -> serde_json::Error {
    serde_json::from_reader::<_, serde_json::Value>(FailingReader(msg))
        .expect_err("the reader always fails")
}

#[test]
fn json_error_converts_to_labeled_parse_failure() {
    let e = ClientError::from_json_error(json_err("unexpected end of input"));
    match &e {
        ClientError::Parse(label, details) => {
            assert_eq!(label.as_str(), "JSON serialization error");
            assert_eq!(details.as_str(), "unexpected end of input");
        }
        _ => panic!("expected the Parse variant"),
    }
    let e = ClientError::from(json_err("unexpected end of input"));
    assert_eq!(
        e.render(),
        "Parse error: JSON serialization error, details: unexpected end of input"
    );
}

#[test]
fn client_result_carries_the_taxonomy() {
    fn lookup(found: bool) -> ClientResult<u64> {
        if found {
            Ok(42)
        } else {
            Err(ClientError::BondingCurveNotFound)
        }
    }
    assert_eq!(lookup(true).unwrap(), 42);
    let e = lookup(false).unwrap_err();
    assert_eq!(e.render(), "Bonding curve not found");
}
