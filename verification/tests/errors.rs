use kraken_cli::errors::{ErrorCategory, KrakenError};

#[test]
fn category_names() {
    assert_eq!(ErrorCategory::Api.as_str(), "api");
    assert_eq!(ErrorCategory::Auth.as_str(), "auth");
    assert_eq!(ErrorCategory::Network.as_str(), "network");
    assert_eq!(ErrorCategory::RateLimit.as_str(), "rate_limit");
    assert_eq!(ErrorCategory::Validation.as_str(), "validation");
    assert_eq!(ErrorCategory::Config.as_str(), "config");
    assert_eq!(ErrorCategory::WebSocket.as_str(), "websocket");
    assert_eq!(ErrorCategory::Io.as_str(), "io");
    assert_eq!(ErrorCategory::Parse.to_string(), "parse");
}

#[test]
fn rate_limit_strings_are_rate_limit_errors() {
    let e = KrakenError::from_kraken_error("EAPI:Rate limit exceeded");
    assert!(matches!(&e, KrakenError::RateLimit(m) if m == "EAPI:Rate limit exceeded"));
    assert_eq!(e.category(), ErrorCategory::RateLimit);
    let e = KrakenError::from_kraken_error("EService:Throttled: 1700000000");
    assert_eq!(e.category(), ErrorCategory::RateLimit);
}

#[test]
fn key_strings_are_auth_errors() {
    let e = KrakenError::from_kraken_error("EAPI:Invalid key");
    assert!(matches!(&e, KrakenError::Auth(m) if m == "EAPI:Invalid key"));
    assert_eq!(e.category(), ErrorCategory::Auth);
    let e = KrakenError::from_kraken_error("EGeneral:Permission denied");
    assert_eq!(e.category(), ErrorCategory::Auth);
}

#[test]
fn other_strings_are_api_errors() {
    let e = KrakenError::from_kraken_error("EOrder:Insufficient funds");
    match &e {
        KrakenError::Api { category, message } => {
            assert_eq!(*category, ErrorCategory::Api);
            assert_eq!(message, "EOrder:Insufficient funds");
        }
        _ => panic!("expected an api error"),
    }
    assert_eq!(e.category(), ErrorCategory::Api);
    assert_eq!(KrakenError::from_kraken_error("EAPI:Rate").category(), ErrorCategory::Api);
}

#[test]
fn categories_of_variants() {
    assert_eq!(KrakenError::Network("x".into()).category(), ErrorCategory::Network);
    assert_eq!(KrakenError::Validation("x".into()).category(), ErrorCategory::Validation);
    assert_eq!(KrakenError::Config("x".into()).category(), ErrorCategory::Config);
    assert_eq!(KrakenError::WebSocket("x".into()).category(), ErrorCategory::WebSocket);
    assert_eq!(KrakenError::Parse("x".into()).category(), ErrorCategory::Parse);
    let io = std::io::Error::new(std::io::ErrorKind::NotFound, "missing");
    assert_eq!(KrakenError::Io(io).category(), ErrorCategory::Io);
    assert_eq!(
        KrakenError::Other(anyhow::Error::msg("boom")).category(),
        ErrorCategory::Api
    );
}

#[test]
fn error_messages() {
    assert_eq!(
        KrakenError::Auth("bad key".into()).to_string(),
        "Authentication failed: bad key"
    );
    assert_eq!(KrakenError::Network("down".into()).to_string(), "Network error: down");
    assert_eq!(
        KrakenError::RateLimit("slow".into()).to_string(),
        "Rate limit exceeded: slow"
    );
    assert_eq!(
        KrakenError::Validation("v".into()).to_string(),
        "Validation error: v"
    );
    assert_eq!(KrakenError::Config("c".into()).to_string(), "Configuration error: c");
    assert_eq!(KrakenError::WebSocket("w".into()).to_string(), "WebSocket error: w");
    assert_eq!(KrakenError::Parse("p".into()).to_string(), "Parse error: p");
    assert_eq!(
        KrakenError::Api {
            category: ErrorCategory::Api,
            message: "EGeneral:Internal error".into()
        }
        .to_string(),
        "EGeneral:Internal error"
    );
    let io = std::io::Error::new(std::io::ErrorKind::NotFound, "missing");
    assert_eq!(KrakenError::Io(io).to_string(), "I/O error: missing");
}

#[test]
fn wrapped_error_messages() {
    assert_eq!(KrakenError::Other(anyhow::Error::msg("boom")).to_string(), "boom");
    let io = std::io::Error::new(std::io::ErrorKind::Other, "disk full");
    assert_eq!(KrakenError::Io(io).to_string(), "I/O error: disk full");
}
