use kraken_cli::commands::auth::{
    futures_secret_source, nonempty_secret, set_credentials, show_fields, spot_secret_source,
    SecretSource,
};
use kraken_cli::config::{AuthConfig, KrakenConfig, SettingsConfig};
use kraken_cli::errors::KrakenError;

fn given(src: SecretSource) -> (String, Option<String>) {
    match src {
        SecretSource::Given { secret, warning } => (secret, warning),
        _ => panic!("expected a given secret"),
    }
}

#[test]
fn spot_secret_precedence() {
    let (s, w) = given(spot_secret_source(Some("global".into()), Some("flag".into()), true));
    assert_eq!(s, "global");
    assert!(w.is_none());
    let (s, w) = given(spot_secret_source(None, Some("flag".into()), false));
    assert_eq!(s, "flag");
    assert!(w.unwrap().starts_with("Passing --api-secret on the command line"));
    match spot_secret_source(None, None, true) {
        SecretSource::Refused(KrakenError::Validation(m)) => assert_eq!(
            m,
            "API secret is required for auth set in non-interactive mode. Provide --api-secret, --api-secret-stdin, or --api-secret-file."
        ),
        _ => panic!("expected a refusal"),
    }
    assert!(matches!(spot_secret_source(None, None, false), SecretSource::Prompt(p) if p == "API Secret"));
}

#[test]
fn futures_secret_precedence() {
    assert!(matches!(
        futures_secret_source(true, None, Some("x".into()), false),
        SecretSource::ReadStdin
    ));
    assert!(matches!(
        futures_secret_source(true, None, None, true),
        SecretSource::Refused(KrakenError::Validation(_))
    ));
    match futures_secret_source(false, Some("/tmp/f".into()), Some("x".into()), true) {
        SecretSource::ReadFile(p) => assert_eq!(p, std::path::PathBuf::from("/tmp/f")),
        _ => panic!("expected a file"),
    }
    let (s, w) = given(futures_secret_source(false, None, Some("fs".into()), false));
    assert_eq!(s, "fs");
    assert!(w.unwrap().starts_with("Passing --futures-api-secret"));
    assert!(matches!(
        futures_secret_source(false, None, None, true),
        SecretSource::Refused(KrakenError::Validation(_))
    ));
    assert!(matches!(
        futures_secret_source(false, None, None, false),
        SecretSource::Prompt(p) if p == "Futures API Secret"
    ));
}

#[test]
fn empty_secrets_are_refused() {
    assert_eq!(nonempty_secret("s".into(), false).unwrap(), "s");
    match nonempty_secret(String::new(), false) {
        Err(KrakenError::Auth(m)) => assert_eq!(m, "Cannot save an empty API secret."),
        _ => panic!("expected an auth error"),
    }
    match nonempty_secret(String::new(), true) {
        Err(KrakenError::Auth(m)) => assert_eq!(m, "Cannot save an empty Futures API secret."),
        _ => panic!("expected an auth error"),
    }
}

fn sample() -> KrakenConfig {
    KrakenConfig {
        auth: AuthConfig {
            api_key: None,
            api_secret: None,
            futures_api_key: Some("oldfk".into()),
            futures_api_secret: Some("oldfs".into()),
        },
        settings: SettingsConfig {
            default_pair: Some("XBTUSD".into()),
            output: Some("json".into()),
        },
    }
}

#[test]
fn set_credentials_updates_only_given_fields() {
    let cfg = set_credentials(sample(), "k".into(), "s".into(), None);
    assert_eq!(cfg.auth.api_key.as_deref(), Some("k"));
    assert_eq!(cfg.auth.api_secret.as_deref(), Some("s"));
    assert_eq!(cfg.auth.futures_api_key.as_deref(), Some("oldfk"));
    assert_eq!(cfg.auth.futures_api_secret.as_deref(), Some("oldfs"));
    assert_eq!(cfg.settings.output.as_deref(), Some("json"));
    let cfg = set_credentials(sample(), "k".into(), "s".into(), Some(("fk".into(), "fs".into())));
    assert_eq!(cfg.auth.futures_api_key.as_deref(), Some("fk"));
    assert_eq!(cfg.auth.futures_api_secret.as_deref(), Some("fs"));
}

#[test]
fn show_masks_the_secret() {
    let auth = AuthConfig {
        api_key: Some("mykey".into()),
        api_secret: Some("abcdefghijklmnop".into()),
        futures_api_key: None,
        futures_api_secret: None,
    };
    let (k, s, f) = show_fields(&auth);
    assert_eq!(k, "mykey");
    assert_eq!(s, "abcd...mnop");
    assert_eq!(f, "(not set)");
    let empty = AuthConfig::default();
    assert_eq!(show_fields(&empty).1, "(not set)");
}
