use kraken_cli::config::{
    config_dir_from, config_path, config_path_from, mask_string, path_join, read_secret_from_file, read_secret_from_stdin,
    reset_auth, resolve_futures_credentials, resolve_spot_credentials, AuthConfig,
    CredentialSource, KrakenConfig, SecretValue, SettingsConfig,
};
use kraken_cli::errors::KrakenError;

#[test]
fn secret_value_debug_is_redacted() {
    let secret = SecretValue::new("my_actual_secret".to_string());
    let debug_output = secret.to_debug_string();
    assert_eq!(debug_output, "[REDACTED]");
    assert!(!debug_output.contains("my_actual_secret"));
}

#[test]
fn secret_value_display_is_redacted() {
    let secret = SecretValue::new("my_actual_secret".to_string());
    let display_output = secret.to_string();
    assert_eq!(display_output, "[REDACTED]");
}

#[test]
fn mask_string_short() {
    assert_eq!(mask_string("abc"), "****");
}

#[test]
fn mask_string_long() {
    assert_eq!(mask_string("abcdefghij"), "abcd...ghij");
}

#[test]
fn auth_config_debug_masks_keys() {
    let auth = AuthConfig {
        api_key: Some("abcdefghijklmnop".into()),
        api_secret: Some("supersecret12345".into()),
        futures_api_key: Some("futureskey123456".into()),
        futures_api_secret: Some("futuresecret1234".into()),
    };
    let debug = auth.debug_string();
    assert!(
        !debug.contains("abcdefghijklmnop"),
        "api_key leaked in Debug: {debug}"
    );
    assert!(
        !debug.contains("supersecret12345"),
        "api_secret leaked in Debug: {debug}"
    );
    assert!(
        !debug.contains("futureskey123456"),
        "futures_api_key leaked in Debug: {debug}"
    );
    assert!(
        !debug.contains("futuresecret1234"),
        "futures_api_secret leaked in Debug: {debug}"
    );
    assert!(
        debug.contains("abcd...mnop"),
        "api_key should be masked: {debug}"
    );
    assert!(
        debug.contains("[REDACTED]"),
        "secrets should be redacted: {debug}"
    );
}

#[test]
fn config_path_resolves_to_config_toml() {
    let path = String::from_utf8(
        config_path().expect("config_path() should succeed on any desktop OS"),
    )
    .expect("config path should be valid UTF-8 here");
    assert!(
        path.ends_with("config.toml"),
        "config path should end with config.toml, got: {}",
        path
    );
    let parent = std::path::Path::new(&path)
        .parent()
        .expect("config path should have a parent dir");
    assert!(
        parent.ends_with("kraken"),
        "config dir should end with 'kraken', got: {}",
        parent.display()
    );
}

#[test]
fn config_path_display_is_valid_string() {
    let display = config_path()
        .map(|p| String::from_utf8_lossy(&p).into_owned())
        .unwrap_or_else(|_| "the kraken config file".into());
    assert!(!display.is_empty(), "display string should not be empty");
    assert!(
        display.contains("kraken"),
        "display string should contain 'kraken', got: {display}"
    );
}

#[test]
fn auth_config_debug_exact_text() {
    let auth = AuthConfig {
        api_key: Some("abcdefghijklmnop".into()),
        api_secret: Some("supersecret12345".into()),
        futures_api_key: None,
        futures_api_secret: None,
    };
    assert_eq!(
        auth.debug_string(),
        "AuthConfig { api_key: Some(\"abcd...mnop\"), api_secret: Some(\"[REDACTED]\"), futures_api_key: None, futures_api_secret: None }"
    );
}

#[test]
fn auth_config_debug_escapes_like_std() {
    let auth = AuthConfig {
        api_key: Some("ab\"d1234567wx\\z".into()),
        api_secret: None,
        futures_api_key: Some("short".into()),
        futures_api_secret: Some("s".into()),
    };
    let expected = format!(
        "AuthConfig {{ api_key: Some({:?}), api_secret: None, futures_api_key: Some({:?}), futures_api_secret: Some({:?}) }}",
        "ab\"d...wx\\z", "****", "[REDACTED]"
    );
    assert_eq!(auth.debug_string(), expected);
}

#[test]
fn mask_string_boundaries() {
    assert_eq!(mask_string(""), "****");
    assert_eq!(mask_string("12345678"), "****");
    assert_eq!(mask_string("123456789"), "1234...6789");
    assert_eq!(mask_string("\u{e4}\u{f6}\u{fc}\u{df}\u{e9}\u{e8}\u{ea}\u{eb}\u{ef}\u{ee}"), "\u{e4}\u{f6}\u{fc}\u{df}...\u{ea}\u{eb}\u{ef}\u{ee}");
}

#[test]
fn secret_value_expose_returns_value() {
    let secret = SecretValue::new("topsecret".to_string());
    assert_eq!(secret.expose(), "topsecret");
}

#[test]
fn credential_source_display() {
    assert_eq!(CredentialSource::Flag.to_string(), "command-line flag");
    assert_eq!(CredentialSource::Env.to_string(), "environment variable");
    assert_eq!(CredentialSource::Config.to_string(), "config file");
}

#[test]
fn path_join_cases() {
    assert_eq!(path_join(b"/home/u/.config", b"kraken"), b"/home/u/.config/kraken".to_vec());
    assert_eq!(path_join(b"/home/u/.config/", b"kraken"), b"/home/u/.config/kraken".to_vec());
    assert_eq!(path_join(b"", b"kraken"), b"kraken".to_vec());
    let std_joined = std::path::Path::new("/a/b").join("c");
    assert_eq!(path_join(b"/a/b", b"c"), std_joined.to_str().unwrap().as_bytes().to_vec());
}

#[test]
fn config_locations_from_base() {
    assert_eq!(
        config_dir_from(Some(b"/home/u/.config".to_vec())).unwrap(),
        b"/home/u/.config/kraken".to_vec()
    );
    assert_eq!(
        config_path_from(Some(b"/x/".to_vec())).unwrap(),
        b"/x/kraken/config.toml".to_vec()
    );
    let raw = vec![b'/', 0xff, 0xfe];
    let mut expected = raw.clone();
    expected.extend_from_slice(b"/kraken/config.toml");
    assert_eq!(config_path_from(Some(raw)).unwrap(), expected);
    match config_path_from(None) {
        Err(KrakenError::Config(m)) => assert_eq!(m, "Cannot determine config directory"),
        _ => panic!("expected a config error"),
    }
}

fn config_with(key: Option<&str>, secret: Option<&str>, fkey: Option<&str>, fsecret: Option<&str>) -> KrakenConfig {
    KrakenConfig {
        auth: AuthConfig {
            api_key: key.map(|s| s.to_string()),
            api_secret: secret.map(|s| s.to_string()),
            futures_api_key: fkey.map(|s| s.to_string()),
            futures_api_secret: fsecret.map(|s| s.to_string()),
        },
        settings: SettingsConfig {
            default_pair: Some("XBTUSD".to_string()),
            output: None,
        },
    }
}

#[test]
fn reset_auth_keeps_settings() {
    let cfg = config_with(Some("k"), Some("s"), Some("fk"), Some("fs"));
    let reset = reset_auth(cfg);
    assert!(reset.auth.api_key.is_none());
    assert!(reset.auth.api_secret.is_none());
    assert!(reset.auth.futures_api_key.is_none());
    assert!(reset.auth.futures_api_secret.is_none());
    assert_eq!(reset.settings.default_pair.as_deref(), Some("XBTUSD"));
}

#[test]
fn spot_flags_take_precedence() {
    let (r, warnings) = resolve_spot_credentials(
        Some("flagkey"),
        Some("flagsecret"),
        Some("envkey".to_string()),
        Some("envsecret".to_string()),
        Ok(config_with(Some("cfgkey"), Some("cfgsecret"), None, None)),
    );
    let creds = r.unwrap();
    assert_eq!(creds.api_key, "flagkey");
    assert_eq!(creds.api_secret.expose(), "flagsecret");
    assert_eq!(creds.source, CredentialSource::Flag);
    assert!(warnings.is_empty());
}

#[test]
fn spot_env_used_when_flags_incomplete() {
    let (r, warnings) = resolve_spot_credentials(
        Some("flagkey"),
        None,
        Some("envkey".to_string()),
        Some("envsecret".to_string()),
        Ok(config_with(Some("cfgkey"), Some("cfgsecret"), None, None)),
    );
    let creds = r.unwrap();
    assert_eq!(creds.api_key, "envkey");
    assert_eq!(creds.api_secret.expose(), "envsecret");
    assert_eq!(creds.source, CredentialSource::Env);
    assert_eq!(
        warnings,
        vec!["--api-key provided without --api-secret (or --api-secret-stdin/--api-secret-file). Flag credentials ignored, falling back to env/config.".to_string()]
    );
}

#[test]
fn spot_config_used_last_with_both_warnings() {
    let (r, warnings) = resolve_spot_credentials(
        None,
        Some("flagsecret"),
        None,
        Some("envsecret".to_string()),
        Ok(config_with(Some("cfgkey"), Some("cfgsecret"), None, None)),
    );
    let creds = r.unwrap();
    assert_eq!(creds.api_key, "cfgkey");
    assert_eq!(creds.api_secret.expose(), "cfgsecret");
    assert_eq!(creds.source, CredentialSource::Config);
    assert_eq!(
        warnings,
        vec![
            "--api-secret provided without --api-key. Flag credentials ignored, falling back to env/config.".to_string(),
            "KRAKEN_API_SECRET is set but KRAKEN_API_KEY is missing \u{2014} env credentials ignored, falling back to config.".to_string(),
        ]
    );
}

#[test]
fn spot_missing_credentials_is_auth_error() {
    let (r, warnings) = resolve_spot_credentials(
        None,
        None,
        Some("envkey".to_string()),
        None,
        Ok(config_with(Some("cfgkey"), None, Some("fk"), Some("fs"))),
    );
    match r {
        Err(KrakenError::Auth(m)) => assert_eq!(
            m,
            "No Spot API credentials found. Use `kraken auth set` or set KRAKEN_API_KEY / KRAKEN_API_SECRET env vars."
        ),
        _ => panic!("expected an auth error"),
    }
    assert_eq!(
        warnings,
        vec!["KRAKEN_API_KEY is set but KRAKEN_API_SECRET is missing \u{2014} env credentials ignored, falling back to config.".to_string()]
    );
}

#[test]
fn config_error_reported_only_when_needed() {
    let (r, _) = resolve_spot_credentials(
        None,
        None,
        None,
        None,
        Err(KrakenError::Config("TOML parse error: bad".to_string())),
    );
    match r {
        Err(KrakenError::Config(m)) => assert_eq!(m, "TOML parse error: bad"),
        _ => panic!("expected the config error"),
    }
    let (r, _) = resolve_spot_credentials(
        Some("k"),
        Some("s"),
        None,
        None,
        Err(KrakenError::Config("TOML parse error: bad".to_string())),
    );
    assert_eq!(r.unwrap().source, CredentialSource::Flag);
}

#[test]
fn futures_resolution_uses_futures_fields() {
    let (r, warnings) = resolve_futures_credentials(
        None,
        None,
        None,
        None,
        Ok(config_with(Some("k"), Some("s"), Some("fk"), Some("fs"))),
    );
    let creds = r.unwrap();
    assert_eq!(creds.api_key, "fk");
    assert_eq!(creds.api_secret.expose(), "fs");
    assert_eq!(creds.source, CredentialSource::Config);
    assert!(warnings.is_empty());
    let (r, warnings) = resolve_futures_credentials(
        Some("k"),
        None,
        None,
        None,
        Ok(config_with(Some("k"), Some("s"), None, None)),
    );
    match r {
        Err(KrakenError::Auth(m)) => assert_eq!(
            m,
            "No Futures API credentials found. Use `kraken setup` or set KRAKEN_FUTURES_API_KEY / KRAKEN_FUTURES_API_SECRET env vars."
        ),
        _ => panic!("expected an auth error"),
    }
    assert_eq!(
        warnings,
        vec!["--api-key provided without --api-secret for Futures. Flag credentials ignored, falling back to env/config.".to_string()]
    );
}

#[test]
fn secret_from_stdin_is_trimmed() {
    let s = read_secret_from_stdin("  mysecret \n", 12).unwrap();
    assert_eq!(s.expose(), "mysecret");
    match read_secret_from_stdin("", 0) {
        Err(KrakenError::Auth(m)) => assert_eq!(
            m,
            "Empty secret received from stdin \u{2014} did you forget to pipe input?"
        ),
        _ => panic!("expected an auth error"),
    }
    assert!(read_secret_from_stdin(" \t\n", 3).is_err());
}

#[test]
fn secret_from_file_is_trimmed() {
    let s = read_secret_from_file("\u{3000}abc\r\n", "/tmp/secret").unwrap();
    assert_eq!(s.expose(), "abc");
    match read_secret_from_file("\n\n", "/tmp/secret") {
        Err(KrakenError::Auth(m)) => assert_eq!(m, "Empty secret read from file: /tmp/secret"),
        _ => panic!("expected an auth error"),
    }
}

#[test]
fn auth_debug_text_from_quoted_fields() {
    assert_eq!(
        kraken_cli::config::auth_debug_text_of(Some("\"abcd...mnop\""), None, None, Some("\"[REDACTED]\"")),
        "AuthConfig { api_key: Some(\"abcd...mnop\"), api_secret: None, futures_api_key: None, futures_api_secret: Some(\"[REDACTED]\") }"
    );
}
