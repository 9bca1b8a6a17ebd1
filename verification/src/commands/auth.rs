//! `kraken auth` subcommands: set, show, test, reset.
//!
//! The decisions of `auth set` (where each secret comes from, which inputs
//! are refused) and what `auth show` displays. Prompting, reading stdin or
//! files, and the config file itself are handled by the caller.
use vstd::prelude::*;

use crate::config::{is_auth_error, mask_spec, mask_string, opt_view, AuthConfig, KrakenConfig};
use crate::errors::{KrakenError, Result};

verus! {

broadcast use vstd::string::group_string_axioms;

/// `std::path::PathBuf`, the path of a file holding a secret.
#[verifier::external_type_specification]
#[verifier::external_body]
pub struct ExPathBuf(std::path::PathBuf);

pub enum AuthCommand {
    /// Save API credentials to the config file.
    ///
    /// The API secret is resolved via the global `--api-secret-stdin`,
    /// `--api-secret-file`, or `--api-secret` flags. If none are provided,
    /// an interactive prompt is shown. Pass `--api-secret` directly here
    /// as a last resort (it exposes the secret in process listings).
    SetCredentials {
        /// Kraken API key.
        api_key: String,
        /// Kraken API secret (prefer global --api-secret-stdin for security).
        api_secret: Option<String>,
        /// Kraken Futures API key (optional).
        futures_api_key: Option<String>,
        /// Kraken Futures API secret (prefer --futures-api-secret-stdin for security).
        futures_api_secret: Option<String>,
        /// Read Futures API secret from stdin.
        futures_api_secret_stdin: bool,
        /// Path to file containing Futures API secret.
        futures_api_secret_file: Option<std::path::PathBuf>,
    },
    /// Show configured API key (secret is masked).
    Show,
    /// Test authentication by calling the Balance endpoint.
    Test,
    /// Delete stored credentials.
    Reset,
}

/// Where a secret for `auth set` comes from.
pub enum SecretSource {
    /// Given on the command line or by a global secret flag; `warning` is
    /// printed first when it was passed in plain text.
    Given { secret: String, warning: Option<String> },
    /// Read one line from stdin.
    ReadStdin,
    /// Read from this file.
    ReadFile(std::path::PathBuf),
    /// Asked for interactively with this prompt.
    Prompt(String),
    /// Refused with this error.
    Refused(KrakenError),
}

/// The warning for an API secret passed in plain text on the command line.
pub open spec fn spot_flag_warning() -> Seq<char> {
    "Passing --api-secret on the command line exposes it in process listings. Prefer --api-secret-stdin, --api-secret-file, or `kraken setup` for interactive entry."@
}

/// The refusal of an interactive prompt for the API secret in MCP mode.
pub open spec fn spot_noninteractive_text() -> Seq<char> {
    "API secret is required for auth set in non-interactive mode. Provide --api-secret, --api-secret-stdin, or --api-secret-file."@
}

/// The warning for a Futures API secret passed in plain text.
pub open spec fn futures_flag_warning() -> Seq<char> {
    "Passing --futures-api-secret on the command line exposes it in process listings. Prefer --futures-api-secret-stdin, --futures-api-secret-file, or `kraken setup` for interactive entry."@
}

/// The refusal to read the Futures API secret from stdin in MCP mode.
pub open spec fn futures_stdin_refusal_text() -> Seq<char> {
    "Cannot read Futures API secret from stdin in MCP mode (stdin is the JSON-RPC transport). Provide --futures-api-secret or --futures-api-secret-file instead."@
}

/// The refusal of an interactive prompt for the Futures API secret in MCP mode.
pub open spec fn futures_noninteractive_text() -> Seq<char> {
    "Futures API secret is required for auth set in non-interactive mode. Provide --futures-api-secret, --futures-api-secret-stdin, or --futures-api-secret-file."@
}

/// `e` is a validation error with message `msg`.
pub open spec fn is_validation_error(e: KrakenError, msg: Seq<char>) -> bool {
    e matches KrakenError::Validation(m) && m@ == msg
}

/// The source is a secret given with the optional warning `warning`.
pub open spec fn is_given(src: SecretSource, secret: Seq<char>, warning: Option<Seq<char>>) -> bool {
    match src {
        SecretSource::Given { secret: s, warning: w } => s@ == secret && opt_view(w) == warning,
        _ => false,
    }
}

/// The source is an interactive prompt with the text `prompt`.
pub open spec fn is_prompt(src: SecretSource, prompt: Seq<char>) -> bool {
    src matches SecretSource::Prompt(p) && p@ == prompt
}

/// The source is a refusal with a validation error with message `msg`.
pub open spec fn is_refusal(src: SecretSource, msg: Seq<char>) -> bool {
    src matches SecretSource::Refused(e) && is_validation_error(e, msg)
}

/// Where the API secret of `auth set` comes from, in this order: the secret
/// of the global flags (`--api-secret-stdin`, `--api-secret-file`,
/// `--api-secret`), then `auth set --api-secret` (with a warning), then,
/// outside MCP mode, an interactive prompt; MCP mode refuses to prompt.
pub fn spot_secret_source(global_secret: Option<String>, flag_secret: Option<String>, mcp_mode: bool) -> (src: SecretSource)
    ensures
        global_secret matches Some(s) ==> is_given(src, s@, None),
        global_secret is None && flag_secret is Some ==> is_given(
            src,
            flag_secret->0@,
            Some(spot_flag_warning()),
        ),
        global_secret is None && flag_secret is None && mcp_mode ==> is_refusal(
            src,
            spot_noninteractive_text(),
        ),
        global_secret is None && flag_secret is None && !mcp_mode ==> is_prompt(
            src,
            "API Secret"@,
        ),
{
    if let Some(s) = global_secret {
        SecretSource::Given { secret: s, warning: None }
    } else if let Some(s) = flag_secret {
        SecretSource::Given {
            secret: s,
            warning: Some(
                String::from_str(
                    "Passing --api-secret on the command line exposes it in process listings. Prefer --api-secret-stdin, --api-secret-file, or `kraken setup` for interactive entry.",
                ),
            ),
        }
    } else if mcp_mode {
        SecretSource::Refused(
            KrakenError::Validation(
                String::from_str(
                    "API secret is required for auth set in non-interactive mode. Provide --api-secret, --api-secret-stdin, or --api-secret-file.",
                ),
            ),
        )
    } else {
        SecretSource::Prompt(String::from_str("API Secret"))
    }
}

/// Where the Futures API secret of `auth set` comes from, in this order:
/// stdin (refused in MCP mode, where stdin is the JSON-RPC transport), a
/// file, `--futures-api-secret` (with a warning), then, outside MCP mode, an
/// interactive prompt; MCP mode refuses to prompt.
pub fn futures_secret_source(
    from_stdin: bool,
    file: Option<std::path::PathBuf>,
    flag_secret: Option<String>,
    mcp_mode: bool,
) -> (src: SecretSource)
    ensures
        from_stdin && mcp_mode ==> is_refusal(src, futures_stdin_refusal_text()),
        from_stdin && !mcp_mode ==> src is ReadStdin,
        !from_stdin && file is Some ==> src == SecretSource::ReadFile(file->0),
        !from_stdin && file is None && flag_secret is Some ==> is_given(
            src,
            flag_secret->0@,
            Some(futures_flag_warning()),
        ),
        !from_stdin && file is None && flag_secret is None && mcp_mode ==> is_refusal(
            src,
            futures_noninteractive_text(),
        ),
        !from_stdin && file is None && flag_secret is None && !mcp_mode ==> is_prompt(
            src,
            "Futures API Secret"@,
        ),
{
    if from_stdin {
        if mcp_mode {
            SecretSource::Refused(
                KrakenError::Validation(
                    String::from_str(
                        "Cannot read Futures API secret from stdin in MCP mode (stdin is the JSON-RPC transport). Provide --futures-api-secret or --futures-api-secret-file instead.",
                    ),
                ),
            )
        } else {
            SecretSource::ReadStdin
        }
    } else if let Some(path) = file {
        SecretSource::ReadFile(path)
    } else if let Some(s) = flag_secret {
        SecretSource::Given {
            secret: s,
            warning: Some(
                String::from_str(
                    "Passing --futures-api-secret on the command line exposes it in process listings. Prefer --futures-api-secret-stdin, --futures-api-secret-file, or `kraken setup` for interactive entry.",
                ),
            ),
        }
    } else if mcp_mode {
        SecretSource::Refused(
            KrakenError::Validation(
                String::from_str(
                    "Futures API secret is required for auth set in non-interactive mode. Provide --futures-api-secret, --futures-api-secret-stdin, or --futures-api-secret-file.",
                ),
            ),
        )
    } else {
        SecretSource::Prompt(String::from_str("Futures API Secret"))
    }
}

/// The refusal of an empty secret.
pub open spec fn empty_secret_text(futures: bool) -> Seq<char> {
    if futures {
        "Cannot save an empty Futures API secret."@
    } else {
        "Cannot save an empty API secret."@
    }
}

/// The secret to save, refused when empty; `futures` tells which secret it is.
pub fn nonempty_secret(secret: String, futures: bool) -> (r: Result<String>)
    ensures
        match r {
            Ok(s) => s == secret && secret@.len() > 0,
            Err(e) => secret@.len() == 0 && is_auth_error(e, empty_secret_text(futures)),
        },
{
    if secret.as_str().is_empty() {
        if futures {
            Err(KrakenError::Auth(String::from_str("Cannot save an empty Futures API secret.")))
        } else {
            Err(KrakenError::Auth(String::from_str("Cannot save an empty API secret.")))
        }
    } else {
        Ok(secret)
    }
}

/// The configuration after `auth set`: the Spot key and secret replaced,
/// the Futures key and secret replaced when given, everything else kept.
pub fn set_credentials(
    cfg: KrakenConfig,
    api_key: String,
    api_secret: String,
    futures: Option<(String, String)>,
) -> (r: KrakenConfig)
    ensures
        r.auth.api_key == Some(api_key),
        r.auth.api_secret == Some(api_secret),
        match futures {
            Some((k, s)) => r.auth.futures_api_key == Some(k) && r.auth.futures_api_secret == Some(
                s,
            ),
            None => r.auth.futures_api_key == cfg.auth.futures_api_key
                && r.auth.futures_api_secret == cfg.auth.futures_api_secret,
        },
        r.settings == cfg.settings,
{
    let KrakenConfig { auth, settings } = cfg;
    let AuthConfig { futures_api_key, futures_api_secret, .. } = auth;
    let (fk, fs) = match futures {
        Some((k, s)) => (Some(k), Some(s)),
        None => (futures_api_key, futures_api_secret),
    };
    KrakenConfig {
        auth: AuthConfig {
            api_key: Some(api_key),
            api_secret: Some(api_secret),
            futures_api_key: fk,
            futures_api_secret: fs,
        },
        settings,
    }
}

/// A value shown by `auth show`: the value, or `(not set)`.
pub open spec fn shown_or_not_set(o: Option<Seq<char>>) -> Seq<char> {
    match o {
        Some(v) => v,
        None => "(not set)"@,
    }
}

/// The masked form of an optional secret.
pub open spec fn masked_opt(o: Option<String>) -> Option<Seq<char>> {
    match o {
        Some(s) => Some(mask_spec(s@)),
        None => None,
    }
}

/// An optional value, or `(not set)`.
fn or_not_set(o: &Option<String>) -> (r: String)
    ensures
        r@ == shown_or_not_set(opt_view(*o)),
{
    match o {
        Some(v) => v.clone(),
        None => String::from_str("(not set)"),
    }
}

/// What `auth show` displays: the API key, the masked API secret and the
/// Futures API key, each `(not set)` when absent.
pub fn show_fields(auth: &AuthConfig) -> (r: (String, String, String))
    ensures
        r.0@ == shown_or_not_set(opt_view(auth.api_key)),
        r.1@ == shown_or_not_set(masked_opt(auth.api_secret)),
        r.2@ == shown_or_not_set(opt_view(auth.futures_api_key)),
{
    let key = or_not_set(&auth.api_key);
    let secret = match &auth.api_secret {
        Some(s) => mask_string(s.as_str()),
        None => String::from_str("(not set)"),
    };
    let futures_key = or_not_set(&auth.futures_api_key);
    (key, secret, futures_key)
}

} // verus!
