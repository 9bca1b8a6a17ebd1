//! Unified error types for the Kraken CLI.
//!
//! Error categories cover API responses, authentication failures, network
//! issues, rate-limiting, validation, configuration, WebSocket errors,
//! I/O, and response parsing problems.
use vstd::prelude::*;

use crate::text::{concat, starts_with};
use vstd::string::to_string_from_display_ensures;

verus! {

broadcast use vstd::string::group_string_axioms;

/// `std::io::Error`, carried through the `Io` variant.
#[verifier::external_type_specification]
#[verifier::external_body]
pub struct ExIoError(std::io::Error);

/// `anyhow::Error`, carried through the `Other` variant.
#[verifier::external_type_specification]
#[verifier::external_body]
pub struct ExAnyhowError(anyhow::Error);

/// Top-level error categories used in JSON error envelopes and exit codes.
#[derive(Debug, Clone, Copy, PartialEq, Eq, Structural)]
pub enum ErrorCategory {
    Api,
    Auth,
    Network,
    RateLimit,
    Validation,
    Config,
    WebSocket,
    Io,
    Parse,
}

/// The name of a category in the JSON error envelope.
pub open spec fn category_name(c: ErrorCategory) -> Seq<char> {
    match c {
        ErrorCategory::Api => "api"@,
        ErrorCategory::Auth => "auth"@,
        ErrorCategory::Network => "network"@,
        ErrorCategory::RateLimit => "rate_limit"@,
        ErrorCategory::Validation => "validation"@,
        ErrorCategory::Config => "config"@,
        ErrorCategory::WebSocket => "websocket"@,
        ErrorCategory::Io => "io"@,
        ErrorCategory::Parse => "parse"@,
    }
}

impl ErrorCategory {
    /// The category's name as it appears in the `error` field of the envelope.
    pub fn as_str(&self) -> (s: &'static str)
        ensures
            s@ == category_name(*self),
    {
        match self {
            ErrorCategory::Api => "api",
            ErrorCategory::Auth => "auth",
            ErrorCategory::Network => "network",
            ErrorCategory::RateLimit => "rate_limit",
            ErrorCategory::Validation => "validation",
            ErrorCategory::Config => "config",
            ErrorCategory::WebSocket => "websocket",
            ErrorCategory::Io => "io",
            ErrorCategory::Parse => "parse",
        }
    }

    /// The category's name as an owned string (what `Display` prints).
    pub fn to_string(&self) -> (s: String)
        ensures
            s@ == category_name(*self),
    {
        String::from_str(self.as_str())
    }
}

/// Distinct categories have distinct names, so callers can route on the
/// `error` field of the envelope alone.
pub proof fn category_names_are_distinct(a: ErrorCategory, b: ErrorCategory)
    requires
        a != b,
    ensures
        category_name(a) != category_name(b),
{
    reveal_strlit("api");
    reveal_strlit("auth");
    reveal_strlit("network");
    reveal_strlit("rate_limit");
    reveal_strlit("validation");
    reveal_strlit("config");
    reveal_strlit("websocket");
    reveal_strlit("io");
    reveal_strlit("parse");
    assert(category_name(a).len() != category_name(b).len() || category_name(a)[0]
        != category_name(b)[0] || category_name(a)[1] != category_name(b)[1]);
}

/// The primary error type for all CLI operations.
#[derive(Debug)]
pub enum KrakenError {
    Api { category: ErrorCategory, message: String },
    Auth(String),
    Network(String),
    RateLimit(String),
    Validation(String),
    Config(String),
    WebSocket(String),
    Io(std::io::Error),
    Parse(String),
    Other(anyhow::Error),
}

pub type Result<T> = std::result::Result<T, KrakenError>;

/// The category of an error, as `KrakenError::category` reports it.
pub open spec fn error_category(e: KrakenError) -> ErrorCategory {
    match e {
        KrakenError::Api { category, .. } => category,
        KrakenError::Auth(_) => ErrorCategory::Auth,
        KrakenError::Network(_) => ErrorCategory::Network,
        KrakenError::RateLimit(_) => ErrorCategory::RateLimit,
        KrakenError::Validation(_) => ErrorCategory::Validation,
        KrakenError::Config(_) => ErrorCategory::Config,
        KrakenError::WebSocket(_) => ErrorCategory::WebSocket,
        KrakenError::Io(_) => ErrorCategory::Io,
        KrakenError::Parse(_) => ErrorCategory::Parse,
        KrakenError::Other(_) => ErrorCategory::Api,
    }
}

/// The text that an error with a string payload displays: a fixed prefix
/// per variant, then the payload.
pub open spec fn display_prefix(e: KrakenError) -> Seq<char> {
    match e {
        KrakenError::Api { .. } => ""@,
        KrakenError::Auth(_) => "Authentication failed: "@,
        KrakenError::Network(_) => "Network error: "@,
        KrakenError::RateLimit(_) => "Rate limit exceeded: "@,
        KrakenError::Validation(_) => "Validation error: "@,
        KrakenError::Config(_) => "Configuration error: "@,
        KrakenError::WebSocket(_) => "WebSocket error: "@,
        KrakenError::Io(_) => "I/O error: "@,
        KrakenError::Parse(_) => "Parse error: "@,
        KrakenError::Other(_) => ""@,
    }
}

/// The string payload of an error, where it has one.
pub open spec fn string_payload(e: KrakenError) -> Option<Seq<char>> {
    match e {
        KrakenError::Api { message, .. } => Some(message@),
        KrakenError::Auth(m) => Some(m@),
        KrakenError::Network(m) => Some(m@),
        KrakenError::RateLimit(m) => Some(m@),
        KrakenError::Validation(m) => Some(m@),
        KrakenError::Config(m) => Some(m@),
        KrakenError::WebSocket(m) => Some(m@),
        KrakenError::Io(_) => None,
        KrakenError::Parse(m) => Some(m@),
        KrakenError::Other(_) => None,
    }
}

/// Whether `msg` is one of Kraken's rate-limit error strings.
pub open spec fn is_rate_limit_text(msg: Seq<char>) -> bool {
    "EAPI:Rate limit"@.is_prefix_of(msg) || "EService:Throttled"@.is_prefix_of(msg)
}

/// Whether `msg` is one of Kraken's permission or key error strings.
pub open spec fn is_auth_failure_text(msg: Seq<char>) -> bool {
    "EGeneral:Permission"@.is_prefix_of(msg) || "EAPI:Invalid key"@.is_prefix_of(msg)
}

/// `e` is the error that a Kraken error string `msg` stands for: rate-limit
/// strings give `RateLimit`, permission and key strings give `Auth`, and any
/// other string gives an `Api` error of category `Api`, each carrying `msg`.
pub open spec fn from_kraken_text(e: KrakenError, msg: Seq<char>) -> bool {
    match e {
        KrakenError::RateLimit(m) => is_rate_limit_text(msg) && m@ == msg,
        KrakenError::Auth(m) => !is_rate_limit_text(msg) && is_auth_failure_text(msg) && m@ == msg,
        KrakenError::Api { category, message } => !is_rate_limit_text(msg)
            && !is_auth_failure_text(msg) && category == ErrorCategory::Api && message@ == msg,
        _ => false,
    }
}

/// For the variants that wrap another error, `s` is that error's own text
/// (as its `to_string` gives it), after `I/O error: ` for `Io` and alone for
/// `Other`.
pub open spec fn displays_wrapped_error(e: KrakenError, s: String) -> bool {
    match e {
        KrakenError::Io(inner) => exists|t: String|
            #![trigger to_string_from_display_ensures::<std::io::Error>(&inner, t)]
            to_string_from_display_ensures::<std::io::Error>(&inner, t) && s@ == "I/O error: "@
                + t@,
        KrakenError::Other(inner) => to_string_from_display_ensures::<anyhow::Error>(&inner, s),
        _ => true,
    }
}

impl KrakenError {
    /// Returns the error category for JSON envelope output.
    pub fn category(&self) -> (c: ErrorCategory)
        ensures
            c == error_category(*self),
    {
        match self {
            KrakenError::Api { category, .. } => *category,
            KrakenError::Auth(_) => ErrorCategory::Auth,
            KrakenError::Network(_) => ErrorCategory::Network,
            KrakenError::RateLimit(_) => ErrorCategory::RateLimit,
            KrakenError::Validation(_) => ErrorCategory::Validation,
            KrakenError::Config(_) => ErrorCategory::Config,
            KrakenError::WebSocket(_) => ErrorCategory::WebSocket,
            KrakenError::Io(_) => ErrorCategory::Io,
            KrakenError::Parse(_) => ErrorCategory::Parse,
            KrakenError::Other(_) => ErrorCategory::Api,
        }
    }

    /// Constructs an API error from a Kraken error string (e.g. "EAPI:Invalid key").
    pub fn from_kraken_error(msg: &str) -> (e: KrakenError)
        ensures
            from_kraken_text(e, msg@),
            (e is RateLimit) <==> ("EAPI:Rate limit"@.is_prefix_of(msg@)
                || "EService:Throttled"@.is_prefix_of(msg@)),
            (e is Auth) <==> (!("EAPI:Rate limit"@.is_prefix_of(msg@)
                || "EService:Throttled"@.is_prefix_of(msg@)) && ("EGeneral:Permission"@.is_prefix_of(
                msg@,
            ) || "EAPI:Invalid key"@.is_prefix_of(msg@))),
            (e is Api) <==> !("EAPI:Rate limit"@.is_prefix_of(msg@)
                || "EService:Throttled"@.is_prefix_of(msg@) || "EGeneral:Permission"@.is_prefix_of(
                msg@,
            ) || "EAPI:Invalid key"@.is_prefix_of(msg@)),
            e matches KrakenError::Api { category, .. } ==> category == ErrorCategory::Api,
    {
        if starts_with(msg, "EAPI:Rate limit") || starts_with(msg, "EService:Throttled") {
            return KrakenError::RateLimit(String::from_str(msg));
        }
        if starts_with(msg, "EGeneral:Permission") || starts_with(msg, "EAPI:Invalid key") {
            return KrakenError::Auth(String::from_str(msg));
        }
        KrakenError::Api { category: ErrorCategory::Api, message: String::from_str(msg) }
    }

    /// The error's message, as its `Display` prints it.
    ///
    /// Errors with a string payload print a fixed prefix and the payload; `Io`
    /// prints `I/O error: ` followed by the I/O error's own text, and `Other`
    /// prints the wrapped error's text.
    pub fn to_string(&self) -> (s: String)
        ensures
            string_payload(*self) matches Some(m) ==> s@ == display_prefix(*self) + m,
            display_prefix(*self).is_prefix_of(s@),
            displays_wrapped_error(*self, s),
    {
        proof {
            reveal_strlit("");
        }
        match self {
            KrakenError::Api { message, .. } => {
                assert(""@ + message@ =~= message@);
                message.clone()
            },
            KrakenError::Auth(m) => concat("Authentication failed: ", m.as_str()),
            KrakenError::Network(m) => concat("Network error: ", m.as_str()),
            KrakenError::RateLimit(m) => concat("Rate limit exceeded: ", m.as_str()),
            KrakenError::Validation(m) => concat("Validation error: ", m.as_str()),
            KrakenError::Config(m) => concat("Configuration error: ", m.as_str()),
            KrakenError::WebSocket(m) => concat("WebSocket error: ", m.as_str()),
            KrakenError::Io(e) => {
                let detail = e.to_string();
                let r = concat("I/O error: ", detail.as_str());
                assert(to_string_from_display_ensures::<std::io::Error>(e, detail) && r@
                    == "I/O error: "@ + detail@);
                r
            },
            KrakenError::Parse(m) => concat("Parse error: ", m.as_str()),
            KrakenError::Other(e) => e.to_string(),
        }
    }
}

/// Every error built from a Kraken error string falls in the rate-limit,
/// auth or api category, by the string's prefix.
pub proof fn kraken_error_categories(msg: Seq<char>, e: KrakenError)
    requires
        from_kraken_text(e, msg),
    ensures
        error_category(e) == (if is_rate_limit_text(msg) {
            ErrorCategory::RateLimit
        } else if is_auth_failure_text(msg) {
            ErrorCategory::Auth
        } else {
            ErrorCategory::Api
        }),
        string_payload(e) == Some(msg),
{
}

/// How Kraken's error strings are classified, by their literal prefixes:
/// a rate-limit error exactly for `EAPI:Rate limit` and `EService:Throttled`;
/// otherwise an auth error exactly for `EGeneral:Permission` and
/// `EAPI:Invalid key`; any other string is an `Api` error of category `Api`.
/// Each carries the string unchanged.
pub proof fn kraken_error_prefixes(msg: Seq<char>, e: KrakenError)
    requires
        from_kraken_text(e, msg),
    ensures
        (e is RateLimit) <==> ("EAPI:Rate limit"@.is_prefix_of(msg) || "EService:Throttled"@.is_prefix_of(
            msg,
        )),
        (e is Auth) <==> (!("EAPI:Rate limit"@.is_prefix_of(msg) || "EService:Throttled"@.is_prefix_of(
            msg,
        )) && ("EGeneral:Permission"@.is_prefix_of(msg) || "EAPI:Invalid key"@.is_prefix_of(msg))),
        (e is Api) <==> !("EAPI:Rate limit"@.is_prefix_of(msg) || "EService:Throttled"@.is_prefix_of(
            msg,
        ) || "EGeneral:Permission"@.is_prefix_of(msg) || "EAPI:Invalid key"@.is_prefix_of(msg)),
        e matches KrakenError::Api { category, .. } ==> category == ErrorCategory::Api,
        string_payload(e) == Some(msg),
{
}

} // verus!
