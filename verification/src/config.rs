//! Configuration management for `~/.config/kraken/config.toml`.
//!
//! Holds the configuration's model, the masking and redaction of secrets,
//! the location of the file, and the credential precedence
//! flag > env > config. Reading and writing the file is done by the caller.
use vstd::prelude::*;

use crate::errors::{KrakenError, Result};
use crate::text::{chars_of, concat, push_chars, trim, trim_spec};

verus! {

broadcast use vstd::string::group_string_axioms;

/// On-disk configuration format.
pub struct KrakenConfig {
    pub auth: AuthConfig,
    pub settings: SettingsConfig,
}

/// Authentication section of the config file.
pub struct AuthConfig {
    pub api_key: Option<String>,
    pub api_secret: Option<String>,
    pub futures_api_key: Option<String>,
    pub futures_api_secret: Option<String>,
}

/// General settings section.
pub struct SettingsConfig {
    pub default_pair: Option<String>,
    pub output: Option<String>,
}

/// The view of an optional string.
pub open spec fn opt_view(o: Option<String>) -> Option<Seq<char>> {
    match o {
        Some(s) => Some(s@),
        None => None,
    }
}

/// An auth section with no credential set.
pub open spec fn auth_is_empty(a: AuthConfig) -> bool {
    &&& a.api_key is None
    &&& a.api_secret is None
    &&& a.futures_api_key is None
    &&& a.futures_api_secret is None
}

impl Default for AuthConfig {
    fn default() -> (a: AuthConfig)
        ensures
            auth_is_empty(a),
    {
        AuthConfig { api_key: None, api_secret: None, futures_api_key: None, futures_api_secret: None }
    }
}

impl Default for SettingsConfig {
    fn default() -> (s: SettingsConfig)
        ensures
            s.default_pair is None,
            s.output is None,
    {
        SettingsConfig { default_pair: None, output: None }
    }
}

impl Default for KrakenConfig {
    fn default() -> (c: KrakenConfig)
        ensures
            auth_is_empty(c.auth),
            c.settings.default_pair is None,
            c.settings.output is None,
    {
        KrakenConfig { auth: AuthConfig::default(), settings: SettingsConfig::default() }
    }
}

// ---------------------------------------------------------------------------
// Masking and redaction
// ---------------------------------------------------------------------------

/// `s` masked for display: `****` for up to 8 characters, otherwise the
/// first 4 and last 4 characters around `...`.
pub open spec fn mask_spec(s: Seq<char>) -> Seq<char> {
    if s.len() <= 8 {
        "****"@
    } else {
        s.take(4) + "..."@ + s.skip(s.len() - 4)
    }
}

/// Mask a string for display, showing only the first 4 and last 4 characters.
pub fn mask_string(s: &str) -> (r: String)
    ensures
        r@ == mask_spec(s@),
{
    let chars = chars_of(s);
    if chars.len() <= 8 {
        return String::from_str("****");
    }
    let mut r = String::new();
    push_chars(&mut r, &chars, 0, 4);
    r.append("...");
    push_chars(&mut r, &chars, chars.len() - 4, chars.len());
    assert(chars@.subrange(0, 4) =~= s@.take(4));
    assert(chars@.subrange(chars.len() - 4, chars.len() as int) =~= s@.skip(s@.len() - 4));
    r
}

/// What `{:?}` prints for a string: the string quoted, with the characters
/// that need it escaped.
pub uninterp spec fn str_debug(s: Seq<char>) -> Seq<char>;

/// `<str as Debug>::fmt`, through `format!("{:?}", ..)`: the result is
/// claimed to be [`str_debug`] of the argument, that is, to depend on the
/// argument's characters alone; how std quotes and escapes them is not stated.
#[verifier::external_body]
fn debug_str(s: &str) -> (r: String)
    ensures
        r@ == str_debug(s@),
{
    format!("{:?}", s)
}

/// What `{:?}` prints for an optional string whose own debug text (quoted
/// and escaped) is `quoted`.
pub open spec fn option_text(quoted: Option<Seq<char>>) -> Seq<char> {
    match quoted {
        Some(q) => "Some("@ + q + ")"@,
        None => "None"@,
    }
}

/// The debug text of an optional string's content, when present.
pub open spec fn quoted_field(o: Option<Seq<char>>) -> Option<Seq<char>> {
    match o {
        Some(s) => Some(str_debug(s)),
        None => None,
    }
}

/// What `{:?}` prints for an optional string.
pub open spec fn option_debug(o: Option<Seq<char>>) -> Seq<char> {
    option_text(quoted_field(o))
}

/// The displayed form of an optional key: masked when present.
pub open spec fn masked_field(o: Option<String>) -> Option<Seq<char>> {
    match o {
        Some(k) => Some(mask_spec(k@)),
        None => None,
    }
}

/// The displayed form of an optional secret: redacted when present.
pub open spec fn redacted_field(o: Option<String>) -> Option<Seq<char>> {
    match o {
        Some(_) => Some("[REDACTED]"@),
        None => None,
    }
}

/// The debug text of an auth section from the debug texts of its four
/// displayed fields, in order (`None` for an absent field).
pub open spec fn auth_debug_text(
    api_key: Option<Seq<char>>,
    api_secret: Option<Seq<char>>,
    futures_api_key: Option<Seq<char>>,
    futures_api_secret: Option<Seq<char>>,
) -> Seq<char> {
    "AuthConfig { api_key: "@ + option_text(api_key) + ", api_secret: "@ + option_text(api_secret)
        + ", futures_api_key: "@ + option_text(futures_api_key) + ", futures_api_secret: "@
        + option_text(futures_api_secret) + " }"@
}

/// The debug text of an auth section: keys masked, secrets redacted.
pub open spec fn auth_debug_spec(a: AuthConfig) -> Seq<char> {
    auth_debug_text(
        quoted_field(masked_field(a.api_key)),
        quoted_field(redacted_field(a.api_secret)),
        quoted_field(masked_field(a.futures_api_key)),
        quoted_field(redacted_field(a.futures_api_secret)),
    )
}

/// The view of an optional string slice.
pub open spec fn opt_str_view(o: Option<&str>) -> Option<Seq<char>> {
    match o {
        Some(s) => Some(s@),
        None => None,
    }
}

/// Appends what `{:?}` prints for an optional string whose own debug text
/// is `quoted`.
fn push_option_text(out: &mut String, quoted: Option<&str>)
    ensures
        final(out)@ == old(out)@ + option_text(opt_str_view(quoted)),
{
    match quoted {
        Some(q) => {
            out.append("Some(");
            out.append(q);
            out.append(")");
        },
        None => {
            out.append("None");
        },
    }
}

/// The debug text of an auth section from the debug texts (quoted and
/// escaped) of its displayed fields: the masked keys and the redacted
/// secrets, `None` for an absent field.
pub fn auth_debug_text_of(
    api_key: Option<&str>,
    api_secret: Option<&str>,
    futures_api_key: Option<&str>,
    futures_api_secret: Option<&str>,
) -> (s: String)
    ensures
        s@ == auth_debug_text(
            opt_str_view(api_key),
            opt_str_view(api_secret),
            opt_str_view(futures_api_key),
            opt_str_view(futures_api_secret),
        ),
{
    let mut out = String::from_str("AuthConfig { api_key: ");
    push_option_text(&mut out, api_key);
    out.append(", api_secret: ");
    push_option_text(&mut out, api_secret);
    out.append(", futures_api_key: ");
    push_option_text(&mut out, futures_api_key);
    out.append(", futures_api_secret: ");
    push_option_text(&mut out, futures_api_secret);
    out.append(" }");
    out
}

/// The debug text (quoted and escaped) of a key's masked form, when present.
fn quoted_masked(o: &Option<String>) -> (r: Option<String>)
    ensures
        opt_view(r) == quoted_field(masked_field(*o)),
{
    match o {
        Some(k) => {
            let m = mask_string(k.as_str());
            Some(debug_str(m.as_str()))
        },
        None => None,
    }
}

/// The debug text (quoted and escaped) of a secret's redacted form, when
/// present.
fn quoted_redacted(o: &Option<String>) -> (r: Option<String>)
    ensures
        opt_view(r) == quoted_field(redacted_field(*o)),
{
    match o {
        Some(_) => Some(debug_str("[REDACTED]")),
        None => None,
    }
}

/// The borrowed content of an optional string.
fn as_opt_str(o: &Option<String>) -> (r: Option<&str>)
    ensures
        opt_str_view(r) == opt_view(*o),
{
    match o {
        Some(s) => Some(s.as_str()),
        None => None,
    }
}

impl AuthConfig {
    /// The text that `{:?}` prints for this section: API keys are masked
    /// and API secrets are replaced by `[REDACTED]`.
    pub fn debug_string(&self) -> (s: String)
        ensures
            s@ == auth_debug_spec(*self),
    {
        let key = quoted_masked(&self.api_key);
        let secret = quoted_redacted(&self.api_secret);
        let fkey = quoted_masked(&self.futures_api_key);
        let fsecret = quoted_redacted(&self.futures_api_secret);
        auth_debug_text_of(
            as_opt_str(&key),
            as_opt_str(&secret),
            as_opt_str(&fkey),
            as_opt_str(&fsecret),
        )
    }
}

/// The debug text of an auth section depends on a secret only through
/// whether it is set, and on a key only through its masked form.
pub proof fn auth_debug_hides_secrets(a: AuthConfig, b: AuthConfig)
    requires
        masked_field(a.api_key) == masked_field(b.api_key),
        masked_field(a.futures_api_key) == masked_field(b.futures_api_key),
        a.api_secret is Some == b.api_secret is Some,
        a.futures_api_secret is Some == b.futures_api_secret is Some,
    ensures
        auth_debug_spec(a) == auth_debug_spec(b),
{
    assert(redacted_field(a.api_secret) == redacted_field(b.api_secret));
    assert(redacted_field(a.futures_api_secret) == redacted_field(b.futures_api_secret));
}

/// Wrapper that keeps secrets out of debug and display output.
pub struct SecretValue(String);

impl View for SecretValue {
    type V = Seq<char>;

    closed spec fn view(&self) -> Seq<char> {
        self.0@
    }
}

impl SecretValue {
    pub fn new(val: String) -> (s: SecretValue)
        ensures
            s@ == val@,
    {
        SecretValue(val)
    }

    /// Provides read-only access to the secret. Callers must not log the result.
    pub fn expose(&self) -> (s: &str)
        ensures
            s@ == self@,
    {
        self.0.as_str()
    }

    /// What `{:?}` prints: `[REDACTED]`, whatever the secret.
    pub fn to_debug_string(&self) -> (s: String)
        ensures
            s@ == "[REDACTED]"@,
    {
        String::from_str("[REDACTED]")
    }

    /// What `Display` prints: `[REDACTED]`, whatever the secret.
    pub fn to_string(&self) -> (s: String)
        ensures
            s@ == "[REDACTED]"@,
    {
        String::from_str("[REDACTED]")
    }
}

/// Resolved credentials for Spot API calls.
pub struct SpotCredentials {
    pub api_key: String,
    pub api_secret: SecretValue,
    pub source: CredentialSource,
}

/// Resolved credentials for Futures API calls.
pub struct FuturesCredentials {
    pub api_key: String,
    pub api_secret: SecretValue,
    pub source: CredentialSource,
}

/// Where the credentials were resolved from.
#[derive(Debug, Clone, Copy, PartialEq, Eq, Structural)]
pub enum CredentialSource {
    Flag,
    Env,
    Config,
}

/// The description of a credential source that `Display` prints.
pub open spec fn source_text(s: CredentialSource) -> Seq<char> {
    match s {
        CredentialSource::Flag => "command-line flag"@,
        CredentialSource::Env => "environment variable"@,
        CredentialSource::Config => "config file"@,
    }
}

impl CredentialSource {
    /// The source's description, as `Display` prints it.
    pub fn to_string(&self) -> (s: String)
        ensures
            s@ == source_text(*self),
    {
        match self {
            CredentialSource::Flag => String::from_str("command-line flag"),
            CredentialSource::Env => String::from_str("environment variable"),
            CredentialSource::Config => String::from_str("config file"),
        }
    }
}

// ---------------------------------------------------------------------------
// Location of the config file
// ---------------------------------------------------------------------------

/// `Path::join` on Unix for a relative segment, over the bytes of the
/// paths: the segment itself after an empty base, appended directly after a
/// trailing `/`, and after a `/` otherwise.
pub open spec fn path_join_spec(base: Seq<u8>, segment: Seq<u8>) -> Seq<u8> {
    if base.len() == 0 {
        segment
    } else if base.last() == 0x2Fu8 {
        base + segment
    } else {
        base + seq![0x2Fu8] + segment
    }
}

/// Appends the bytes `s` to `v`.
fn push_bytes(v: &mut Vec<u8>, s: &[u8])
    ensures
        final(v)@ == old(v)@ + s@,
{
    let mut i: usize = 0;
    while i < s.len()
        invariant
            i <= s@.len(),
            v@ == old(v)@ + s@.take(i as int),
        decreases s@.len() - i,
    {
        v.push(s[i]);
        assert(s@.take(i + 1) =~= s@.take(i as int).push(s@[i as int]));
        i = i + 1;
    }
    assert(s@.take(s@.len() as int) =~= s@);
}

/// Joins a relative path segment onto a base path, both given by their
/// bytes as the platform encodes paths.
pub fn path_join(base: &[u8], segment: &[u8]) -> (r: Vec<u8>)
    ensures
        r@ == path_join_spec(base@, segment@),
{
    let mut r: Vec<u8> = Vec::new();
    push_bytes(&mut r, base);
    if base.len() > 0 && base[base.len() - 1] != 0x2Fu8 {
        r.push(0x2Fu8);
    }
    push_bytes(&mut r, segment);
    assert(Seq::<u8>::empty() + base@ =~= base@);
    r
}

/// The platform's per-user configuration directory, `dirs::config_dir()`
/// (`$XDG_CONFIG_HOME`, or `$HOME/.config`, on Linux), as the bytes of the
/// path in the platform's encoding (`OsString::into_encoded_bytes`).
///
/// It depends on the environment, so nothing is stated of it.
#[verifier::external_body]
fn platform_config_dir() -> Option<Vec<u8>> {
    dirs::config_dir().map(|p| p.into_os_string().into_encoded_bytes())
}

/// The bytes of a path segment written as text.
pub open spec fn segment_bytes(s: Seq<char>) -> Seq<u8> {
    vstd::utf8::encode_utf8(s)
}

/// The config directory under a platform configuration directory `base`.
pub open spec fn config_dir_spec(base: Seq<u8>) -> Seq<u8> {
    path_join_spec(base, segment_bytes("kraken"@))
}

/// The config file under a platform configuration directory `base`.
pub open spec fn config_path_spec(base: Seq<u8>) -> Seq<u8> {
    path_join_spec(config_dir_spec(base), segment_bytes("config.toml"@))
}

/// The error reported when the platform has no configuration directory.
pub open spec fn no_config_dir_error(e: KrakenError) -> bool {
    e matches KrakenError::Config(m) && m@ == "Cannot determine config directory"@
}

/// The config directory for a platform configuration directory `base`
/// (`None` when the platform has none), by the bytes of its path.
pub fn config_dir_from(base: Option<Vec<u8>>) -> (r: Result<Vec<u8>>)
    ensures
        match base {
            Some(b) => r matches Ok(p) && p@ == config_dir_spec(b@),
            None => r matches Err(e) && no_config_dir_error(e),
        },
{
    match base {
        Some(b) => Ok(path_join(b.as_slice(), "kraken".as_bytes())),
        None => Err(KrakenError::Config(String::from_str("Cannot determine config directory"))),
    }
}

/// The config file for a platform configuration directory `base` (`None`
/// when the platform has none), by the bytes of its path.
pub fn config_path_from(base: Option<Vec<u8>>) -> (r: Result<Vec<u8>>)
    ensures
        match base {
            Some(b) => r matches Ok(p) && p@ == config_path_spec(b@),
            None => r matches Err(e) && no_config_dir_error(e),
        },
{
    let dir = config_dir_from(base)?;
    Ok(path_join(dir.as_slice(), "config.toml".as_bytes()))
}

/// Returns the config directory path, `~/.config/kraken/`, by the bytes of
/// the path in the platform's encoding.
pub fn config_dir() -> (r: Result<Vec<u8>>)
    ensures
        r matches Ok(p) ==> exists|base: Seq<u8>| p@ == config_dir_spec(base),
        r matches Err(e) ==> no_config_dir_error(e),
{
    let base = platform_config_dir();
    let ghost b = base;
    let r = config_dir_from(base);
    proof {
        if let Some(v) = b {
            assert(r matches Ok(p) && p@ == config_dir_spec(v@));
        }
    }
    r
}

/// Returns the full path to the config file, by the bytes of the path in
/// the platform's encoding.
pub fn config_path() -> (r: Result<Vec<u8>>)
    ensures
        r matches Ok(p) ==> exists|base: Seq<u8>| p@ == config_path_spec(base),
        r matches Err(e) ==> no_config_dir_error(e),
{
    let base = platform_config_dir();
    let ghost b = base;
    let r = config_path_from(base);
    proof {
        if let Some(v) = b {
            assert(r matches Ok(p) && p@ == config_path_spec(v@));
        }
    }
    r
}

/// Clear stored credentials while preserving the `[settings]` section.
///
/// Takes the configuration as it was loaded and returns the one to save.
pub fn reset_auth(cfg: KrakenConfig) -> (r: KrakenConfig)
    ensures
        auth_is_empty(r.auth),
        r.settings == cfg.settings,
{
    KrakenConfig { auth: AuthConfig::default(), settings: cfg.settings }
}

// ---------------------------------------------------------------------------
// Secrets read from stdin or from a file
// ---------------------------------------------------------------------------

/// Whether `s` is blank: nothing is left of it once trimmed.
pub open spec fn trim_spec_is_empty(s: Seq<char>) -> bool {
    trim_spec(s).len() == 0
}

/// `e` is an authentication error with message `msg`.
pub open spec fn is_auth_error(e: KrakenError, msg: Seq<char>) -> bool {
    e matches KrakenError::Auth(m) && m@ == msg
}

/// The secret read from one line of stdin: `bytes_read` bytes were read into
/// `line`. Fails on end of input or on a line that is blank once trimmed.
pub fn read_secret_from_stdin(line: &str, bytes_read: usize) -> (r: Result<SecretValue>)
    ensures
        match r {
            Ok(s) => !(bytes_read == 0 || trim_spec_is_empty(line@)) && s@ == trim_spec(line@),
            Err(e) => (bytes_read == 0 || trim_spec_is_empty(line@)) && is_auth_error(
                e,
                "Empty secret received from stdin \u{2014} did you forget to pipe input?"@,
            ),
        },
{
    let trimmed = String::from_str(trim(line));
    if bytes_read == 0 || trimmed.as_str().is_empty() {
        return Err(
            KrakenError::Auth(
                String::from_str("Empty secret received from stdin \u{2014} did you forget to pipe input?"),
            ),
        );
    }
    Ok(SecretValue::new(trimmed))
}


/// The secret held in a file's `contents`, trimmed. Fails when nothing is
/// left once trimmed; `path_display` names the file in the error.
pub fn read_secret_from_file(contents: &str, path_display: &str) -> (r: Result<SecretValue>)
    ensures
        match r {
            Ok(s) => !trim_spec_is_empty(contents@) && s@ == trim_spec(contents@),
            Err(e) => trim_spec_is_empty(contents@) && is_auth_error(
                e,
                "Empty secret read from file: "@ + path_display@,
            ),
        },
{
    let trimmed = String::from_str(trim(contents));
    if trimmed.as_str().is_empty() {
        return Err(KrakenError::Auth(concat("Empty secret read from file: ", path_display)));
    }
    Ok(SecretValue::new(trimmed))
}

// ---------------------------------------------------------------------------
// Credential precedence: flag > env > config
// ---------------------------------------------------------------------------


/// The credentials chosen from the three tiers, in the order flag, env,
/// config: the first tier that has both a key and a secret gives both, with
/// its source; a tier with only one of them is passed over.
pub open spec fn credential_choice(
    flag_key: Option<Seq<char>>,
    flag_secret: Option<Seq<char>>,
    env_key: Option<Seq<char>>,
    env_secret: Option<Seq<char>>,
    cfg_key: Option<Seq<char>>,
    cfg_secret: Option<Seq<char>>,
) -> Option<(Seq<char>, Seq<char>, CredentialSource)> {
    if flag_key is Some && flag_secret is Some {
        Some((flag_key->0, flag_secret->0, CredentialSource::Flag))
    } else if env_key is Some && env_secret is Some {
        Some((env_key->0, env_secret->0, CredentialSource::Env))
    } else if cfg_key is Some && cfg_secret is Some {
        Some((cfg_key->0, cfg_secret->0, CredentialSource::Config))
    } else {
        None
    }
}

/// The warning for a tier that has only one of key and secret.
pub open spec fn tier_warnings(
    has_key: bool,
    has_secret: bool,
    key_only: Seq<char>,
    secret_only: Seq<char>,
) -> Seq<Seq<char>> {
    if has_key && !has_secret {
        seq![key_only]
    } else if !has_key && has_secret {
        seq![secret_only]
    } else {
        seq![]
    }
}

/// The warnings emitted while resolving, in order: one for an incomplete
/// flag pair, then, when the env tier is reached, one for an incomplete env
/// pair.
pub open spec fn precedence_warnings(
    flag_key: bool,
    flag_secret: bool,
    env_key: bool,
    env_secret: bool,
    texts: Seq<Seq<char>>,
) -> Seq<Seq<char>> {
    if flag_key && flag_secret {
        seq![]
    } else if env_key && env_secret {
        tier_warnings(flag_key, flag_secret, texts[0], texts[1])
    } else {
        tier_warnings(flag_key, flag_secret, texts[0], texts[1]) + tier_warnings(
            env_key,
            env_secret,
            texts[2],
            texts[3],
        )
    }
}

/// The strings of a vector of strings.
pub open spec fn strings_view(v: Seq<String>) -> Seq<Seq<char>> {
    v.map_values(|w: String| w@)
}

/// The outcome of resolving credentials, as key, secret and source.
pub open spec fn tiers_outcome(
    r: Result<(Seq<char>, Seq<char>, CredentialSource)>,
    flag_key: Option<Seq<char>>,
    flag_secret: Option<Seq<char>>,
    env_key: Option<Seq<char>>,
    env_secret: Option<Seq<char>>,
    config: Result<(Option<String>, Option<String>)>,
    missing: Seq<char>,
) -> bool {
    let choice = match config {
        Ok(pair) => credential_choice(
            flag_key,
            flag_secret,
            env_key,
            env_secret,
            opt_view(pair.0),
            opt_view(pair.1),
        ),
        Err(_) => credential_choice(flag_key, flag_secret, env_key, env_secret, None, None),
    };
    match choice {
        Some(c) => r == Ok::<(Seq<char>, Seq<char>, CredentialSource), KrakenError>(c),
        None => match config {
            Ok(_) => r matches Err(e) && is_auth_error(e, missing),
            Err(ce) => r == Err::<(Seq<char>, Seq<char>, CredentialSource), KrakenError>(ce),
        },
    }
}

/// Resolution never mixes tiers: the key and secret it chooses are the pair
/// of one tier, the one named by the source, and every tier before it lacks
/// its key or its secret.
pub proof fn credentials_come_from_one_tier(
    flag_key: Option<Seq<char>>,
    flag_secret: Option<Seq<char>>,
    env_key: Option<Seq<char>>,
    env_secret: Option<Seq<char>>,
    cfg_key: Option<Seq<char>>,
    cfg_secret: Option<Seq<char>>,
)
    ensures
        ({
            let choice = credential_choice(
                flag_key,
                flag_secret,
                env_key,
                env_secret,
                cfg_key,
                cfg_secret,
            );
            match choice {
                Some((k, s, CredentialSource::Flag)) => flag_key == Some(k) && flag_secret == Some(s),
                Some((k, s, CredentialSource::Env)) => env_key == Some(k) && env_secret == Some(s)
                    && !(flag_key is Some && flag_secret is Some),
                Some((k, s, CredentialSource::Config)) => cfg_key == Some(k) && cfg_secret == Some(
                    s,
                ) && !(flag_key is Some && flag_secret is Some) && !(env_key is Some
                    && env_secret is Some),
                None => !(flag_key is Some && flag_secret is Some) && !(env_key is Some
                    && env_secret is Some) && !(cfg_key is Some && cfg_secret is Some),
            }
        }),
{
}

/// Resolved key, secret and source, by their views.
pub open spec fn triple_view(r: Result<(String, String, CredentialSource)>) -> Result<
    (Seq<char>, Seq<char>, CredentialSource),
> {
    match r {
        Ok(t) => Ok((t.0@, t.1@, t.2)),
        Err(e) => Err(e),
    }
}

/// Appends the warning for a tier that has only one of key and secret.
fn warn_incomplete(
    warnings: &mut Vec<String>,
    has_key: bool,
    has_secret: bool,
    key_only: &str,
    secret_only: &str,
)
    ensures
        strings_view(final(warnings)@) == strings_view(old(warnings)@) + tier_warnings(
            has_key,
            has_secret,
            key_only@,
            secret_only@,
        ),
{
    let ghost before = warnings@;
    if has_key && !has_secret {
        warnings.push(String::from_str(key_only));
    } else if !has_key && has_secret {
        warnings.push(String::from_str(secret_only));
    }
    assert(strings_view(warnings@) =~= strings_view(before) + tier_warnings(
        has_key,
        has_secret,
        key_only@,
        secret_only@,
    ));
}

/// Resolves credentials by precedence flag > env > config; `texts` holds the
/// four warnings (flag key only, flag secret only, env key only, env secret
/// only) and `missing` the error message when no tier has both.
fn resolve_tiers(
    flag_key: Option<&str>,
    flag_secret: Option<&str>,
    env_key: Option<String>,
    env_secret: Option<String>,
    config: Result<(Option<String>, Option<String>)>,
    texts: [&str; 4],
    missing: &str,
) -> (out: (Result<(String, String, CredentialSource)>, Vec<String>))
    ensures
        tiers_outcome(
            triple_view(out.0),
            opt_str_view(flag_key),
            opt_str_view(flag_secret),
            opt_view(env_key),
            opt_view(env_secret),
            config,
            missing@,
        ),
        strings_view(out.1@) == precedence_warnings(
            flag_key is Some,
            flag_secret is Some,
            env_key is Some,
            env_secret is Some,
            seq![texts[0]@, texts[1]@, texts[2]@, texts[3]@],
        ),
{
    let mut warnings: Vec<String> = Vec::new();
    assert(strings_view(warnings@) =~= seq![]);
    if let (Some(k), Some(s)) = (flag_key, flag_secret) {
        return (Ok((String::from_str(k), String::from_str(s), CredentialSource::Flag)), warnings);
    }
    warn_incomplete(&mut warnings, flag_key.is_some(), flag_secret.is_some(), texts[0], texts[1]);
    let ghost after_flags = strings_view(warnings@);
    let env_complete = env_key.is_some() && env_secret.is_some();
    if !env_complete {
        warn_incomplete(&mut warnings, env_key.is_some(), env_secret.is_some(), texts[2], texts[3]);
    }
    match (env_key, env_secret) {
        (Some(k), Some(s)) => {
            assert(after_flags + seq![] =~= after_flags);
            return (Ok((k, s, CredentialSource::Env)), warnings);
        },
        _ => {},
    }
    match config {
        Ok((Some(k), Some(s))) => (Ok((k, s, CredentialSource::Config)), warnings),
        Ok(_) => (Err(KrakenError::Auth(String::from_str(missing))), warnings),
        Err(e) => (Err(e), warnings),
    }
}

/// The texts of the Spot resolution's warnings.
pub open spec fn spot_warning_texts() -> Seq<Seq<char>> {
    seq![
        "--api-key provided without --api-secret (or --api-secret-stdin/--api-secret-file). Flag credentials ignored, falling back to env/config."@,
        "--api-secret provided without --api-key. Flag credentials ignored, falling back to env/config."@,
        "KRAKEN_API_KEY is set but KRAKEN_API_SECRET is missing \u{2014} env credentials ignored, falling back to config."@,
        "KRAKEN_API_SECRET is set but KRAKEN_API_KEY is missing \u{2014} env credentials ignored, falling back to config."@,
    ]
}

/// The error message when no tier holds Spot credentials.
pub open spec fn spot_missing_text() -> Seq<char> {
    "No Spot API credentials found. Use `kraken auth set` or set KRAKEN_API_KEY / KRAKEN_API_SECRET env vars."@
}

/// The texts of the Futures resolution's warnings.
pub open spec fn futures_warning_texts() -> Seq<Seq<char>> {
    seq![
        "--api-key provided without --api-secret for Futures. Flag credentials ignored, falling back to env/config."@,
        "--api-secret provided without --api-key for Futures. Flag credentials ignored, falling back to env/config."@,
        "KRAKEN_FUTURES_API_KEY is set but KRAKEN_FUTURES_API_SECRET is missing \u{2014} env credentials ignored, falling back to config."@,
        "KRAKEN_FUTURES_API_SECRET is set but KRAKEN_FUTURES_API_KEY is missing \u{2014} env credentials ignored, falling back to config."@,
    ]
}

/// The error message when no tier holds Futures credentials.
pub open spec fn futures_missing_text() -> Seq<char> {
    "No Futures API credentials found. Use `kraken setup` or set KRAKEN_FUTURES_API_KEY / KRAKEN_FUTURES_API_SECRET env vars."@
}

/// The Spot key and secret of a loaded configuration.
pub open spec fn spot_pair(config: Result<KrakenConfig>) -> Result<(Option<String>, Option<String>)> {
    match config {
        Ok(c) => Ok((c.auth.api_key, c.auth.api_secret)),
        Err(e) => Err(e),
    }
}

/// The Futures key and secret of a loaded configuration.
pub open spec fn futures_pair(config: Result<KrakenConfig>) -> Result<(Option<String>, Option<String>)> {
    match config {
        Ok(c) => Ok((c.auth.futures_api_key, c.auth.futures_api_secret)),
        Err(e) => Err(e),
    }
}

/// Resolved Spot credentials as key, secret and source.
pub open spec fn spot_triple(r: Result<SpotCredentials>) -> Result<(Seq<char>, Seq<char>, CredentialSource)> {
    match r {
        Ok(c) => Ok((c.api_key@, c.api_secret@, c.source)),
        Err(e) => Err(e),
    }
}

/// Resolved Futures credentials as key, secret and source.
pub open spec fn futures_triple(r: Result<FuturesCredentials>) -> Result<(Seq<char>, Seq<char>, CredentialSource)> {
    match r {
        Ok(c) => Ok((c.api_key@, c.api_secret@, c.source)),
        Err(e) => Err(e),
    }
}

/// Resolve Spot credentials using precedence: flag > env > config.
///
/// At each tier, both key and secret must be present. If only one is
/// provided, a warning is returned and resolution falls through to the next
/// tier. `env_key` and `env_secret` are `KRAKEN_API_KEY` and
/// `KRAKEN_API_SECRET`; `config` is the loaded configuration, whose error is
/// reported only when no earlier tier has credentials.
pub fn resolve_spot_credentials(
    flag_key: Option<&str>,
    flag_secret: Option<&str>,
    env_key: Option<String>,
    env_secret: Option<String>,
    config: Result<KrakenConfig>,
) -> (out: (Result<SpotCredentials>, Vec<String>))
    ensures
        tiers_outcome(
            spot_triple(out.0),
            opt_str_view(flag_key),
            opt_str_view(flag_secret),
            opt_view(env_key),
            opt_view(env_secret),
            spot_pair(config),
            spot_missing_text(),
        ),
        strings_view(out.1@) == precedence_warnings(
            flag_key is Some,
            flag_secret is Some,
            env_key is Some,
            env_secret is Some,
            spot_warning_texts(),
        ),
{
    let pair = match config {
        Ok(c) => Ok((c.auth.api_key, c.auth.api_secret)),
        Err(e) => Err(e),
    };
    let texts = [
        "--api-key provided without --api-secret (or --api-secret-stdin/--api-secret-file). Flag credentials ignored, falling back to env/config.",
        "--api-secret provided without --api-key. Flag credentials ignored, falling back to env/config.",
        "KRAKEN_API_KEY is set but KRAKEN_API_SECRET is missing \u{2014} env credentials ignored, falling back to config.",
        "KRAKEN_API_SECRET is set but KRAKEN_API_KEY is missing \u{2014} env credentials ignored, falling back to config.",
    ];
    let (r, warnings) = resolve_tiers(
        flag_key,
        flag_secret,
        env_key,
        env_secret,
        pair,
        texts,
        "No Spot API credentials found. Use `kraken auth set` or set KRAKEN_API_KEY / KRAKEN_API_SECRET env vars.",
    );
    assert(seq![texts[0]@, texts[1]@, texts[2]@, texts[3]@] =~= spot_warning_texts());
    let creds = match r {
        Ok((k, s, source)) => Ok(
            SpotCredentials { api_key: k, api_secret: SecretValue::new(s), source },
        ),
        Err(e) => Err(e),
    };
    (creds, warnings)
}

/// Resolve Futures credentials using precedence: flag > env > config.
///
/// At each tier, both key and secret must be present. If only one is
/// provided, a warning is returned and resolution falls through to the next
/// tier. `env_key` and `env_secret` are `KRAKEN_FUTURES_API_KEY` and
/// `KRAKEN_FUTURES_API_SECRET`; `config` is the loaded configuration, whose
/// error is reported only when no earlier tier has credentials.
pub fn resolve_futures_credentials(
    flag_key: Option<&str>,
    flag_secret: Option<&str>,
    env_key: Option<String>,
    env_secret: Option<String>,
    config: Result<KrakenConfig>,
) -> (out: (Result<FuturesCredentials>, Vec<String>))
    ensures
        tiers_outcome(
            futures_triple(out.0),
            opt_str_view(flag_key),
            opt_str_view(flag_secret),
            opt_view(env_key),
            opt_view(env_secret),
            futures_pair(config),
            futures_missing_text(),
        ),
        strings_view(out.1@) == precedence_warnings(
            flag_key is Some,
            flag_secret is Some,
            env_key is Some,
            env_secret is Some,
            futures_warning_texts(),
        ),
{
    let pair = match config {
        Ok(c) => Ok((c.auth.futures_api_key, c.auth.futures_api_secret)),
        Err(e) => Err(e),
    };
    let texts = [
        "--api-key provided without --api-secret for Futures. Flag credentials ignored, falling back to env/config.",
        "--api-secret provided without --api-key for Futures. Flag credentials ignored, falling back to env/config.",
        "KRAKEN_FUTURES_API_KEY is set but KRAKEN_FUTURES_API_SECRET is missing \u{2014} env credentials ignored, falling back to config.",
        "KRAKEN_FUTURES_API_SECRET is set but KRAKEN_FUTURES_API_KEY is missing \u{2014} env credentials ignored, falling back to config.",
    ];
    let (r, warnings) = resolve_tiers(
        flag_key,
        flag_secret,
        env_key,
        env_secret,
        pair,
        texts,
        "No Futures API credentials found. Use `kraken setup` or set KRAKEN_FUTURES_API_KEY / KRAKEN_FUTURES_API_SECRET env vars.",
    );
    assert(seq![texts[0]@, texts[1]@, texts[2]@, texts[3]@] =~= futures_warning_texts());
    let creds = match r {
        Ok((k, s, source)) => Ok(
            FuturesCredentials { api_key: k, api_secret: SecretValue::new(s), source },
        ),
        Err(e) => Err(e),
    };
    (creds, warnings)
}

} // verus!
