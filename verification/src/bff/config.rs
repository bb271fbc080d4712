//! Configuration of the web back end, read from the process environment. The
//! caller snapshots the variables; this module decides what they mean.

use vstd::prelude::*;

use crate::text::{
    IntErrorKind, eq_ascii_lowercase, owned, parse_unsigned, parse_unsigned_spec, str_eq, trim, trim_ws, ascii_lower,
    is_white_space, lemma_trim_idempotent, trim_start_index,
};

verus! {

/// One environment variable as `std::env::var` reports it.
#[derive(Debug)]
pub enum EnvVar {
    /// The variable is not set.
    NotPresent,
    /// The variable is set but is not valid Unicode.
    NotUnicode,
    /// The variable's value.
    Value(String),
}

/// A snapshot of the environment: `(name, value)` pairs; a name not listed is
/// not present.
#[derive(Debug)]
pub struct Environment {
    pub vars: Vec<(String, EnvVar)>,
}

/// The variable `name` read as: `None` when not present, `Some(None)` when not
/// Unicode, `Some(Some(value))` otherwise. The first pair for a name counts.
pub open spec fn var_text(vars: Seq<(String, EnvVar)>, name: Seq<char>) -> Option<Option<Seq<char>>>
    decreases vars.len(),
{
    if vars.len() == 0 {
        None
    } else if vars[0].0@ == name {
        match vars[0].1 {
            EnvVar::NotPresent => None,
            EnvVar::NotUnicode => Some(None),
            EnvVar::Value(v) => Some(Some(v@)),
        }
    } else {
        var_text(vars.drop_first(), name)
    }
}

/// A value that is empty or only white space.
pub open spec fn is_blank(t: Seq<char>) -> bool {
    trim_ws(t).len() == 0
}

/// How reading a variable can fail.
#[derive(Debug, Clone, Copy, PartialEq, Eq, Structural)]
pub enum ConfigErrorKind {
    MissingVar,
    NonUnicodeVar,
    InvalidPort(IntErrorKind),
    InvalidInt(IntErrorKind),
    InvalidBool,
}

/// Why the configuration could not be read.
#[derive(Debug)]
pub enum ConfigError {
    /// A required variable is missing or blank.
    MissingVar(&'static str),
    /// A variable is not valid Unicode.
    NonUnicodeVar { name: &'static str },
    /// A variable is not a port number.
    InvalidPort { name: &'static str, source: IntErrorKind },
    /// A variable is not an unsigned integer.
    InvalidInt { name: &'static str, source: IntErrorKind },
    /// A variable is not a boolean (true/false, 1/0, yes/no).
    InvalidBool { name: &'static str },
}

impl ConfigError {
    /// The variable the error is about.
    pub open spec fn name(self) -> Seq<char> {
        match self {
            ConfigError::MissingVar(n) => n@,
            ConfigError::NonUnicodeVar { name } => name@,
            ConfigError::InvalidPort { name, .. } => name@,
            ConfigError::InvalidInt { name, .. } => name@,
            ConfigError::InvalidBool { name } => name@,
        }
    }

    /// The kind of failure.
    pub open spec fn kind(self) -> ConfigErrorKind {
        match self {
            ConfigError::MissingVar(_) => ConfigErrorKind::MissingVar,
            ConfigError::NonUnicodeVar { .. } => ConfigErrorKind::NonUnicodeVar,
            ConfigError::InvalidPort { source, .. } => ConfigErrorKind::InvalidPort(source),
            ConfigError::InvalidInt { source, .. } => ConfigErrorKind::InvalidInt(source),
            ConfigError::InvalidBool { .. } => ConfigErrorKind::InvalidBool,
        }
    }
}

/// A required variable: present, Unicode and not blank.
pub open spec fn required_spec(v: Option<Option<Seq<char>>>) -> Result<Seq<char>, ConfigErrorKind> {
    match v {
        Some(Some(t)) => if is_blank(t) { Err(ConfigErrorKind::MissingVar) } else { Ok(t) },
        Some(None) => Err(ConfigErrorKind::NonUnicodeVar),
        None => Err(ConfigErrorKind::MissingVar),
    }
}

/// An optional variable with a default: any Unicode value, else the default.
pub open spec fn optional_spec(v: Option<Option<Seq<char>>>, default: Seq<char>) -> Seq<char> {
    match v {
        Some(Some(t)) => t,
        _ => default,
    }
}

/// An optional variable that counts only when Unicode and not blank.
pub open spec fn optional_present_spec(v: Option<Option<Seq<char>>>) -> Option<Seq<char>> {
    match v {
        Some(Some(t)) => if is_blank(t) { None } else { Some(t) },
        _ => None,
    }
}

/// A port: the value parsed as is (no trimming); the default when not present.
pub open spec fn port_spec(v: Option<Option<Seq<char>>>, default: u16) -> Result<nat, ConfigErrorKind> {
    match v {
        Some(Some(t)) => match parse_unsigned_spec(t, 65535) {
            Ok(n) => Ok(n),
            Err(k) => Err(ConfigErrorKind::InvalidPort(k)),
        },
        Some(None) => Err(ConfigErrorKind::NonUnicodeVar),
        None => Ok(default as nat),
    }
}

/// An unsigned integer: the trimmed value parsed; the default when not present
/// or blank.
pub open spec fn u64_spec(v: Option<Option<Seq<char>>>, default: u64) -> Result<nat, ConfigErrorKind> {
    match v {
        Some(Some(t)) => if is_blank(t) {
            Ok(default as nat)
        } else {
            match parse_unsigned_spec(trim_ws(t), u64::MAX as nat) {
                Ok(n) => Ok(n),
                Err(k) => Err(ConfigErrorKind::InvalidInt(k)),
            }
        },
        Some(None) => Err(ConfigErrorKind::NonUnicodeVar),
        None => Ok(default as nat),
    }
}

/// A boolean: the trimmed, ASCII-lower-cased value is `true`, `1` or `yes`, or
/// `false`, `0` or `no`; the default when not present or blank.
pub open spec fn bool_spec(v: Option<Option<Seq<char>>>, default: bool) -> Result<bool, ConfigErrorKind> {
    match v {
        Some(Some(t)) => if is_blank(t) {
            Ok(default)
        } else {
            let l = trim_ws(t).map_values(|c: char| ascii_lower(c));
            if l == "true"@ || l == "1"@ || l == "yes"@ {
                Ok(true)
            } else if l == "false"@ || l == "0"@ || l == "no"@ {
                Ok(false)
            } else {
                Err(ConfigErrorKind::InvalidBool)
            }
        },
        Some(None) => Err(ConfigErrorKind::NonUnicodeVar),
        None => Ok(default),
    }
}

/// The documented words of a boolean variable, whatever the default: `true`,
/// `1` and `yes` (in any letter case) are true; `false`, `0` and `no` are false.
pub proof fn lemma_bool_words(default: bool)
    ensures
        bool_spec(Some(Some("1"@)), default) == Ok::<bool, ConfigErrorKind>(true),
        bool_spec(Some(Some("true"@)), default) == Ok::<bool, ConfigErrorKind>(true),
        bool_spec(Some(Some("TRUE"@)), default) == Ok::<bool, ConfigErrorKind>(true),
        bool_spec(Some(Some("yes"@)), default) == Ok::<bool, ConfigErrorKind>(true),
        bool_spec(Some(Some("Yes"@)), default) == Ok::<bool, ConfigErrorKind>(true),
        bool_spec(Some(Some("0"@)), default) == Ok::<bool, ConfigErrorKind>(false),
        bool_spec(Some(Some("false"@)), default) == Ok::<bool, ConfigErrorKind>(false),
        bool_spec(Some(Some("False"@)), default) == Ok::<bool, ConfigErrorKind>(false),
        bool_spec(Some(Some("no"@)), default) == Ok::<bool, ConfigErrorKind>(false),
        bool_spec(Some(Some("NO"@)), default) == Ok::<bool, ConfigErrorKind>(false),
{
    reveal_strlit("1");
    reveal_strlit("true");
    reveal_strlit("TRUE");
    reveal_strlit("yes");
    reveal_strlit("Yes");
    reveal_strlit("0");
    reveal_strlit("false");
    reveal_strlit("False");
    reveal_strlit("no");
    reveal_strlit("NO");
    lemma_trim_word("1"@);
    lemma_trim_word("true"@);
    lemma_trim_word("TRUE"@);
    lemma_trim_word("yes"@);
    lemma_trim_word("Yes"@);
    lemma_trim_word("0"@);
    lemma_trim_word("false"@);
    lemma_trim_word("False"@);
    lemma_trim_word("no"@);
    lemma_trim_word("NO"@);
    assert("TRUE"@.map_values(|c: char| ascii_lower(c)) =~= "true"@);
    assert("Yes"@.map_values(|c: char| ascii_lower(c)) =~= "yes"@);
    assert("False"@.map_values(|c: char| ascii_lower(c)) =~= "false"@);
    assert("NO"@.map_values(|c: char| ascii_lower(c)) =~= "no"@);
    assert("1"@.map_values(|c: char| ascii_lower(c)) =~= "1"@);
    assert("true"@.map_values(|c: char| ascii_lower(c)) =~= "true"@);
    assert("yes"@.map_values(|c: char| ascii_lower(c)) =~= "yes"@);
    assert("0"@.map_values(|c: char| ascii_lower(c)) =~= "0"@);
    assert("false"@.map_values(|c: char| ascii_lower(c)) =~= "false"@);
    assert("no"@.map_values(|c: char| ascii_lower(c)) =~= "no"@);
}

/// A value that is not blank decides the boolean by itself, whatever the
/// default; a blank or missing one gives the default.
pub proof fn lemma_bool_default_only_when_blank(t: Seq<char>, d1: bool, d2: bool)
    ensures
        !is_blank(t) ==> bool_spec(Some(Some(t)), d1) == bool_spec(Some(Some(t)), d2),
        is_blank(t) ==> bool_spec(Some(Some(t)), d1) == Ok::<bool, ConfigErrorKind>(d1),
        bool_spec(None, d1) == Ok::<bool, ConfigErrorKind>(d1),
{
}

/// White space around a boolean's value does not matter: the value reads the
/// same as its trimmed text.
pub proof fn lemma_bool_ignores_surrounding_space(t: Seq<char>, default: bool)
    ensures
        bool_spec(Some(Some(t)), default) == bool_spec(Some(Some(trim_ws(t))), default),
{
    lemma_trim_idempotent(t);
}

/// A non-empty word without white space at either end trims to itself.
proof fn lemma_trim_word(w: Seq<char>)
    requires
        w.len() > 0,
        !is_white_space(w[0]),
        !is_white_space(w.last()),
    ensures
        trim_ws(w) == w,
        !is_blank(w),
{
    assert(trim_start_index(w) == 0);
    assert(w.skip(0) =~= w);
}

/// The variable `name` of `env`.
pub fn lookup_var<'a>(env: &'a Environment, name: &str) -> (r: Option<&'a EnvVar>)
    ensures
        var_text(env.vars@, name@) == (match r {
            None => None,
            Some(EnvVar::NotPresent) => None,
            Some(EnvVar::NotUnicode) => Some(None),
            Some(EnvVar::Value(v)) => Some(Some(v@)),
        }),
{
    let mut i: usize = 0;
    assert(env.vars@.skip(0) =~= env.vars@);
    while i < env.vars.len()
        invariant
            i <= env.vars@.len(),
            var_text(env.vars@, name@) == var_text(env.vars@.skip(i as int), name@),
        decreases env.vars@.len() - i,
    {
        assert(env.vars@.skip(i as int).drop_first() =~= env.vars@.skip(i + 1));
        assert(env.vars@.skip(i as int)[0] == env.vars@[i as int]);
        if str_eq(env.vars[i].0.as_str(), name) {
            return Some(&env.vars[i].1);
        }
        i = i + 1;
    }
    None
}

/// Whether `t` is empty or only white space.
fn blank(t: &str) -> (r: bool)
    ensures
        r == is_blank(t@),
{
    trim(t).unicode_len() == 0
}

/// A required variable.
pub fn required(env: &Environment, name: &'static str) -> (r: Result<String, ConfigError>)
    ensures
        match r {
            Ok(v) => required_spec(var_text(env.vars@, name@)) == Ok::<Seq<char>, ConfigErrorKind>(v@),
            Err(e) => e.name() == name@ && required_spec(var_text(env.vars@, name@)) == Err::<Seq<char>, ConfigErrorKind>(e.kind()),
        },
{
    match lookup_var(env, name) {
        Some(EnvVar::Value(v)) => {
            if blank(v.as_str()) {
                Err(ConfigError::MissingVar(name))
            } else {
                Ok(v.clone())
            }
        },
        Some(EnvVar::NotUnicode) => Err(ConfigError::NonUnicodeVar { name }),
        _ => Err(ConfigError::MissingVar(name)),
    }
}

/// An optional variable with a default.
pub fn optional(env: &Environment, name: &str, default: &str) -> (r: String)
    ensures
        r@ == optional_spec(var_text(env.vars@, name@), default@),
{
    match lookup_var(env, name) {
        Some(EnvVar::Value(v)) => v.clone(),
        _ => owned(default),
    }
}

/// An optional variable that counts only when not blank.
pub fn optional_present(env: &Environment, name: &str) -> (r: Option<String>)
    ensures
        match r {
            Some(v) => optional_present_spec(var_text(env.vars@, name@)) == Some(v@),
            None => optional_present_spec(var_text(env.vars@, name@)) is None,
        },
{
    match lookup_var(env, name) {
        Some(EnvVar::Value(v)) => {
            if blank(v.as_str()) {
                None
            } else {
                Some(v.clone())
            }
        },
        _ => None,
    }
}

/// A port number.
pub fn parse_port(env: &Environment, name: &'static str, default: u16) -> (r: Result<u16, ConfigError>)
    ensures
        match r {
            Ok(p) => port_spec(var_text(env.vars@, name@), default) == Ok::<nat, ConfigErrorKind>(p as nat),
            Err(e) => e.name() == name@ && port_spec(var_text(env.vars@, name@), default) == Err::<nat, ConfigErrorKind>(e.kind()),
        },
{
    match lookup_var(env, name) {
        Some(EnvVar::Value(v)) => match parse_unsigned(v.as_str(), 65535) {
            Ok(n) => Ok(n as u16),
            Err(k) => Err(ConfigError::InvalidPort { name, source: k }),
        },
        Some(EnvVar::NotUnicode) => Err(ConfigError::NonUnicodeVar { name }),
        _ => Ok(default),
    }
}

/// An unsigned integer.
pub fn parse_u64(env: &Environment, name: &'static str, default: u64) -> (r: Result<u64, ConfigError>)
    ensures
        match r {
            Ok(n) => u64_spec(var_text(env.vars@, name@), default) == Ok::<nat, ConfigErrorKind>(n as nat),
            Err(e) => e.name() == name@ && u64_spec(var_text(env.vars@, name@), default) == Err::<nat, ConfigErrorKind>(e.kind()),
        },
{
    match lookup_var(env, name) {
        Some(EnvVar::Value(v)) => {
            if blank(v.as_str()) {
                Ok(default)
            } else {
                match parse_unsigned(trim(v.as_str()), u64::MAX) {
                    Ok(n) => Ok(n),
                    Err(k) => Err(ConfigError::InvalidInt { name, source: k }),
                }
            }
        },
        Some(EnvVar::NotUnicode) => Err(ConfigError::NonUnicodeVar { name }),
        _ => Ok(default),
    }
}

/// A boolean.
pub fn parse_bool(env: &Environment, name: &'static str, default: bool) -> (r: Result<bool, ConfigError>)
    ensures
        match r {
            Ok(b) => bool_spec(var_text(env.vars@, name@), default) == Ok::<bool, ConfigErrorKind>(b),
            Err(e) => e.name() == name@ && bool_spec(var_text(env.vars@, name@), default) == Err::<bool, ConfigErrorKind>(e.kind()),
        },
{
    match lookup_var(env, name) {
        Some(EnvVar::Value(v)) => {
            if blank(v.as_str()) {
                Ok(default)
            } else {
                let t = trim(v.as_str());
                if eq_ascii_lowercase(t, "true") || eq_ascii_lowercase(t, "1") || eq_ascii_lowercase(t, "yes") {
                    Ok(true)
                } else if eq_ascii_lowercase(t, "false") || eq_ascii_lowercase(t, "0") || eq_ascii_lowercase(t, "no") {
                    Ok(false)
                } else {
                    Err(ConfigError::InvalidBool { name })
                }
            }
        },
        Some(EnvVar::NotUnicode) => Err(ConfigError::NonUnicodeVar { name }),
        _ => Ok(default),
    }
}

/// OIDC configuration of the login flow; the back end is a confidential client.
#[derive(Debug)]
pub struct OidcConfig {
    /// Public realm URL: the browser's, and the `iss` verified on the id token.
    pub issuer_url: String,
    /// Realm URL for the back end's own calls; defaults to `issuer_url`.
    pub internal_url: String,
    pub client_id: String,
    pub client_secret: String,
    /// Where the realm redirects after the authorization step.
    pub redirect_uri: String,
    /// Where the realm redirects after single sign-out.
    pub post_logout_redirect_uri: String,
}

/// Session cookie and lifetime configuration.
#[derive(Debug)]
pub struct SessionConfig {
    /// The cookie's `Secure` attribute (and the `__Host-` name prefix).
    pub cookie_secure: bool,
    pub idle_timeout_secs: u64,
    pub absolute_timeout_secs: u64,
}

/// The back end's configuration.
#[derive(Debug)]
pub struct Config {
    pub bff_port: u16,
    pub mgmtapi_url: String,
    pub identifier_registry_url: String,
    pub oidc: OidcConfig,
    pub session: SessionConfig,
    /// Directory of built front-end assets to serve, if any.
    pub spa_dir: Option<String>,
}

/// The first variable, in the order the configuration reads them, that fails,
/// with how it fails; `None` when all are read.
pub open spec fn first_config_error(vars: Seq<(String, EnvVar)>) -> Option<(Seq<char>, ConfigErrorKind)> {
    let v = |n: Seq<char>| var_text(vars, n);
    if required_spec(v("OIDC_ISSUER_URL"@)) is Err {
        Some(("OIDC_ISSUER_URL"@, required_spec(v("OIDC_ISSUER_URL"@))->Err_0))
    } else if port_spec(v("BFF_PORT"@), 3000) is Err {
        Some(("BFF_PORT"@, port_spec(v("BFF_PORT"@), 3000)->Err_0))
    } else if required_spec(v("MGMTAPI_URL"@)) is Err {
        Some(("MGMTAPI_URL"@, required_spec(v("MGMTAPI_URL"@))->Err_0))
    } else if required_spec(v("OIDC_CLIENT_ID"@)) is Err {
        Some(("OIDC_CLIENT_ID"@, required_spec(v("OIDC_CLIENT_ID"@))->Err_0))
    } else if required_spec(v("OIDC_CLIENT_SECRET"@)) is Err {
        Some(("OIDC_CLIENT_SECRET"@, required_spec(v("OIDC_CLIENT_SECRET"@))->Err_0))
    } else if required_spec(v("OIDC_REDIRECT_URI"@)) is Err {
        Some(("OIDC_REDIRECT_URI"@, required_spec(v("OIDC_REDIRECT_URI"@))->Err_0))
    } else if required_spec(v("OIDC_POST_LOGOUT_REDIRECT_URI"@)) is Err {
        Some(("OIDC_POST_LOGOUT_REDIRECT_URI"@, required_spec(v("OIDC_POST_LOGOUT_REDIRECT_URI"@))->Err_0))
    } else if bool_spec(v("SESSION_COOKIE_SECURE"@), false) is Err {
        Some(("SESSION_COOKIE_SECURE"@, bool_spec(v("SESSION_COOKIE_SECURE"@), false)->Err_0))
    } else if u64_spec(v("SESSION_IDLE_TIMEOUT_SECS"@), 1800) is Err {
        Some(("SESSION_IDLE_TIMEOUT_SECS"@, u64_spec(v("SESSION_IDLE_TIMEOUT_SECS"@), 1800)->Err_0))
    } else if u64_spec(v("SESSION_ABSOLUTE_TIMEOUT_SECS"@), 36000) is Err {
        Some(("SESSION_ABSOLUTE_TIMEOUT_SECS"@, u64_spec(v("SESSION_ABSOLUTE_TIMEOUT_SECS"@), 36000)->Err_0))
    } else {
        None
    }
}

impl Config {
    /// Reads the configuration from an environment snapshot. The first variable
    /// (in reading order) that fails decides the error; otherwise each field is
    /// its variable read by its rule. `OIDC_INTERNAL_URL` defaults to the issuer
    /// URL.
    pub fn from_env(env: &Environment) -> (r: Result<Self, ConfigError>)
        ensures
            match r {
                Err(e) => first_config_error(env.vars@) == Some((e.name(), e.kind())),
                Ok(c) => {
                    let v = |n: Seq<char>| var_text(env.vars@, n);
                    &&& first_config_error(env.vars@) is None
                    &&& required_spec(v("OIDC_ISSUER_URL"@)) == Ok::<Seq<char>, ConfigErrorKind>(c.oidc.issuer_url@)
                    &&& c.oidc.internal_url@ == (match optional_present_spec(v("OIDC_INTERNAL_URL"@)) {
                        Some(u) => u,
                        None => c.oidc.issuer_url@,
                    })
                    &&& port_spec(v("BFF_PORT"@), 3000) == Ok::<nat, ConfigErrorKind>(c.bff_port as nat)
                    &&& required_spec(v("MGMTAPI_URL"@)) == Ok::<Seq<char>, ConfigErrorKind>(c.mgmtapi_url@)
                    &&& c.identifier_registry_url@ == optional_spec(v("IDENTIFIER_REGISTRY_URL"@), ""@)
                    &&& required_spec(v("OIDC_CLIENT_ID"@)) == Ok::<Seq<char>, ConfigErrorKind>(c.oidc.client_id@)
                    &&& required_spec(v("OIDC_CLIENT_SECRET"@)) == Ok::<Seq<char>, ConfigErrorKind>(c.oidc.client_secret@)
                    &&& required_spec(v("OIDC_REDIRECT_URI"@)) == Ok::<Seq<char>, ConfigErrorKind>(c.oidc.redirect_uri@)
                    &&& required_spec(v("OIDC_POST_LOGOUT_REDIRECT_URI"@)) == Ok::<Seq<char>, ConfigErrorKind>(
                        c.oidc.post_logout_redirect_uri@)
                    &&& bool_spec(v("SESSION_COOKIE_SECURE"@), false) == Ok::<bool, ConfigErrorKind>(c.session.cookie_secure)
                    &&& u64_spec(v("SESSION_IDLE_TIMEOUT_SECS"@), 1800) == Ok::<nat, ConfigErrorKind>(
                        c.session.idle_timeout_secs as nat)
                    &&& u64_spec(v("SESSION_ABSOLUTE_TIMEOUT_SECS"@), 36000) == Ok::<nat, ConfigErrorKind>(
                        c.session.absolute_timeout_secs as nat)
                    &&& match c.spa_dir {
                        Some(d) => optional_present_spec(v("SPA_DIR"@)) == Some(d@),
                        None => optional_present_spec(v("SPA_DIR"@)) is None,
                    }
                },
            },
    {
        let oidc_issuer_url = match required(env, "OIDC_ISSUER_URL") {
            Ok(u) => u,
            Err(e) => return Err(e),
        };
        let oidc_internal_url = match optional_present(env, "OIDC_INTERNAL_URL") {
            Some(u) => u,
            None => oidc_issuer_url.clone(),
        };
        let bff_port = match parse_port(env, "BFF_PORT", 3000) {
            Ok(p) => p,
            Err(e) => return Err(e),
        };
        let mgmtapi_url = match required(env, "MGMTAPI_URL") {
            Ok(u) => u,
            Err(e) => return Err(e),
        };
        let identifier_registry_url = optional(env, "IDENTIFIER_REGISTRY_URL", "");
        let client_id = match required(env, "OIDC_CLIENT_ID") {
            Ok(u) => u,
            Err(e) => return Err(e),
        };
        let client_secret = match required(env, "OIDC_CLIENT_SECRET") {
            Ok(u) => u,
            Err(e) => return Err(e),
        };
        let redirect_uri = match required(env, "OIDC_REDIRECT_URI") {
            Ok(u) => u,
            Err(e) => return Err(e),
        };
        let post_logout_redirect_uri = match required(env, "OIDC_POST_LOGOUT_REDIRECT_URI") {
            Ok(u) => u,
            Err(e) => return Err(e),
        };
        let cookie_secure = match parse_bool(env, "SESSION_COOKIE_SECURE", false) {
            Ok(b) => b,
            Err(e) => return Err(e),
        };
        let idle_timeout_secs = match parse_u64(env, "SESSION_IDLE_TIMEOUT_SECS", 1800) {
            Ok(n) => n,
            Err(e) => return Err(e),
        };
        let absolute_timeout_secs = match parse_u64(env, "SESSION_ABSOLUTE_TIMEOUT_SECS", 36000) {
            Ok(n) => n,
            Err(e) => return Err(e),
        };
        let spa_dir = optional_present(env, "SPA_DIR");
        Ok(Config {
            bff_port,
            mgmtapi_url,
            identifier_registry_url,
            oidc: OidcConfig {
                issuer_url: oidc_issuer_url,
                internal_url: oidc_internal_url,
                client_id,
                client_secret,
                redirect_uri,
                post_logout_redirect_uri,
            },
            session: SessionConfig { cookie_secure, idle_timeout_secs, absolute_timeout_secs },
            spa_dir,
        })
    }
}

} // verus!
