//! Configuration resolution.
//!
//! The server reads two settings at startup: the address to bind and the
//! directory that files are served from. Each comes from an environment
//! variable when that variable is set and non-empty, and otherwise takes a
//! documented default. The environment read itself happens in the binary;
//! these functions take the raw value, if any, and decide what it means.

use vstd::prelude::*;

verus! {

/// The listener address used when `BIND_ADDR` is unset or empty.
pub open spec fn default_bind_address() -> Seq<char> {
    "0.0.0.0:5000"@
}

/// The web root used when `WEB_ROOT` is unset or empty.
pub open spec fn default_web_root() -> Seq<char> {
    "./"@
}

/// What a raw environment value resolves to: itself when present and
/// non-empty, the given default otherwise.
pub open spec fn resolved_setting(env_value: Option<Seq<char>>, default: Seq<char>) -> Seq<char> {
    match env_value {
        Some(v) => if v.len() > 0 {
            v
        } else {
            default
        },
        None => default,
    }
}

/// The address the server binds, given the raw value of `BIND_ADDR`.
pub fn get_bind_address(env_value: Option<String>) -> (r: String)
    ensures
        r@ == resolved_setting(
            match env_value {
                Some(v) => Some(v@),
                None => None,
            },
            default_bind_address(),
        ),
{
    match env_value {
        Some(v) => {
            if v.as_str().is_empty() {
                String::from_str("0.0.0.0:5000")
            } else {
                v
            }
        },
        None => String::from_str("0.0.0.0:5000"),
    }
}

/// The directory files are served from, given the raw value of `WEB_ROOT`.
pub fn get_web_root(env_value: Option<String>) -> (r: String)
    ensures
        r@ == resolved_setting(
            match env_value {
                Some(v) => Some(v@),
                None => None,
            },
            default_web_root(),
        ),
{
    match env_value {
        Some(v) => {
            if v.as_str().is_empty() {
                String::from_str("./")
            } else {
                v
            }
        },
        None => String::from_str("./"),
    }
}

/// The immutable configuration snapshot, taken once at startup. No
/// handler reads the environment afterwards; mutating it mid-run changes
/// nothing.
pub struct Config {
    pub bind_address: String,
    pub web_root: String,
}

impl Config {
    /// Freezes the two settings from the raw values of `BIND_ADDR` and
    /// `WEB_ROOT`.
    pub fn new(bind_env: Option<String>, root_env: Option<String>) -> (c: Config)
        ensures
            c.bind_address@ == resolved_setting(
                match bind_env {
                    Some(v) => Some(v@),
                    None => None,
                },
                default_bind_address(),
            ),
            c.web_root@ == resolved_setting(
                match root_env {
                    Some(v) => Some(v@),
                    None => None,
                },
                default_web_root(),
            ),
    {
        Config { bind_address: get_bind_address(bind_env), web_root: get_web_root(root_env) }
    }
}

/// The line printed once at startup, naming the advertised address and
/// the web root.
pub fn startup_banner(bind_address: &str, web_root: &str) -> (r: String)
    ensures
        r@ == "Starting server at http://"@ + bind_address@ + "/, static files root at "@
            + web_root@,
{
    let mut r = String::from_str("Starting server at http://");
    r.append(bind_address);
    r.append("/, static files root at ");
    r.append(web_root);
    r
}

} // verus!
