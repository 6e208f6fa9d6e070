//! The CORS policy the server wraps around every handler.
//!
//! The policy is fixed: cross-origin `GET` and `POST` are allowed, with the
//! `Content-Type` and `Accept` request headers, and preflight answers may
//! be cached for ten hours. The middleware that enforces it belongs to the
//! HTTP collaborator; this module pins down what it is configured with.

use vstd::prelude::*;

verus! {

/// Number of seconds a preflight answer may be cached.
pub const CORS_MAX_AGE_SECONDS: u32 = 36000;

/// What the CORS middleware is configured with.
pub struct CorsPolicy {
    pub allowed_methods: Vec<String>,
    pub allowed_headers: Vec<String>,
    pub max_age_seconds: u32,
}

impl CorsPolicy {
    /// The policy as served: methods `GET` and `POST`, headers
    /// `Content-Type` and `Accept`, max-age `36000`.
    pub open spec fn is_server_policy(self) -> bool {
        &&& self.allowed_methods@.len() == 2
        &&& self.allowed_methods@[0]@ == "GET"@
        &&& self.allowed_methods@[1]@ == "POST"@
        &&& self.allowed_headers@.len() == 2
        &&& self.allowed_headers@[0]@ == "Content-Type"@
        &&& self.allowed_headers@[1]@ == "Accept"@
        &&& self.max_age_seconds == CORS_MAX_AGE_SECONDS
    }
}

/// Builds the policy every response is wrapped in.
pub fn get_cors_factory() -> (p: CorsPolicy)
    ensures
        p.is_server_policy(),
{
    let mut methods: Vec<String> = Vec::new();
    methods.push(String::from_str("GET"));
    methods.push(String::from_str("POST"));
    let mut headers: Vec<String> = Vec::new();
    headers.push(String::from_str("Content-Type"));
    headers.push(String::from_str("Accept"));
    CorsPolicy { allowed_methods: methods, allowed_headers: headers, max_age_seconds: 36000 }
}

} // verus!
