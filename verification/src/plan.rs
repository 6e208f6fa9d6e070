//! The per-request decision.
//!
//! A request is first routed; on the delay route the millisecond segment
//! is then parsed, and a segment that fails to parse is answered with
//! `400 Bad Request`. Everything that remains is served the same way: the
//! captured file name goes through the path resolver, after a pause of the
//! requested length on the delay route and none otherwise. The pause, the
//! filesystem probe and the file open are the binary's work; this function
//! decides everything up to them.

use vstd::prelude::*;

use crate::delay::{dec_value, digits_part, is_valid_delay, parse_delay};
use crate::route::{
    delay_capture, delay_filename_capture, match_route, matches_delay_route, Route,
};

verus! {

/// What the server does with a request: serve a file name after a delay,
/// reject a malformed delay, or fall through to the router's default.
#[derive(Debug, PartialEq)]
pub enum RequestPlan {
    Serve { delay_ms: u64, filename: String },
    BadRequest,
    NotFound,
}

/// Decides a request from its method and URL path alone.
///
/// On the delay route a response is owed after exactly the parsed number
/// of milliseconds; elsewhere at once. The served name is the route's
/// `filename` capture in either case, so, except for the pause, the delay
/// route answers exactly as the plain route answers for that capture.
pub fn plan_request(method: &str, path: &str) -> (p: RequestPlan)
    requires
        path@.len() >= 1,
        path@[0] == '/',
    ensures
        match p {
            RequestPlan::Serve { delay_ms, filename } => method@ == "GET"@ && if matches_delay_route(
                path@,
            ) {
                &&& is_valid_delay(delay_capture(path@))
                &&& delay_ms as int == dec_value(digits_part(delay_capture(path@)))
                &&& filename@ == delay_filename_capture(path@)
            } else {
                delay_ms == 0 && filename@ == path@.skip(1)
            },
            RequestPlan::BadRequest => method@ == "GET"@ && matches_delay_route(path@)
                && !is_valid_delay(delay_capture(path@)),
            RequestPlan::NotFound => method@ != "GET"@,
        },
{
    match match_route(method, path) {
        Route::NotFound => RequestPlan::NotFound,
        Route::Index { filename } => RequestPlan::Serve { delay_ms: 0, filename },
        Route::Delayed { delay, filename } => {
            match parse_delay(delay.as_str()) {
                Some(ms) => RequestPlan::Serve { delay_ms: ms, filename },
                None => RequestPlan::BadRequest,
            }
        },
    }
}

} // verus!
