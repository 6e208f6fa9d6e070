//! URL routing.
//!
//! Two routes are offered, matched in order. `GET /delay/{delay}/{filename}`
//! captures `delay` greedily, up to the last `/` of what follows the
//! `/delay/` prefix, and `filename` as the rest of the tail; it matches
//! only when such a `/` exists. `GET /{filename}` captures the whole path
//! after the leading `/`, possibly empty. Any other method falls through
//! to the router's default response.

use vstd::prelude::*;

verus! {

/// Where a request is dispatched: the delay route with its two captures,
/// the plain file route with its capture, or the router's default.
#[derive(Debug, PartialEq)]
pub enum Route {
    Delayed { delay: String, filename: String },
    Index { filename: String },
    NotFound,
}

/// The index of the last `/` in `s`, or `-1` when `s` has none.
pub open spec fn last_slash(s: Seq<char>) -> int
    decreases s.len(),
{
    if s.len() == 0 {
        -1
    } else if s.last() == '/' {
        s.len() - 1
    } else {
        last_slash(s.drop_last())
    }
}

/// The delay route matches when the path begins with `/delay/` and the
/// tail after that prefix still contains a `/` to separate the captures.
pub open spec fn matches_delay_route(path: Seq<char>) -> bool {
    path.len() >= 7 && path.take(7) == "/delay/"@ && last_slash(path.skip(7)) >= 0
}

/// The `delay` capture: the tail after `/delay/`, up to its last `/`.
pub open spec fn delay_capture(path: Seq<char>) -> Seq<char> {
    path.skip(7).take(last_slash(path.skip(7)))
}

/// The `filename` capture of the delay route: what follows the tail's
/// last `/`.
pub open spec fn delay_filename_capture(path: Seq<char>) -> Seq<char> {
    path.skip(7).skip(last_slash(path.skip(7)) + 1)
}

/// A `/` at `j` with none after it is the last one.
proof fn lemma_last_slash_at(s: Seq<char>, j: int)
    requires
        0 <= j < s.len(),
        s[j] == '/',
        forall|k: int| j < k < s.len() ==> s[k] != '/',
    ensures
        last_slash(s) == j,
    decreases s.len(),
{
    if j == s.len() - 1 {
    } else {
        assert(s.last() != '/');
        assert(s.drop_last() =~= s.take(s.len() - 1));
        assert(s.drop_last()[j] == s[j]);
        assert(forall|k: int| j < k < s.len() - 1 ==> #[trigger] s.drop_last()[k] == s[k]);
        lemma_last_slash_at(s.drop_last(), j);
    }
}

/// A string without `/` has no last one.
proof fn lemma_no_slash(s: Seq<char>)
    requires
        forall|k: int| 0 <= k < s.len() ==> s[k] != '/',
    ensures
        last_slash(s) == -1,
    decreases s.len(),
{
    if s.len() > 0 {
        assert(s.last() != '/');
        assert(forall|k: int| 0 <= k < s.len() - 1 ==> #[trigger] s.drop_last()[k] == s[k]);
        lemma_no_slash(s.drop_last());
    }
}

/// Character-for-character string equality.
fn str_eq(a: &str, b: &str) -> (r: bool)
    ensures
        r == (a@ == b@),
{
    let na = a.unicode_len();
    let nb = b.unicode_len();
    if na != nb {
        return false;
    }
    let mut i: usize = 0;
    while i < na
        invariant
            0 <= i <= na,
            na == a@.len(),
            na == b@.len(),
            forall|k: int| 0 <= k < i ==> a@[k] == b@[k],
        decreases na - i,
    {
        if a.get_char(i) != b.get_char(i) {
            return false;
        }
        i += 1;
    }
    proof {
        assert(a@ =~= b@);
    }
    true
}

/// Dispatches a request as the route table does: the delay route first,
/// then the catch-all file route, both for `GET` only.
pub fn match_route(method: &str, path: &str) -> (r: Route)
    requires
        path@.len() >= 1,
        path@[0] == '/',
    ensures
        match r {
            Route::Delayed { delay, filename } => method@ == "GET"@ && matches_delay_route(path@)
                && delay@ == delay_capture(path@) && filename@ == delay_filename_capture(path@),
            Route::Index { filename } => method@ == "GET"@ && !matches_delay_route(path@)
                && filename@ == path@.skip(1),
            Route::NotFound => method@ != "GET"@,
        },
{
    if !str_eq(method, "GET") {
        return Route::NotFound;
    }
    let n = path.unicode_len();
    if n >= 7 {
        let prefix = path.substring_char(0, 7);
        proof {
            assert(path@.take(7) =~= prefix@);
        }
        if str_eq(prefix, "/delay/") {
            let mut j: usize = n;
            while j > 7
                invariant
                    7 <= j <= n,
                    n == path@.len(),
                    method@ == "GET"@,
                    path@.take(7) == "/delay/"@,
                    forall|k: int| j <= k < n ==> path@[k] != '/',
                decreases j,
            {
                if path.get_char(j - 1) == '/' {
                    let ghost t: int = j - 1 - 7;
                    proof {
                        assert(path@.skip(7)[t] == path@[j - 1]);
                        assert(forall|k: int|
                            t < k < path@.skip(7).len()
                                ==> #[trigger] path@.skip(7)[k] == path@[k + 7]
                                && path@[k + 7] != '/');
                        lemma_last_slash_at(path@.skip(7), t);
                        assert(path@.skip(7).take(t) =~= path@.subrange(7, j - 1));
                        assert(path@.skip(7).skip(t + 1) =~= path@.subrange(j as int, n as int));
                    }
                    let delay_str = path.substring_char(7, j - 1);
                    let filename_str = path.substring_char(j, n);
                    return Route::Delayed {
                        delay: String::from_str(delay_str),
                        filename: String::from_str(filename_str),
                    };
                }
                j -= 1;
            }
            proof {
                assert(forall|k: int|
                    0 <= k < path@.skip(7).len() ==> #[trigger] path@.skip(7)[k] == path@[k + 7]
                        && path@[k + 7] != '/');
                lemma_no_slash(path@.skip(7));
            }
        }
    }
    let filename_str = path.substring_char(1, n);
    proof {
        assert(path@.subrange(1, n as int) =~= path@.skip(1));
    }
    Route::Index { filename: String::from_str(filename_str) }
}

} // verus!
