//! Path resolution with the single-page-application fallback.
//!
//! Given the file name captured from the URL and the configured web root,
//! the resolver picks the filesystem path to serve. An empty name stands
//! for `index.html`; a name whose joined path does not exist on disk is
//! replaced by the web root's `index.html`, so any unknown client-side
//! route re-serves the application shell. The existence probe itself is
//! filesystem work that the binary performs; the resolver takes its
//! outcome as an argument.

use vstd::prelude::*;

verus! {

/// The file name actually looked up: an empty capture means `index.html`.
pub open spec fn effective_filename(filename: Seq<char>) -> Seq<char> {
    if filename.len() == 0 {
        "index.html"@
    } else {
        filename
    }
}

/// Literal join of the web root and a name with a single separator;
/// duplicate separators are tolerated downstream, never collapsed here.
pub open spec fn joined_path(web_root: Seq<char>, name: Seq<char>) -> Seq<char> {
    web_root + "/"@ + name
}

/// The first candidate for a request: the captured name under the web root.
pub open spec fn primary_path(web_root: Seq<char>, filename: Seq<char>) -> Seq<char> {
    joined_path(web_root, effective_filename(filename))
}

/// The fallback served when the primary candidate is absent.
pub open spec fn fallback_path(web_root: Seq<char>) -> Seq<char> {
    joined_path(web_root, "index.html"@)
}

/// The filesystem path chosen for a request, and whether the primary
/// candidate existed when it was probed.
pub struct ResolvedTarget {
    pub path: String,
    pub existed: bool,
}

/// Builds the primary candidate path for a captured file name.
pub fn primary_target(web_root: &str, filename: &str) -> (r: String)
    ensures
        r@ == primary_path(web_root@, filename@),
{
    let mut r = String::from_str(web_root);
    r.append("/");
    if filename.is_empty() {
        r.append("index.html");
    } else {
        r.append(filename);
    }
    r
}

/// Builds the fallback path, `index.html` under the web root.
pub fn fallback_target(web_root: &str) -> (r: String)
    ensures
        r@ == fallback_path(web_root@),
{
    let mut r = String::from_str(web_root);
    r.append("/");
    r.append("index.html");
    r
}

/// Chooses the path to serve: the primary candidate when the filesystem
/// probe found it, the fallback otherwise.
pub fn resolve_target(web_root: &str, filename: &str, primary_exists: bool) -> (t: ResolvedTarget)
    ensures
        t.existed == primary_exists,
        primary_exists ==> t.path@ == primary_path(web_root@, filename@),
        !primary_exists ==> t.path@ == fallback_path(web_root@),
{
    if primary_exists {
        ResolvedTarget { path: primary_target(web_root, filename), existed: true }
    } else {
        ResolvedTarget { path: fallback_target(web_root), existed: false }
    }
}

/// An empty capture and a missing file lead to the same place: for the
/// empty name the primary candidate already is the fallback, so `GET /`
/// serves the web root's `index.html` whether or not it is probed first.
pub proof fn lemma_empty_filename_is_fallback(web_root: Seq<char>)
    ensures
        primary_path(web_root, Seq::<char>::empty()) == fallback_path(web_root),
{
}

/// Every path the resolver can pick begins with the configured web root
/// followed by the separator: serving never leaves the root by
/// construction. (Nothing here normalizes `..` segments inside the
/// captured name; a collaborator that resolves them may still traverse.)
pub proof fn lemma_resolved_under_web_root(web_root: Seq<char>, filename: Seq<char>)
    ensures
        primary_path(web_root, filename).take(web_root.len() as int) == web_root,
        primary_path(web_root, filename)[web_root.len() as int] == '/',
        fallback_path(web_root).take(web_root.len() as int) == web_root,
        fallback_path(web_root)[web_root.len() as int] == '/',
{
    reveal_strlit("/");
    assert(primary_path(web_root, filename).take(web_root.len() as int) =~= web_root);
    assert(fallback_path(web_root).take(web_root.len() as int) =~= web_root);
}

} // verus!
