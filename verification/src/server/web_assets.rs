//! Serving the admin UI: which file a path asks for, and which paths are
//! never answered with the UI.
use vstd::prelude::*;

use crate::server::error::ApiError;
use crate::text::{contains_seq, contains_str, has_prefix, strip_prefix};

verus! {

/// How a path outside the API is answered.
#[derive(Debug, Clone, PartialEq, Eq)]
pub enum StaticRoute {
    /// A path in an API namespace: a JSON 404, never the UI.
    ApiNotFound,
    /// A path that climbs out of the UI directory.
    Forbidden,
    /// The file at this path below the UI directory (the UI's `index.html`
    /// where it does not exist).
    File(String),
}

/// The MIME type that `mime_guess` derives from the extension of `path`
/// (`application/octet-stream` where it knows none).
pub uninterp spec fn mime_of_path(path: Seq<char>) -> Seq<char>;

/// `path` without its leading slashes.
pub open spec fn without_leading_slashes(path: Seq<char>) -> Seq<char>
    decreases path.len(),
{
    if path.len() > 0 && path[0] == '/' {
        without_leading_slashes(path.drop_first())
    } else {
        path
    }
}

/// A path in one of the API namespaces `api`, `admin`, `subscribe`.
pub open spec fn api_path(p: Seq<char>) -> bool {
    has_prefix(p, "api"@) || has_prefix(p, "admin"@) || has_prefix(p, "subscribe"@)
}

/// How a path is answered: `trimmed` is the path without leading slashes,
/// `decoded` its percent-decoding where that succeeded.
pub open spec fn route_of(trimmed: Seq<char>, decoded: Option<Seq<char>>) -> StaticRouteSpec {
    let p = match decoded {
        Some(d) => d,
        None => trimmed,
    };
    let rel = if trimmed.len() == 0 {
        "index.html"@
    } else {
        trimmed
    };
    if api_path(p) {
        StaticRouteSpec::ApiNotFound
    } else if contains_seq(rel, ".."@) {
        StaticRouteSpec::Forbidden
    } else {
        StaticRouteSpec::File(rel)
    }
}

/// The abstract value of a `StaticRoute`.
pub enum StaticRouteSpec {
    ApiNotFound,
    Forbidden,
    File(Seq<char>),
}

impl StaticRoute {
    /// The abstract value.
    pub open spec fn spec(self) -> StaticRouteSpec {
        match self {
            StaticRoute::ApiNotFound => StaticRouteSpec::ApiNotFound,
            StaticRoute::Forbidden => StaticRouteSpec::Forbidden,
            StaticRoute::File(p) => StaticRouteSpec::File(p@),
        }
    }
}

/// `mime_guess::from_path(path).first_or_octet_stream()` as text.
#[verifier::external_body]
fn guess_mime(path: &str) -> (r: String)
    ensures
        r@ == mime_of_path(path@),
{
    mime_guess::from_path(path).first_or_octet_stream().to_string()
}

/// The MIME type of a UI file, from its extension.
pub fn mime_for(path: &str) -> (r: String)
    ensures
        r@ == mime_of_path(path@),
{
    guess_mime(path)
}

proof fn lemma_strip_slashes(path: Seq<char>, i: int)
    requires
        0 <= i <= path.len(),
        forall|k: int| 0 <= k < i ==> path[k] == '/',
    ensures
        without_leading_slashes(path) == without_leading_slashes(path.skip(i)),
    decreases i,
{
    if i > 0 {
        lemma_strip_slashes(path.drop_first(), i - 1);
        assert(path.drop_first().skip(i - 1) =~= path.skip(i));
    } else {
        assert(path.skip(0) =~= path);
    }
}

/// The path without its leading slashes.
pub fn trim_leading_slashes(path: &str) -> (r: &str)
    ensures
        r@ == without_leading_slashes(path@),
{
    let n = path.unicode_len();
    let mut i: usize = 0;
    while i < n
        invariant
            i <= n,
            n == path@.len(),
            forall|k: int| 0 <= k < i ==> path@[k] == '/',
        ensures
            i <= n,
            forall|k: int| 0 <= k < i ==> path@[k] == '/',
            i < n ==> path@[i as int] != '/',
        decreases n - i,
    {
        if path.get_char(i) != '/' {
            break;
        }
        i = i + 1;
    }
    proof {
        lemma_strip_slashes(path@, i as int);
        assert(path@.skip(i as int) =~= path@.subrange(i as int, n as int));
    }
    path.substring_char(i, n)
}

/// How a path is answered.
pub fn static_route(trimmed: &str, decoded: Option<&str>) -> (r: StaticRoute)
    ensures
        r.spec() == route_of(
            trimmed@,
            match decoded {
                Some(d) => Some(d@),
                None => None,
            },
        ),
{
    let p = match decoded {
        Some(d) => d,
        None => trimmed,
    };
    if strip_prefix(p, "api").is_some() || strip_prefix(p, "admin").is_some() || strip_prefix(
        p,
        "subscribe",
    ).is_some() {
        return StaticRoute::ApiNotFound;
    }
    let rel: &str = if trimmed.unicode_len() == 0 {
        "index.html"
    } else {
        trimmed
    };
    if contains_str(rel, "..") {
        return StaticRoute::Forbidden;
    }
    StaticRoute::File(String::from_str(rel))
}

/// The answer to an unknown path in an API namespace.
pub fn route_not_found() -> (r: ApiError)
    ensures
        r.is(404, "not_found"@, "route not found"@),
{
    ApiError::not_found("route not found")
}

/// No path in an API namespace is answered with the UI or one of its files.
pub proof fn lemma_api_paths_never_served(trimmed: Seq<char>, decoded: Option<Seq<char>>)
    requires
        api_path(
            match decoded {
                Some(d) => d,
                None => trimmed,
            },
        ),
    ensures
        route_of(trimmed, decoded) == StaticRouteSpec::ApiNotFound,
{
}

/// Every path whose text (decoded where decoding succeeded) starts with
/// `api`, `admin` or `subscribe` is answered with the API 404, never with a
/// UI file.
pub proof fn lemma_api_prefixes_answer_404(trimmed: Seq<char>, decoded: Option<Seq<char>>)
    ensures
        ({
            let p = match decoded {
                Some(d) => d,
                None => trimmed,
            };
            ||| (p.len() >= 3 && p.subrange(0, 3) == seq!['a', 'p', 'i'])
            ||| (p.len() >= 5 && p.subrange(0, 5) == seq!['a', 'd', 'm', 'i', 'n'])
            ||| (p.len() >= 9 && p.subrange(0, 9) == seq![
                's',
                'u',
                'b',
                's',
                'c',
                'r',
                'i',
                'b',
                'e',
            ])
        }) ==> route_of(trimmed, decoded) == StaticRouteSpec::ApiNotFound,
{
    reveal_strlit("api");
    reveal_strlit("admin");
    reveal_strlit("subscribe");
    assert("api"@ =~= seq!['a', 'p', 'i']);
    assert("admin"@ =~= seq!['a', 'd', 'm', 'i', 'n']);
    assert("subscribe"@ =~= seq!['s', 'u', 'b', 's', 'c', 'r', 'i', 'b', 'e']);
}

/// A file that is served never lies outside the UI directory: its path has
/// no `..`.
pub proof fn lemma_served_paths_stay_inside(trimmed: Seq<char>, decoded: Option<Seq<char>>)
    ensures
        route_of(trimmed, decoded) matches StaticRouteSpec::File(p) ==> !contains_seq(p, ".."@),
{
}

} // verus!
