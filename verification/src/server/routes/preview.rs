//! The conversion preview: which sources it reads.
use vstd::prelude::*;

use crate::server::error::ApiError;
use crate::server::service::{kind_text, SourceKind};
use crate::text::str_eq;

verus! {

/// The filter of a preview: at most one of a combined subscription's name
/// and a source kind.
#[derive(Debug, Clone)]
pub struct PreviewQuery {
    pub combined: Option<String>,
    pub kind: Option<String>,
}

/// The sources that a preview reads.
#[derive(Debug, Clone, PartialEq, Eq)]
pub enum PreviewFilter {
    /// All enabled sources.
    All,
    /// The members of the combined subscription with this name.
    Combined(String),
    /// The enabled sources of this kind.
    Kind(SourceKind),
}

/// The filter that a preview query asks for, or the 400 message.
pub open spec fn preview_filter_of(combined: Option<Seq<char>>, kind: Option<Seq<char>>) -> Result<
    (Option<Seq<char>>, Option<SourceKind>),
    Seq<char>,
> {
    if combined is Some && kind is Some {
        Err("kind and combined are mutually exclusive"@)
    } else {
        match kind {
            Some(k) => if k == "single"@ {
                Ok((None, Some(SourceKind::Single)))
            } else if k == "remote"@ {
                Ok((None, Some(SourceKind::Remote)))
            } else {
                Err("kind must be 'single' or 'remote'"@)
            },
            None => Ok((combined, None)),
        }
    }
}

/// A preview that names a kind and no combined subscription reads exactly
/// the sources of that kind: a kind text is accepted exactly when it is
/// `single` or `remote`, and the filter's kind is the one that text names;
/// naming neither a kind nor a combined subscription reads all sources.
pub proof fn lemma_preview_kind_filter(k: Seq<char>)
    ensures
        preview_filter_of(None, Some(k)) is Ok <==> (k == "single"@ || k == "remote"@),
        preview_filter_of(None, Some(k)) matches Ok((c, kk)) ==> (c is None && (kk matches Some(x)
            && kind_text(x) == k)),
        preview_filter_of(None, Some("remote"@)) == Ok::<
            (Option<Seq<char>>, Option<SourceKind>),
            Seq<char>,
        >((None, Some(SourceKind::Remote))),
        preview_filter_of(None, None) == Ok::<(Option<Seq<char>>, Option<SourceKind>), Seq<char>>(
            (None, None),
        ),
{
    reveal_strlit("single");
    reveal_strlit("remote");
    assert("remote"@[0] != "single"@[0]);
}

/// The view of an optional string.
pub open spec fn opt_view(s: Option<String>) -> Option<Seq<char>> {
    match s {
        Some(t) => Some(t@),
        None => None,
    }
}

/// Checks a preview query and says which sources it reads.
pub fn check_preview_query(q: PreviewQuery) -> (r: Result<PreviewFilter, ApiError>)
    ensures
        match preview_filter_of(opt_view(q.combined), opt_view(q.kind)) {
            Ok((c, k)) => r matches Ok(f) && match f {
                PreviewFilter::All => c is None && k is None,
                PreviewFilter::Combined(n) => c == Some(n@) && k is None,
                PreviewFilter::Kind(kk) => k == Some(kk),
            },
            Err(m) => r matches Err(e) && e.is(400, "bad_request"@, m),
        },
{
    if q.combined.is_some() && q.kind.is_some() {
        return Err(ApiError::bad_request("kind and combined are mutually exclusive"));
    }
    match q.kind {
        Some(k) => {
            if str_eq(k.as_str(), "single") {
                Ok(PreviewFilter::Kind(SourceKind::Single))
            } else if str_eq(k.as_str(), "remote") {
                Ok(PreviewFilter::Kind(SourceKind::Remote))
            } else {
                Err(ApiError::bad_request("kind must be 'single' or 'remote'"))
            }
        },
        None => match q.combined {
            Some(n) => Ok(PreviewFilter::Combined(n)),
            None => Ok(PreviewFilter::All),
        },
    }
}

/// The answer where no combined subscription has the requested name.
pub fn combined_not_found() -> (r: ApiError)
    ensures
        r.is(404, "not_found"@, "combined subscription not found"@),
{
    ApiError::not_found("combined subscription not found")
}

} // verus!
