//! Subscription sources: the checks of new and changed sources, the report
//! of a manual refresh and the reading of a fetched body.
use vstd::prelude::*;

use crate::server::error::ApiError;
use crate::server::service::{kind_from_text, kind_of_text, kind_text, read_plan, ReadPlan, SourceKind};
use crate::text::{dec, fmt_u64, str_eq};

verus! {

/// A source as answered.
#[derive(Debug, Clone)]
pub struct SourceDto {
    pub id: i64,
    pub url: String,
    pub name: String,
    pub kind: String,
    pub enabled: bool,
    pub created_at: String,
}

/// A new source; the kind defaults to `remote`.
#[derive(Debug, Clone)]
pub struct CreateSource {
    pub url: String,
    pub name: String,
    pub kind: Option<String>,
}

/// A change of a source; each field is optional.
#[derive(Debug, Clone)]
pub struct UpdateSource {
    pub url: Option<String>,
    pub name: Option<String>,
    pub kind: Option<String>,
    pub enabled: Option<bool>,
}

/// The report of a manual refresh: the source's name, whether it gave
/// nodes, how many, or why not.
#[derive(Debug, Clone)]
pub struct RefreshReport {
    pub source: String,
    pub ok: bool,
    pub node_count: Option<usize>,
    pub reason: Option<String>,
}

/// The largest body that a fetch reads as a whole (16 MiB); a larger one is
/// cut to this size.
pub const MAX_BODY_BYTES: usize = 16777216;

/// The text that `String::from_utf8_lossy` makes of `bytes`: their UTF-8
/// decoding, with U+FFFD in place of each invalid sequence.
pub uninterp spec fn utf8_lossy_text(bytes: Seq<u8>) -> Seq<char>;

/// The kind that a requested kind text selects (`None`: not a kind).
pub open spec fn kind_choice(k: Option<Seq<char>>) -> Option<SourceKind> {
    match k {
        None => Some(SourceKind::Remote),
        Some(t) => if t == "single"@ {
            Some(SourceKind::Single)
        } else if t == "remote"@ {
            Some(SourceKind::Remote)
        } else {
            None
        },
    }
}

/// Exactly the documented kind texts, `single` and `remote`, are
/// accepted, and each selects the kind that it names; without a kind a
/// source is remote.
pub proof fn lemma_documented_kinds(t: Seq<char>)
    ensures
        kind_choice(Some(t)) is Some <==> (t == "single"@ || t == "remote"@),
        kind_choice(Some(t)) matches Some(k) ==> kind_text(k) == t,
        kind_choice(None) == Some(SourceKind::Remote),
        kind_choice(Some("remote"@)) == Some(SourceKind::Remote),
        kind_choice(Some("single"@)) == Some(SourceKind::Single),
{
    reveal_strlit("single");
    reveal_strlit("remote");
    assert("remote"@[0] != "single"@[0]);
}

/// The view of an optional string slice.
pub open spec fn opt_str_view(s: Option<&str>) -> Option<Seq<char>> {
    match s {
        Some(t) => Some(t@),
        None => None,
    }
}

/// What a fetched body gives: the text of a 2xx answer, or the reason.
pub open spec fn body_result(status: u16, status_text: Seq<char>, body: Seq<u8>) -> Result<
    Seq<char>,
    Seq<char>,
> {
    if !(200 <= status < 300) {
        Err("http status "@ + status_text)
    } else if body.len() > MAX_BODY_BYTES {
        Ok(utf8_lossy_text(body.take(MAX_BODY_BYTES as int)))
    } else if vstd::utf8::valid_utf8(body) {
        Ok(vstd::utf8::decode_utf8(body))
    } else {
        Err("body is not valid utf-8"@)
    }
}

/// `String::from_utf8`: the text of valid UTF-8, else `None`.
#[verifier::external_body]
fn utf8_text(bytes: &[u8]) -> (r: Option<String>)
    ensures
        match r {
            Some(s) => vstd::utf8::valid_utf8(bytes@) && s@ == vstd::utf8::decode_utf8(bytes@),
            None => !vstd::utf8::valid_utf8(bytes@),
        },
{
    String::from_utf8(bytes.to_vec()).ok()
}

/// `String::from_utf8_lossy`, as an owned string.
#[verifier::external_body]
fn utf8_lossy(bytes: &[u8]) -> (r: String)
    ensures
        r@ == utf8_lossy_text(bytes@),
{
    String::from_utf8_lossy(bytes).into_owned()
}

/// The text of a source kind.
pub fn kind_name(k: SourceKind) -> (r: &'static str)
    ensures
        r@ == kind_text(k),
{
    match k {
        SourceKind::Single => "single",
        SourceKind::Remote => "remote",
    }
}

/// The kind that a request names; 400 for anything but `single` or `remote`.
pub fn parse_kind(k: Option<&str>) -> (r: Result<SourceKind, ApiError>)
    ensures
        match kind_choice(opt_str_view(k)) {
            Some(kind) => r == Ok::<SourceKind, ApiError>(kind),
            None => r matches Err(e) && e.is(
                400,
                "bad_request"@,
                "kind must be 'single' or 'remote'"@,
            ),
        },
{
    match k {
        None => Ok(SourceKind::Remote),
        Some(t) => {
            if str_eq(t, "single") {
                Ok(SourceKind::Single)
            } else if str_eq(t, "remote") {
                Ok(SourceKind::Remote)
            } else {
                Err(ApiError::bad_request("kind must be 'single' or 'remote'"))
            }
        },
    }
}

/// Checks a new source: URL and name must be given, the kind valid.
pub fn check_new_source(url: &str, name: &str, kind: Option<&str>) -> (r: Result<
    SourceKind,
    ApiError,
>)
    ensures
        (url@.len() == 0 || name@.len() == 0) ==> (r matches Err(e) && e.is(
            400,
            "bad_request"@,
            "url and name required"@,
        )),
        (url@.len() > 0 && name@.len() > 0) ==> match kind_choice(opt_str_view(kind)) {
            Some(k) => r == Ok::<SourceKind, ApiError>(k),
            None => r matches Err(e) && e.is(
                400,
                "bad_request"@,
                "kind must be 'single' or 'remote'"@,
            ),
        },
{
    if url.is_empty() || name.is_empty() {
        return Err(ApiError::bad_request("url and name required"));
    }
    parse_kind(kind)
}

/// The source after a change: each given field replaces the stored one; a
/// kind must be valid.
pub fn updated_source(existing: SourceDto, update: UpdateSource) -> (r: Result<SourceDto, ApiError>)
    ensures
        match update.kind {
            Some(k) => kind_choice(Some(k@)) is None ==> (r matches Err(e) && e.is(
                400,
                "bad_request"@,
                "kind must be 'single' or 'remote'"@,
            )),
            None => true,
        },
        r matches Ok(d) ==> {
            &&& d.id == existing.id
            &&& d.created_at == existing.created_at
            &&& d.url == (match update.url {
                Some(u) => u,
                None => existing.url,
            })
            &&& d.name == (match update.name {
                Some(n) => n,
                None => existing.name,
            })
            &&& d.enabled == (match update.enabled {
                Some(e) => e,
                None => existing.enabled,
            })
            &&& d.kind@ == (match update.kind {
                Some(k) => k@,
                None => existing.kind@,
            })
        },
        (match update.kind {
            Some(k) => kind_choice(Some(k@)) is Some,
            None => true,
        }) ==> r is Ok,
{
    let kind = match update.kind {
        Some(k) => {
            let parsed = parse_kind(Some(k.as_str()));
            match parsed {
                Ok(_) => k,
                Err(e) => return Err(e),
            }
        },
        None => existing.kind,
    };
    let url = match update.url {
        Some(u) => u,
        None => existing.url,
    };
    let name = match update.name {
        Some(n) => n,
        None => existing.name,
    };
    let enabled = match update.enabled {
        Some(e) => e,
        None => existing.enabled,
    };
    Ok(SourceDto { id: existing.id, url, name, kind, enabled, created_at: existing.created_at })
}

/// How a manual refresh reads `source`: by its stored kind, a single node
/// parsed locally, anything else fetched as a remote subscription, each from
/// the source's URL.
pub fn refresh_plan(source: &SourceDto) -> (r: ReadPlan)
    ensures
        match r {
            ReadPlan::Parse(u) => kind_from_text(source.kind@) == SourceKind::Single && u@
                == source.url@,
            ReadPlan::Fetch(u) => kind_from_text(source.kind@) == SourceKind::Remote && u@
                == source.url@,
        },
{
    let url = String::from_str(source.url.as_str());
    read_plan(kind_of_text(source.kind.as_str()), url)
}

/// The answer where no source has the requested id.
pub fn source_not_found() -> (r: ApiError)
    ensures
        r.is(404, "not_found"@, "source not found"@),
{
    ApiError::not_found("source not found")
}

/// The report of a manual refresh of `source`, from the number of nodes that
/// its read gave or the reason it failed: zero nodes is a failure with the
/// reason `no nodes parsed`.
pub fn refresh_report(source: String, outcome: Result<usize, String>) -> (r: RefreshReport)
    ensures
        r.source == source,
        match outcome {
            Ok(n) => if n == 0 {
                !r.ok && r.node_count is None && (r.reason matches Some(m) && m@
                    == "no nodes parsed"@)
            } else {
                r.ok && r.node_count == Some(n) && r.reason is None
            },
            Err(e) => !r.ok && r.node_count is None && r.reason == Some(e),
        },
{
    match outcome {
        Ok(n) => {
            if n == 0 {
                RefreshReport {
                    source,
                    ok: false,
                    node_count: None,
                    reason: Some(String::from_str("no nodes parsed")),
                }
            } else {
                RefreshReport { source, ok: true, node_count: Some(n), reason: None }
            }
        },
        Err(e) => RefreshReport { source, ok: false, node_count: None, reason: Some(e) },
    }
}

/// What a fetched body gives: for a 2xx status its UTF-8 text (a body over
/// 16 MiB is cut and decoded leniently), else `http status <status>`; a body
/// that is not UTF-8 gives `body is not valid utf-8`.
pub fn read_body(status: u16, status_text: &str, body: &[u8]) -> (r: Result<String, String>)
    ensures
        match r {
            Ok(t) => body_result(status, status_text@, body@) == Ok::<Seq<char>, Seq<char>>(t@),
            Err(m) => body_result(status, status_text@, body@) == Err::<Seq<char>, Seq<char>>(m@),
        },
{
    if !(200 <= status && status < 300) {
        let mut m = String::from_str("http status ");
        m.append(status_text);
        return Err(m);
    }
    if body.len() > MAX_BODY_BYTES {
        let head = vstd::slice::slice_subrange(body, 0, MAX_BODY_BYTES);
        assert(head@ =~= body@.take(MAX_BODY_BYTES as int));
        return Ok(utf8_lossy(head));
    }
    match utf8_text(body) {
        Some(t) => Ok(t),
        None => Err(String::from_str("body is not valid utf-8")),
    }
}

} // verus!
