//! Loading the conversion preview in the admin UI: the request that a
//! preview makes, and which answers it keeps.
//!
//! A preview section (on the source and combined pages) and the preview
//! dialog of one source each reduce their parameters to a key; a new key
//! starts a new load. Every load is numbered, and an answer that arrives
//! after a newer load started is dropped.
use vstd::prelude::*;

use crate::text::{dec_int, fmt_i64, has_prefix, strip_prefix};

verus! {

/// The text of an optional string, empty where there is none.
pub open spec fn or_empty(s: Option<Seq<char>>) -> Seq<char> {
    match s {
        Some(t) => t,
        None => seq![],
    }
}

/// The part of `s` before its first `|` (all of `s` where it has none).
pub open spec fn before_bar(s: Seq<char>) -> Seq<char>
    decreases s.len(),
{
    if s.len() == 0 {
        seq![]
    } else if s[0] == '|' {
        seq![]
    } else {
        seq![s[0]] + before_bar(s.drop_first())
    }
}

/// What follows the first `|` of `s`, where it has one.
pub open spec fn after_bar(s: Seq<char>) -> Option<Seq<char>>
    decreases s.len(),
{
    if s.len() == 0 {
        None
    } else if s[0] == '|' {
        Some(s.drop_first())
    } else {
        after_bar(s.drop_first())
    }
}

/// The second `|`-separated field of `s`; empty where `s` has no `|`.
pub open spec fn second_field(s: Seq<char>) -> Seq<char> {
    match after_bar(s) {
        Some(rest) => before_bar(rest),
        None => seq![],
    }
}

/// The preview of a combined subscription; of all sources for an empty name.
pub open spec fn combined_path(name: Seq<char>) -> Seq<char> {
    if name.len() == 0 {
        "/admin/preview"@
    } else {
        "/admin/preview?combined="@ + name
    }
}

/// The key of a preview section: its kind and its combined name, joined by `|`.
pub open spec fn section_key_of(kind: Option<Seq<char>>, combined: Option<Seq<char>>) -> Seq<char> {
    or_empty(kind) + "|"@ + or_empty(combined)
}

/// The request of a preview section with key `key`.
pub open spec fn section_path_of(key: Seq<char>) -> Seq<char> {
    if has_prefix(key, "single|"@) {
        "/admin/preview?kind=single"@
    } else if has_prefix(key, "remote|"@) {
        "/admin/preview?kind=remote"@
    } else {
        combined_path(second_field(key))
    }
}

/// The key of a preview dialog: the source's id, else the combined name.
pub open spec fn modal_key_of(source_id: Option<i64>, combined: Option<Seq<char>>) -> Seq<char> {
    match source_id {
        Some(id) => "sid:"@ + dec_int(id as int),
        None => "c:"@ + or_empty(combined),
    }
}

/// The request of a preview dialog with key `key`.
pub open spec fn modal_path_of(key: Seq<char>) -> Seq<char> {
    if has_prefix(key, "sid:"@) {
        "/admin/preview?source_id="@ + key.skip(4)
    } else if has_prefix(key, "c:"@) {
        combined_path(key.skip(2))
    } else {
        "/admin/preview"@
    }
}

proof fn lemma_bar_at(s: Seq<char>, i: int)
    requires
        0 <= i < s.len(),
        s[i] == '|',
        forall|k: int| 0 <= k < i ==> s[k] != '|',
    ensures
        after_bar(s) == Some(s.skip(i + 1)),
    decreases i,
{
    if i > 0 {
        lemma_bar_at(s.drop_first(), i - 1);
        assert(s.drop_first().skip(i) =~= s.skip(i + 1));
    } else {
        assert(s.skip(1) =~= s.drop_first());
    }
}

proof fn lemma_no_bar(s: Seq<char>)
    requires
        forall|k: int| 0 <= k < s.len() ==> s[k] != '|',
    ensures
        after_bar(s) is None,
        before_bar(s) == s,
    decreases s.len(),
{
    if s.len() > 0 {
        lemma_no_bar(s.drop_first());
        assert(seq![s[0]] + s.drop_first() =~= s);
    }
}

proof fn lemma_before_bar_at(s: Seq<char>, j: int)
    requires
        0 <= j <= s.len(),
        j < s.len() ==> s[j] == '|',
        forall|k: int| 0 <= k < j ==> s[k] != '|',
    ensures
        before_bar(s) == s.take(j),
    decreases j,
{
    if j > 0 {
        lemma_before_bar_at(s.drop_first(), j - 1);
        assert(seq![s[0]] + s.drop_first().take(j - 1) =~= s.take(j));
    } else {
        assert(s.take(0) =~= Seq::<char>::empty());
    }
}

/// The index of the first `|` of `s` at or after `from`, or its length.
fn find_bar(s: &str, from: usize) -> (r: usize)
    requires
        from <= s@.len(),
    ensures
        from <= r <= s@.len(),
        r < s@.len() ==> s@[r as int] == '|',
        forall|k: int| from <= k < r ==> s@[k] != '|',
{
    let n = s.unicode_len();
    let mut i = from;
    while i < n
        invariant
            from <= i <= n,
            n == s@.len(),
            forall|k: int| from <= k < i ==> s@[k] != '|',
        decreases n - i,
    {
        if s.get_char(i) == '|' {
            return i;
        }
        i = i + 1;
    }
    i
}

/// `s.split('|').nth(1)`, empty where `s` has no `|`.
fn second_field_str(s: &str) -> (r: &str)
    ensures
        r@ == second_field(s@),
{
    let n = s.unicode_len();
    let i = find_bar(s, 0);
    if i == n {
        proof {
            lemma_no_bar(s@);
            reveal_strlit("");
        }
        return "";
    }
    let j = find_bar(s, i + 1);
    proof {
        lemma_bar_at(s@, i as int);
        let rest = s@.skip(i + 1);
        assert forall|k: int| 0 <= k < j - (i + 1) implies rest[k] != '|' by {
            assert(rest[k] == s@[k + i + 1]);
        }
        if j < n {
            assert(rest[j - (i + 1)] == s@[j as int]);
        }
        lemma_before_bar_at(rest, j - (i + 1));
        assert(rest.take(j - (i + 1)) =~= s@.subrange(i + 1, j as int));
    }
    s.substring_char(i + 1, j)
}

fn combined_path_of(name: &str) -> (r: String)
    ensures
        r@ == combined_path(name@),
{
    if name.unicode_len() == 0 {
        String::from_str("/admin/preview")
    } else {
        let mut r = String::from_str("/admin/preview?combined=");
        r.append(name);
        r
    }
}

/// The key of a preview section (`kind|combined`).
pub fn section_key(kind: Option<&str>, combined: Option<&str>) -> (r: String)
    ensures
        r@ == section_key_of(
            match kind {
                Some(k) => Some(k@),
                None => None,
            },
            match combined {
                Some(c) => Some(c@),
                None => None,
            },
        ),
{
    let mut r = String::new();
    if let Some(k) = kind {
        r.append(k);
    }
    r.append("|");
    if let Some(c) = combined {
        r.append(c);
    }
    proof {
        reveal_strlit("");
    }
    r
}

/// The request path of a preview section with key `key`: a kind first, then
/// the combined name.
pub fn section_path(key: &str) -> (r: String)
    ensures
        r@ == section_path_of(key@),
{
    if strip_prefix(key, "single|").is_some() {
        String::from_str("/admin/preview?kind=single")
    } else if strip_prefix(key, "remote|").is_some() {
        String::from_str("/admin/preview?kind=remote")
    } else {
        combined_path_of(second_field_str(key))
    }
}

/// The key of a preview dialog (`sid:<id>` or `c:<name>`).
pub fn modal_key(source_id: Option<i64>, combined: Option<&str>) -> (r: String)
    ensures
        r@ == modal_key_of(
            source_id,
            match combined {
                Some(c) => Some(c@),
                None => None,
            },
        ),
{
    match source_id {
        Some(id) => {
            let mut r = String::from_str("sid:");
            let digits = fmt_i64(id);
            r.append(digits.as_str());
            r
        },
        None => {
            let mut r = String::from_str("c:");
            if let Some(c) = combined {
                r.append(c);
            }
            r
        },
    }
}

/// The request path of a preview dialog with key `key`.
pub fn modal_path(key: &str) -> (r: String)
    ensures
        r@ == modal_path_of(key@),
{
    proof {
        reveal_strlit("sid:");
        reveal_strlit("c:");
    }
    if let Some(rest) = strip_prefix(key, "sid:") {
        let mut r = String::from_str("/admin/preview?source_id=");
        r.append(rest);
        r
    } else if let Some(name) = strip_prefix(key, "c:") {
        combined_path_of(name)
    } else {
        String::from_str("/admin/preview")
    }
}

/// A kind, whatever else a section names, previews that kind.
pub proof fn lemma_section_kind_wins(combined: Option<Seq<char>>)
    ensures
        section_path_of(section_key_of(Some("single"@), combined)) == "/admin/preview?kind=single"@,
        section_path_of(section_key_of(Some("remote"@), combined)) == "/admin/preview?kind=remote"@,
{
    reveal_strlit("single");
    reveal_strlit("remote");
    reveal_strlit("single|");
    reveal_strlit("remote|");
    reveal_strlit("|");
    let c = or_empty(combined);
    assert(("single"@ + "|"@ + c).subrange(0, 7) =~= "single|"@);
    let rk = "remote"@ + "|"@ + c;
    assert(rk.subrange(0, 7) =~= "remote|"@);
    assert(!has_prefix(rk, "single|"@)) by {
        if has_prefix(rk, "single|"@) {
            assert(rk.subrange(0, 7)[0] == "single|"@[0]);
        }
    }
}

/// Without a kind, a section previews the combined subscription it names
/// (a name without `|`, as every valid combined name), and all sources where
/// it names none.
pub proof fn lemma_section_combined(combined: Option<Seq<char>>)
    requires
        forall|k: int| 0 <= k < or_empty(combined).len() ==> or_empty(combined)[k] != '|',
    ensures
        section_path_of(section_key_of(None, combined)) == combined_path(or_empty(combined)),
{
    reveal_strlit("|");
    reveal_strlit("single|");
    reveal_strlit("remote|");
    let name = or_empty(combined);
    let key = section_key_of(None, combined);
    assert(key =~= seq!['|'] + name);
    assert(key[0] == '|');
    assert(!has_prefix(key, "single|"@)) by {
        if has_prefix(key, "single|"@) {
            assert(key.subrange(0, 7)[0] == "single|"@[0]);
        }
    }
    assert(!has_prefix(key, "remote|"@)) by {
        if has_prefix(key, "remote|"@) {
            assert(key.subrange(0, 7)[0] == "remote|"@[0]);
        }
    }
    lemma_bar_at(key, 0);
    assert(key.skip(1) =~= name);
    lemma_no_bar(name);
}

/// A dialog for a source asks for that source by its id.
pub proof fn lemma_modal_source(id: i64, combined: Option<Seq<char>>)
    ensures
        modal_path_of(modal_key_of(Some(id), combined)) == "/admin/preview?source_id="@ + dec_int(
            id as int,
        ),
{
    reveal_strlit("sid:");
    let key = modal_key_of(Some(id), combined);
    assert(key.subrange(0, 4) =~= "sid:"@);
    assert(key.skip(4) =~= dec_int(id as int));
}

/// A dialog without a source previews the combined subscription it names,
/// or all sources.
pub proof fn lemma_modal_combined(combined: Option<Seq<char>>)
    ensures
        modal_path_of(modal_key_of(None, combined)) == combined_path(or_empty(combined)),
{
    reveal_strlit("sid:");
    reveal_strlit("c:");
    let key = modal_key_of(None, combined);
    assert(!has_prefix(key, "sid:"@)) by {
        if has_prefix(key, "sid:"@) {
            assert(key.subrange(0, 4)[0] == "sid:"@[0]);
        }
    }
    assert(key.subrange(0, 2) =~= "c:"@);
    assert(key.skip(2) =~= or_empty(combined));
}

/// What a preview load keeps: the number of the latest load, whether it is
/// under way, its error text and the last answer received.
pub struct PreviewLoad<T> {
    pub seq: u32,
    pub loading: bool,
    pub error: String,
    pub data: Option<T>,
}

/// The model of a preview load.
pub struct LoadView<T> {
    pub seq: int,
    pub loading: bool,
    pub error: Seq<char>,
    pub data: Option<T>,
}

impl<T> View for PreviewLoad<T> {
    type V = LoadView<T>;

    open spec fn view(&self) -> LoadView<T> {
        LoadView { seq: self.seq as int, loading: self.loading, error: self.error@, data: self.data }
    }
}

/// How a load ended: the request failed with a message, or its body was
/// read, either as an answer or with a message of why it could not be.
pub open spec fn outcome_view<T>(o: Result<Result<T, String>, String>) -> Result<
    Result<T, Seq<char>>,
    Seq<char>,
> {
    match o {
        Ok(Ok(r)) => Ok(Ok(r)),
        Ok(Err(e)) => Ok(Err(e@)),
        Err(e) => Err(e@),
    }
}

/// The error shown for a body that could not be read as an answer.
pub open spec fn parse_error_text(e: Seq<char>) -> Seq<char> {
    "解析失败: "@ + e
}

/// A new load starts: the next number, under way, no error; the last
/// answer stays on show.
pub open spec fn begun<T>(s: LoadView<T>) -> LoadView<T> {
    LoadView { seq: s.seq + 1, loading: true, error: seq![], data: s.data }
}

/// Load number `seq` ended with `o`. Only the latest load counts: an answer
/// of an older one changes nothing. The latest load's answer is kept, a body
/// it could not read or a failed request shows an error; either way the
/// load is no longer under way.
pub open spec fn finished<T>(s: LoadView<T>, seq: int, o: Result<Result<T, Seq<char>>, Seq<char>>) -> LoadView<T> {
    if seq != s.seq {
        s
    } else {
        match o {
            Ok(Ok(r)) => LoadView { loading: false, data: Some(r), ..s },
            Ok(Err(e)) => LoadView { loading: false, error: parse_error_text(e), ..s },
            Err(e) => LoadView { loading: false, error: e, ..s },
        }
    }
}

impl<T> PreviewLoad<T> {
    /// Nothing loaded yet; `loading` says whether the first load shows as
    /// under way from the start.
    pub fn new(loading: bool) -> (r: Self)
        ensures
            r@ == (LoadView::<T> { seq: 0, loading, error: seq![], data: None }),
    {
        let r = PreviewLoad { seq: 0, loading, error: String::new(), data: None };
        proof {
            reveal_strlit("");
        }
        assert(r@.error =~= Seq::<char>::empty());
        r
    }

    /// Starts a load and returns its number, which its answer must carry.
    pub fn begin(&mut self) -> (r: u32)
        requires
            old(self).seq < u32::MAX,
        ensures
            final(self)@ == begun(old(self)@),
            r == final(self).seq,
    {
        self.seq = self.seq + 1;
        self.loading = true;
        self.error = String::new();
        proof {
            reveal_strlit("");
        }
        assert(self@.error =~= Seq::<char>::empty());
        assert(self@ == begun(old(self)@));
        self.seq
    }

    /// Load number `seq` ended with `outcome`.
    pub fn finish(&mut self, seq: u32, outcome: Result<Result<T, String>, String>)
        ensures
            final(self)@ == finished(old(self)@, seq as int, outcome_view(outcome)),
    {
        if seq != self.seq {
            return;
        }
        match outcome {
            Ok(Ok(r)) => {
                self.data = Some(r);
            },
            Ok(Err(e)) => {
                let mut m = String::from_str("解析失败: ");
                m.append(e.as_str());
                self.error = m;
            },
            Err(e) => {
                self.error = e;
            },
        }
        self.loading = false;
    }
}

/// An answer that arrives after a newer load started is dropped, whatever
/// it holds.
pub proof fn lemma_stale_answer_dropped<T>(s: LoadView<T>, seq: int, o: Result<Result<T, Seq<char>>, Seq<char>>)
    requires
        seq != s.seq,
    ensures
        finished(s, seq, o) == s,
{
}

/// The answer of the latest load is what the preview shows, without error,
/// and the load is over.
pub proof fn lemma_latest_answer_shown<T>(s: LoadView<T>, r: T)
    ensures
        finished(begun(s), begun(s).seq, Ok(Ok(r))) == (LoadView::<T> {
            seq: s.seq + 1,
            loading: false,
            error: seq![],
            data: Some(r),
        }),
{
}

/// Two loads in a row: the slow first answer, arriving last, neither
/// replaces the second's state nor ends it.
pub proof fn lemma_slow_first_answer_loses<T>(s: LoadView<T>, o: Result<Result<T, Seq<char>>, Seq<char>>)
    ensures
        finished(begun(begun(s)), begun(s).seq, o) == begun(begun(s)),
        finished(begun(begun(s)), begun(s).seq, o).loading,
{
}

/// What the preview page fetches for its selection: all sources come from
/// the shared cache, a combined subscription from its own request.
#[derive(Debug, Clone, PartialEq, Eq)]
pub enum PreviewRequest {
    /// Reload the shared preview of all sources.
    RefreshAll,
    /// Fetch this path.
    Fetch(String),
}

/// The request of the preview page for the selected combined subscription.
pub fn preview_request(selected: Option<&str>) -> (r: PreviewRequest)
    ensures
        match selected {
            None => r == PreviewRequest::RefreshAll,
            Some(n) => r matches PreviewRequest::Fetch(p) && p@ == "/admin/preview?combined="@ + n@,
        },
{
    match selected {
        None => PreviewRequest::RefreshAll,
        Some(n) => {
            let mut p = String::from_str("/admin/preview?combined=");
            p.append(n);
            PreviewRequest::Fetch(p)
        },
    }
}

} // verus!
