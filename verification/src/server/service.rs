//! Merging subscription sources: which sources a request reads, what each
//! read gives, and how the per-source results make up one node list.
//!
//! Nodes are opaque here (`N`): the parser that makes them lives elsewhere.
use vstd::prelude::*;

use crate::server::error::ApiError;
use crate::text::{dec, fmt_u64, join_strings, seq_join, str_eq};

verus! {

/// A source that failed, with the reason.
#[derive(Debug, Clone)]
pub struct SourceError {
    pub source_name: String,
    pub reason: String,
}

/// How a source is read: a single node URI parsed as it is, or a remote
/// subscription fetched over HTTP.
#[derive(Debug, Clone, Copy, PartialEq, Eq, Structural)]
pub enum SourceKind {
    Single,
    Remote,
}

/// An enabled source as stored.
#[derive(Debug, Clone)]
pub struct SourceRow {
    pub id: i64,
    pub name: String,
    pub url: String,
    pub kind: SourceKind,
}

/// The text of a source kind.
pub open spec fn kind_text(k: SourceKind) -> Seq<char> {
    match k {
        SourceKind::Single => "single"@,
        SourceKind::Remote => "remote"@,
    }
}

/// The kind that a stored kind text names; anything but `single` is read
/// as a remote subscription.
pub open spec fn kind_from_text(s: Seq<char>) -> SourceKind {
    if s == "single"@ {
        SourceKind::Single
    } else {
        SourceKind::Remote
    }
}

/// The sources that a request reads: all enabled ones, or those among them
/// whose id is in `members`, in stored order.
pub open spec fn selected(rows: Seq<SourceRow>, members: Option<Seq<i64>>) -> Seq<SourceRow> {
    match members {
        None => rows,
        Some(m) => rows.filter(|r: SourceRow| m.contains(r.id)),
    }
}

/// The reason that a read without nodes gives.
pub open spec fn no_nodes_reason(skipped: nat) -> Seq<char> {
    "no nodes parsed ("@ + dec(skipped) + " line(s) skipped)"@
}

/// The nodes of all successful reads, in the order of the reads.
pub open spec fn all_nodes<N>(rs: Seq<(String, Result<Vec<N>, String>)>) -> Seq<N>
    decreases rs.len(),
{
    if rs.len() == 0 {
        seq![]
    } else {
        match rs.last().1 {
            Ok(v) => all_nodes(rs.drop_last()) + v@,
            Err(_) => all_nodes(rs.drop_last()),
        }
    }
}

/// The failed reads as `(source name, reason)`, in the order of the reads.
pub open spec fn all_failures<N>(rs: Seq<(String, Result<Vec<N>, String>)>) -> Seq<
    (Seq<char>, Seq<char>),
>
    decreases rs.len(),
{
    if rs.len() == 0 {
        seq![]
    } else {
        match rs.last().1 {
            Ok(_) => all_failures(rs.drop_last()),
            Err(e) => all_failures(rs.drop_last()).push((rs.last().0@, e@)),
        }
    }
}

/// The errors as `(source name, reason)`.
pub open spec fn error_pairs(es: Seq<SourceError>) -> Seq<(Seq<char>, Seq<char>)> {
    es.map_values(|e: SourceError| (e.source_name@, e.reason@))
}

/// One error as a line: `name: reason`.
pub open spec fn error_line(e: (Seq<char>, Seq<char>)) -> Seq<char> {
    e.0 + ": "@ + e.1
}

/// The kind of a source from its stored text.
pub fn kind_of_text(s: &str) -> (r: SourceKind)
    ensures
        r == kind_from_text(s@),
{
    if str_eq(s, "single") {
        SourceKind::Single
    } else {
        SourceKind::Remote
    }
}

fn contains_id(ids: &Vec<i64>, id: i64) -> (r: bool)
    ensures
        r == ids@.contains(id),
{
    let mut i: usize = 0;
    while i < ids.len()
        invariant
            i <= ids.len(),
            forall|k: int| 0 <= k < i ==> ids@[k] != id,
        decreases ids.len() - i,
    {
        if ids[i] == id {
            return true;
        }
        i = i + 1;
    }
    false
}

/// The sources that a request reads: the enabled `rows`, kept in order,
/// restricted to `members` where given.
pub fn select_sources(rows: Vec<SourceRow>, members: Option<&Vec<i64>>) -> (r: Vec<SourceRow>)
    ensures
        r@ == selected(
            rows@,
            match members {
                Some(m) => Some(m@),
                None => None,
            },
        ),
{
    match members {
        None => rows,
        Some(m) => {
            let ghost pred = |r: SourceRow| m@.contains(r.id);
            let mut out: Vec<SourceRow> = Vec::new();
            let mut rest = rows;
            let ghost all = rest@;
            let ghost mut taken: int = 0;
            while rest.len() > 0
                invariant
                    0 <= taken <= all.len(),
                    rest@ == all.skip(taken),
                    out@ == all.take(taken).filter(pred),
                    pred == (|r: SourceRow| m@.contains(r.id)),
                decreases rest.len(),
            {
                let row = rest.remove(0);
                proof {
                    assert(all.take(taken + 1).drop_last() =~= all.take(taken));
                    assert(all.take(taken + 1).last() == row);
                    assert(all.skip(taken + 1) =~= all.skip(taken).drop_first());
                    reveal(Seq::filter);
                }
                if contains_id(m, row.id) {
                    out.push(row);
                } else {
                }
                proof {
                    taken = taken + 1;
                }
            }
            assert(all.take(taken) =~= all);
            out
        },
    }
}

/// How one source is read.
#[derive(Debug, Clone, PartialEq, Eq)]
pub enum ReadPlan {
    /// Parse this node URI as it is; no network.
    Parse(String),
    /// Fetch this subscription URL, then parse its body.
    Fetch(String),
}

/// Whether `plan` is how the source `row` is read: a single node is parsed,
/// a remote subscription fetched, each from the source's URL.
pub open spec fn plan_fits(row: SourceRow, plan: ReadPlan) -> bool {
    match plan {
        ReadPlan::Parse(u) => row.kind == SourceKind::Single && u@ == row.url@,
        ReadPlan::Fetch(u) => row.kind == SourceKind::Remote && u@ == row.url@,
    }
}

/// How a source of kind `kind` at `url` is read: a single node is parsed
/// locally, a remote subscription fetched.
pub fn read_plan(kind: SourceKind, url: String) -> (r: ReadPlan)
    ensures
        match r {
            ReadPlan::Parse(u) => kind == SourceKind::Single && u@ == url@,
            ReadPlan::Fetch(u) => kind == SourceKind::Remote && u@ == url@,
        },
{
    match kind {
        SourceKind::Single => ReadPlan::Parse(url),
        SourceKind::Remote => ReadPlan::Fetch(url),
    }
}

/// The reads of a request: one per selected source (the enabled `rows`,
/// restricted to `members` where given), in stored order, each under the
/// source's name and by its kind.
pub fn plan_reads(rows: Vec<SourceRow>, members: Option<&Vec<i64>>) -> (r: Vec<(String, ReadPlan)>)
    ensures
        ({
            let sel = selected(
                rows@,
                match members {
                    Some(m) => Some(m@),
                    None => None,
                },
            );
            &&& r@.len() == sel.len()
            &&& forall|i: int|
                0 <= i < sel.len() ==> (#[trigger] r@[i]).0@ == sel[i].name@ && plan_fits(
                    sel[i],
                    r@[i].1,
                )
        }),
{
    let chosen = select_sources(rows, members);
    let ghost sel = chosen@;
    let mut rest = chosen;
    let mut out: Vec<(String, ReadPlan)> = Vec::new();
    let ghost mut done: int = 0;
    while rest.len() > 0
        invariant
            0 <= done <= sel.len(),
            rest@ == sel.skip(done),
            out@.len() == done,
            forall|i: int|
                0 <= i < done ==> (#[trigger] out@[i]).0@ == sel[i].name@ && plan_fits(
                    sel[i],
                    out@[i].1,
                ),
        decreases rest.len(),
    {
        let row = rest.remove(0);
        proof {
            assert(sel[done] == row);
            assert(sel.skip(done + 1) =~= sel.skip(done).drop_first());
        }
        let plan = read_plan(row.kind, row.url);
        out.push((row.name, plan));
        proof {
            done = done + 1;
        }
    }
    out
}

/// What one read of a remote source gives: its nodes, or, where the body
/// had none, `no nodes parsed (<n> line(s) skipped)`; a failed fetch keeps
/// its reason.
pub fn remote_outcome<N>(fetched: Result<(Vec<N>, usize), String>) -> (r: Result<Vec<N>, String>)
    ensures
        match fetched {
            Ok((nodes, skipped)) => if nodes@.len() == 0 {
                r matches Err(m) && m@ == no_nodes_reason(skipped as nat)
            } else {
                r matches Ok(v) && v@ == nodes@
            },
            Err(reason) => r matches Err(m) && m@ == reason@,
        },
{
    match fetched {
        Ok((nodes, skipped)) => {
            if nodes.len() == 0 {
                let mut m = String::from_str("no nodes parsed (");
                let n = fmt_u64(skipped as u64);
                m.append(n.as_str());
                m.append(" line(s) skipped)");
                Err(m)
            } else {
                Ok(nodes)
            }
        },
        Err(reason) => Err(reason),
    }
}

/// What one read of a single-node source gives: the node, or `parse
/// failed: <error>`.
pub fn single_outcome<N>(parsed: Result<N, String>) -> (r: Result<Vec<N>, String>)
    ensures
        match parsed {
            Ok(n) => r matches Ok(v) && v@ == seq![n],
            Err(e) => r matches Err(m) && m@ == "parse failed: "@ + e@,
        },
{
    match parsed {
        Ok(n) => {
            let mut v = Vec::new();
            v.push(n);
            Ok(v)
        },
        Err(e) => {
            let mut m = String::from_str("parse failed: ");
            m.append(e.as_str());
            Err(m)
        },
    }
}

/// Merges the reads of all sources, in the order they finished: the nodes of
/// the successful ones, cut to `max_nodes`, and an error per failed one.
pub fn merge_results<N>(results: Vec<(String, Result<Vec<N>, String>)>, max_nodes: usize) -> (r: (
    Vec<N>,
    Vec<SourceError>,
))
    ensures
        r.0@ == all_nodes(results@).take(
            if all_nodes(results@).len() < max_nodes {
                all_nodes(results@).len() as int
            } else {
                max_nodes as int
            },
        ),
        error_pairs(r.1@) == all_failures(results@),
{
    let ghost all = results@;
    let mut rest = results;
    let mut nodes: Vec<N> = Vec::new();
    let mut errors: Vec<SourceError> = Vec::new();
    let ghost mut done: int = 0;
    while rest.len() > 0
        invariant
            0 <= done <= all.len(),
            rest@ == all.skip(done),
            nodes@ == all_nodes(all.take(done)),
            error_pairs(errors@) == all_failures(all.take(done)),
        decreases rest.len(),
    {
        let (name, result) = rest.remove(0);
        proof {
            assert(all.take(done + 1).drop_last() =~= all.take(done));
            assert(all.take(done + 1).last() == all[done]);
            assert(all.skip(done + 1) =~= all.skip(done).drop_first());
        }
        match result {
            Ok(mut v) => {
                nodes.append(&mut v);
            },
            Err(reason) => {
                errors.push(SourceError { source_name: name, reason });
                assert(error_pairs(errors@) =~= error_pairs(errors@.drop_last()).push(
                    (errors@.last().source_name@, errors@.last().reason@),
                ));
            },
        }
        proof {
            done = done + 1;
        }
    }
    assert(all.take(done) =~= all);
    nodes.truncate(max_nodes);
    (nodes, errors)
}

/// The errors as lines `name: reason`.
pub fn error_lines(errors: &Vec<SourceError>) -> (r: Vec<String>)
    ensures
        r@.map_values(|s: String| s@) == error_pairs(errors@).map_values(
            |e: (Seq<char>, Seq<char>)| error_line(e),
        ),
{
    let mut out: Vec<String> = Vec::new();
    let mut i: usize = 0;
    while i < errors.len()
        invariant
            i <= errors.len(),
            out@.len() == i,
            forall|k: int|
                0 <= k < i ==> #[trigger] out@[k]@ == error_line(
                    (errors@[k].source_name@, errors@[k].reason@),
                ),
        decreases errors.len() - i,
    {
        let mut line = errors[i].source_name.clone();
        line.append(": ");
        line.append(errors[i].reason.as_str());
        out.push(line);
        i = i + 1;
    }
    assert(out@.map_values(|s: String| s@) =~= error_pairs(errors@).map_values(
        |e: (Seq<char>, Seq<char>)| error_line(e),
    ));
    out
}

/// The answer where no source gave a node and some failed: 502 `all sources
/// failed: ` and the failures as `name: reason` joined by `; `. `None` where
/// some node came through or nothing failed.
pub fn all_failed_error(node_count: usize, errors: &Vec<SourceError>) -> (r: Option<ApiError>)
    ensures
        node_count == 0 && errors@.len() > 0 ==> (r matches Some(e) && e.is(
            502,
            "bad_gateway"@,
            "all sources failed: "@ + seq_join(
                error_pairs(errors@).map_values(|e: (Seq<char>, Seq<char>)| error_line(e)),
                "; "@,
            ),
        )),
        !(node_count == 0 && errors@.len() > 0) ==> r is None,
{
    if node_count == 0 && errors.len() > 0 {
        let lines = error_lines(errors);
        let details = join_strings(&lines, "; ");
        let mut m = String::from_str("all sources failed: ");
        m.append(details.as_str());
        assert(lines@.map_values(|s: String| s@) == error_pairs(errors@).map_values(
            |e: (Seq<char>, Seq<char>)| error_line(e),
        ));
        Some(ApiError::bad_gateway(m.as_str()))
    } else {
        None
    }
}

/// The number of sources fetched at once: the configured value, at least 1.
pub fn fetch_concurrency(configured: usize) -> (r: usize)
    ensures
        r == if configured < 1 { 1 } else { configured },
{
    if configured < 1 {
        1
    } else {
        configured
    }
}

/// Every failed read is reported once, and nothing else is: the errors of a
/// merge are exactly the failures among the reads, in order.
pub proof fn lemma_failures_count<N>(rs: Seq<(String, Result<Vec<N>, String>)>)
    ensures
        all_failures(rs).len() <= rs.len(),
        all_failures(rs).len() == rs.filter(
            |x: (String, Result<Vec<N>, String>)| x.1 is Err,
        ).len(),
    decreases rs.len(),
{
    reveal(Seq::filter);
    if rs.len() > 0 {
        lemma_failures_count(rs.drop_last());
    }
}

/// A source that fails is skipped: the nodes of a merge are those of the
/// other sources, as if the failed read were not there.
pub proof fn lemma_failed_source_skipped<N>(rs: Seq<(String, Result<Vec<N>, String>)>, i: int)
    requires
        0 <= i < rs.len(),
        rs[i].1 is Err,
    ensures
        all_nodes(rs) == all_nodes(rs.remove(i)),
    decreases rs.len(),
{
    if i == rs.len() - 1 {
        assert(rs.remove(i) =~= rs.drop_last());
    } else {
        lemma_failed_source_skipped(rs.drop_last(), i);
        assert(rs.remove(i).drop_last() =~= rs.drop_last().remove(i));
        assert(rs.remove(i).last() == rs.last());
    }
}

} // verus!
