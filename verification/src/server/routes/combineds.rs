//! Combined subscriptions: names, member lists and the rows of the listing.
use std::collections::HashMap;
use vstd::prelude::*;

use crate::server::auth::name_char;
use crate::server::error::ApiError;
use crate::text::str_eq;

verus! {

/// A combined subscription and the ids of its member sources.
#[derive(Debug, Clone)]
pub struct CombinedDto {
    pub id: i64,
    pub name: String,
    pub created_at: String,
    pub source_ids: Vec<i64>,
}

/// A new combined subscription.
#[derive(Debug, Clone)]
pub struct CreateCombined {
    pub name: String,
    pub source_ids: Option<Vec<i64>>,
}

/// A change of a combined subscription: a new name, a new member list.
#[derive(Debug, Clone)]
pub struct UpdateCombined {
    pub name: Option<String>,
    pub source_ids: Option<Vec<i64>>,
}

/// A valid combined subscription name: one or more of `[A-Za-z0-9-_]`.
pub open spec fn combined_name_ok(s: Seq<char>) -> bool {
    s.len() > 0 && forall|i: int| 0 <= i < s.len() ==> name_char(#[trigger] s[i])
}

/// `n` placeholders `?` separated by commas.
pub open spec fn placeholders(n: nat) -> Seq<char>
    decreases n,
{
    if n <= 1 {
        "?"@
    } else {
        placeholders((n - 1) as nat) + ",?"@
    }
}

/// The member ids of subscription `cid` in the (combined id, source id)
/// pairs, in order.
pub open spec fn members_of(pairs: Seq<(i64, i64)>, cid: i64) -> Seq<i64>
    decreases pairs.len(),
{
    if pairs.len() == 0 {
        seq![]
    } else if pairs.last().0 == cid {
        members_of(pairs.drop_last(), cid).push(pairs.last().1)
    } else {
        members_of(pairs.drop_last(), cid)
    }
}

/// Whether a rename writes to the store, and the name that results.
#[derive(Debug, Clone)]
pub struct RenamePlan {
    pub name: String,
    pub write: bool,
}

/// A valid combined subscription name.
pub fn valid_combined_name(s: &str) -> (r: bool)
    ensures
        r == combined_name_ok(s@),
{
    let n = s.unicode_len();
    if n == 0 {
        return false;
    }
    let mut i: usize = 0;
    while i < n
        invariant
            i <= n,
            n == s@.len(),
            forall|k: int| 0 <= k < i ==> name_char(#[trigger] s@[k]),
        decreases n - i,
    {
        let c = s.get_char(i);
        if !(('0' <= c && c <= '9') || ('a' <= c && c <= 'z') || ('A' <= c && c <= 'Z') || c
            == '-' || c == '_') {
            return false;
        }
        i = i + 1;
    }
    true
}

/// The answer to an invalid combined subscription name.
pub fn invalid_name_error() -> (r: ApiError)
    ensures
        r.is(400, "bad_request"@, "combined name must match [A-Za-z0-9-_]"@),
{
    ApiError::bad_request("combined name must match [A-Za-z0-9-_]")
}

/// The answer where the name belongs to another combined subscription.
pub fn name_taken_error() -> (r: ApiError)
    ensures
        r.is(400, "bad_request"@, "combined name already exists"@),
{
    ApiError::bad_request("combined name already exists")
}

/// The placeholder list of an insert of `n` member ids (`?,?,..`).
pub fn member_placeholders(n: usize) -> (r: String)
    requires
        n > 0,
    ensures
        r@ == placeholders(n as nat),
        r@.len() == 2 * n - 1,
{
    let mut r = String::from_str("?");
    proof {
        reveal_strlit("?");
        reveal_strlit(",?");
    }
    let mut i: usize = 1;
    while i < n
        invariant
            1 <= i <= n,
            r@ == placeholders(i as nat),
            r@.len() == 2 * i - 1,
        decreases n - i,
    {
        proof {
            reveal_strlit(",?");
        }
        r.append(",?");
        i = i + 1;
    }
    r
}

/// A combined subscription answer.
pub fn dto(id: i64, name: String, created_at: String, source_ids: Vec<i64>) -> (r: CombinedDto)
    ensures
        r.id == id,
        r.name == name,
        r.created_at == created_at,
        r.source_ids == source_ids,
{
    CombinedDto { id, name, created_at, source_ids }
}

/// The member ids that `m` holds for `cid`: none where it has no entry.
pub open spec fn got(m: Map<i64, Vec<i64>>, cid: i64) -> Seq<i64> {
    if m.contains_key(cid) {
        m[cid]@
    } else {
        seq![]
    }
}

/// Some row of `rows` has the id `cid`.
pub open spec fn id_seen(rows: Seq<(i64, String, String)>, cid: i64) -> bool {
    exists|j: int| 0 <= j < rows.len() && (#[trigger] rows[j]).0 == cid
}

/// The member ids of every combined subscription, grouped by its id.
fn member_map(pairs: &Vec<(i64, i64)>) -> (r: HashMap<i64, Vec<i64>>)
    ensures
        forall|cid: i64| #[trigger] got(r@, cid) == members_of(pairs@, cid),
{
    broadcast use vstd::std_specs::hash::group_hash_axioms;

    let mut map: HashMap<i64, Vec<i64>> = HashMap::new();
    let mut i: usize = 0;
    assert forall|cid: i64| #[trigger] got(map@, cid) == members_of(pairs@.take(0), cid) by {
        assert(pairs@.take(0).len() == 0);
    }
    while i < pairs.len()
        invariant
            i <= pairs.len(),
            forall|cid: i64| #[trigger] got(map@, cid) == members_of(pairs@.take(i as int), cid),
        decreases pairs.len() - i,
    {
        let (cid, sid) = pairs[i];
        let ghost before = map@;
        proof {
            assert(pairs@.take(i + 1).drop_last() =~= pairs@.take(i as int));
            assert(pairs@.take(i + 1).last() == pairs@[i as int]);
        }
        let mut cur = match map.remove(&cid) {
            Some(v) => v,
            None => Vec::new(),
        };
        assert(cur@ == got(before, cid));
        cur.push(sid);
        map.insert(cid, cur);
        proof {
            assert forall|c: i64| #[trigger] got(map@, c) == members_of(pairs@.take(i + 1), c) by {
                if c != cid {
                    assert(got(map@, c) == got(before, c));
                }
            }
        }
        i = i + 1;
    }
    assert(pairs@.take(pairs.len() as int) =~= pairs@);
    map
}

/// The listing: each stored combined subscription `(id, name, created_at)`,
/// in order, with the member ids that `pairs` (combined id, source id) give
/// it, in their order. The members of an id go to its first row only (ids
/// are unique in the store).
pub fn group_members(rows: Vec<(i64, String, String)>, pairs: &Vec<(i64, i64)>) -> (r: Vec<
    CombinedDto,
>)
    ensures
        r@.len() == rows@.len(),
        forall|i: int|
            0 <= i < rows@.len() ==> {
                &&& (#[trigger] r@[i]).id == rows@[i].0
                &&& r@[i].name == rows@[i].1
                &&& r@[i].created_at == rows@[i].2
                &&& r@[i].source_ids@ == if id_seen(rows@.take(i), rows@[i].0) {
                    seq![]
                } else {
                    members_of(pairs@, rows@[i].0)
                }
            },
{
    broadcast use vstd::std_specs::hash::group_hash_axioms;

    let mut map = member_map(pairs);
    let ghost all = rows@;
    let mut rest = rows;
    let mut out: Vec<CombinedDto> = Vec::new();
    let ghost mut done: int = 0;
    while rest.len() > 0
        invariant
            0 <= done <= all.len(),
            rest@ == all.skip(done),
            out@.len() == done,
            forall|c: i64|
                #[trigger] got(map@, c) == if id_seen(all.take(done), c) {
                    seq![]
                } else {
                    members_of(pairs@, c)
                },
            forall|i: int|
                0 <= i < done ==> {
                    &&& (#[trigger] out@[i]).id == all[i].0
                    &&& out@[i].name == all[i].1
                    &&& out@[i].created_at == all[i].2
                    &&& out@[i].source_ids@ == if id_seen(all.take(i), all[i].0) {
                        seq![]
                    } else {
                        members_of(pairs@, all[i].0)
                    }
                },
        decreases rest.len(),
    {
        let (id, name, created_at) = rest.remove(0);
        let ghost before = map@;
        proof {
            assert(all[done] == (id, name, created_at));
            assert(all.skip(done + 1) =~= all.skip(done).drop_first());
        }
        let ids = match map.remove(&id) {
            Some(v) => v,
            None => Vec::new(),
        };
        assert(ids@ == got(before, id));
        proof {
            let pre = all.take(done);
            let post = all.take(done + 1);
            assert(post =~= pre.push(all[done]));
            assert forall|c: i64| #[trigger] got(map@, c) == if id_seen(post, c) {
                seq![]
            } else {
                members_of(pairs@, c)
            } by {
                if c == id {
                    assert(post[done] == all[done]);
                } else {
                    assert(got(map@, c) == got(before, c));
                    if id_seen(post, c) {
                        let j = choose|j: int| 0 <= j < post.len() && (#[trigger] post[j]).0 == c;
                        assert(pre[j] == post[j]);
                    }
                    if id_seen(pre, c) {
                        let j = choose|j: int| 0 <= j < pre.len() && (#[trigger] pre[j]).0 == c;
                        assert(post[j] == pre[j]);
                    }
                }
            }
        }
        out.push(dto(id, name, created_at, ids));
        proof {
            done = done + 1;
        }
    }
    out
}

/// A combined subscription name is valid exactly when it is non-empty and
/// each character is an ASCII letter of either case (`A`-`Z`, `a`-`z`), a
/// digit, `-` or `_`; such a name is taken as the new name of a rename.
pub proof fn lemma_combined_name_character_class(s: Seq<char>)
    ensures
        combined_name_ok(s) <==> ({
            &&& s.len() > 0
            &&& forall|i: int|
                0 <= i < s.len() ==> {
                    let c = #[trigger] s[i];
                    ||| ('A' <= c && c <= 'Z')
                    ||| ('a' <= c && c <= 'z')
                    ||| ('0' <= c && c <= '9')
                    ||| c == '-'
                    ||| c == '_'
                }
        }),
{
}

/// Plans a rename: keep the current name where none is requested; refuse an
/// invalid name; write only where the name changes.
pub fn plan_rename(requested: Option<String>, current: String) -> (r: Result<RenamePlan, ApiError>)
    ensures
        match requested {
            None => r matches Ok(p) && p.name == current && !p.write,
            Some(n) => if combined_name_ok(n@) {
                r matches Ok(p) && p.name == n && p.write == (n@ != current@)
            } else {
                r matches Err(e) && e.is(400, "bad_request"@, "combined name must match [A-Za-z0-9-_]"@)
            },
        },
{
    match requested {
        None => Ok(RenamePlan { name: current, write: false }),
        Some(n) => {
            if !valid_combined_name(n.as_str()) {
                return Err(invalid_name_error());
            }
            let write = !str_eq(n.as_str(), current.as_str());
            Ok(RenamePlan { name: n, write })
        },
    }
}

} // verus!
