//! Aggregate statistics: nodes per protocol and sources per kind.
use std::collections::BTreeMap;
use vstd::prelude::*;

use crate::text::str_eq;

verus! {

/// The statistics answer.
#[derive(Debug, Clone)]
pub struct StatsDto {
    pub total_nodes: usize,
    pub protocol_counts: BTreeMap<String, usize>,
    pub errors: Vec<String>,
    pub sources: usize,
    pub kinds: BTreeMap<String, i64>,
}

/// How often `k` occurs in `s`.
pub open spec fn count_in(s: Seq<Seq<char>>, k: Seq<char>) -> nat
    decreases s.len(),
{
    if s.len() == 0 {
        0
    } else {
        count_in(s.drop_last(), k) + if s.last() == k {
            1nat
        } else {
            0nat
        }
    }
}

/// The keys of a count table.
pub open spec fn table_keys(t: Seq<(String, usize)>) -> Seq<Seq<char>> {
    t.map_values(|e: (String, usize)| e.0@)
}

/// `t` counts the protocols `ps`: one entry per distinct protocol, holding
/// the number of its occurrences.
pub open spec fn counts_of(t: Seq<(String, usize)>, ps: Seq<Seq<char>>) -> bool {
    &&& forall|a: int, b: int| 0 <= a < b < t.len() ==> t[a].0@ != t[b].0@
    &&& forall|a: int| 0 <= a < t.len() ==> #[trigger] t[a].1 == count_in(ps, t[a].0@) && t[a].1 > 0
    &&& forall|k: Seq<char>| count_in(ps, k) > 0 ==> #[trigger] table_keys(t).contains(k)
}

/// The sum of the counts of a table.
pub open spec fn table_total(t: Seq<(String, usize)>) -> int
    decreases t.len(),
{
    if t.len() == 0 {
        0
    } else {
        table_total(t.drop_last()) + t.last().1
    }
}

proof fn lemma_total_update(t: Seq<(String, usize)>, j: int, e: (String, usize))
    requires
        0 <= j < t.len(),
    ensures
        table_total(t.update(j, e)) == table_total(t) - t[j].1 + e.1,
    decreases t.len(),
{
    if j < t.len() - 1 {
        assert(t.update(j, e).drop_last() =~= t.drop_last().update(j, e));
        lemma_total_update(t.drop_last(), j, e);
    } else {
        assert(t.update(j, e).drop_last() =~= t.drop_last());
    }
}

/// The sum of `s`.
pub open spec fn sum_of(s: Seq<i64>) -> int
    decreases s.len(),
{
    if s.len() == 0 {
        0
    } else {
        sum_of(s.drop_last()) + s.last()
    }
}

proof fn lemma_count_push(s: Seq<Seq<char>>, x: Seq<char>, k: Seq<char>)
    ensures
        count_in(s.push(x), k) == count_in(s, k) + if x == k {
            1nat
        } else {
            0nat
        },
{
    assert(s.push(x).drop_last() =~= s);
}

proof fn lemma_count_le(s: Seq<Seq<char>>, k: Seq<char>)
    ensures
        count_in(s, k) <= s.len(),
    decreases s.len(),
{
    if s.len() > 0 {
        lemma_count_le(s.drop_last(), k);
    }
}

/// Counts the occurrences of each protocol.
pub fn count_protocols(protocols: &Vec<String>) -> (r: Vec<(String, usize)>)
    ensures
        counts_of(r@, protocols@.map_values(|s: String| s@)),
        table_total(r@) == protocols@.len(),
{
    let ghost ps = protocols@.map_values(|s: String| s@);
    let mut out: Vec<(String, usize)> = Vec::new();
    let mut i: usize = 0;
    while i < protocols.len()
        invariant
            i <= protocols.len(),
            ps == protocols@.map_values(|s: String| s@),
            counts_of(out@, ps.take(i as int)),
            table_total(out@) == i,
        decreases protocols.len() - i,
    {
        let p = &protocols[i];
        let ghost before = out@;
        let ghost pre = ps.take(i as int);
        let ghost post = ps.take(i + 1);
        proof {
            assert(post =~= pre.push(p@));
            assert forall|k: Seq<char>| #![auto] true implies count_in(post, k) == count_in(pre, k)
                + if p@ == k {
                1nat
            } else {
                0nat
            } by {
                lemma_count_push(pre, p@, k);
            }
            lemma_count_le(pre, p@);
        }
        let mut j: usize = 0;
        while j < out.len()
            invariant
                j <= out.len(),
                out@ == before,
                forall|a: int| 0 <= a < j ==> out@[a].0@ != p@,
            ensures
                j <= out.len(),
                out@ == before,
                j < out.len() ==> out@[j as int].0@ == p@,
                forall|a: int| 0 <= a < j ==> out@[a].0@ != p@,
            decreases out.len() - j,
        {
            if str_eq(out[j].0.as_str(), p.as_str()) {
                break;
            }
            j = j + 1;
        }
        if j < out.len() {
            let key = out[j].0.clone();
            let c = out[j].1;
            assert(c <= i) by {
                lemma_count_le(pre, p@);
            }
            out.set(j, (key, c + 1));
            proof {
                lemma_total_update(before, j as int, out@[j as int]);
                assert forall|k: Seq<char>| count_in(post, k) > 0 implies #[trigger] table_keys(
                    out@,
                ).contains(k) by {
                    if k == p@ {
                        assert(table_keys(out@)[j as int] == k);
                    } else {
                        assert(table_keys(before).contains(k));
                        let a = choose|a: int| 0 <= a < before.len() && table_keys(before)[a] == k;
                        assert(table_keys(out@)[a] == k);
                    }
                }
            }
        } else {
            out.push((p.clone(), 1));
            proof {
                assert(out@.drop_last() =~= before);
                assert(count_in(pre, p@) == 0) by {
                    if count_in(pre, p@) > 0 {
                        assert(table_keys(before).contains(p@));
                        let a = choose|a: int| 0 <= a < before.len() && table_keys(before)[a] == p@;
                        assert(before[a].0@ == p@);
                    }
                }
                assert forall|k: Seq<char>| count_in(post, k) > 0 implies #[trigger] table_keys(
                    out@,
                ).contains(k) by {
                    if k == p@ {
                        assert(table_keys(out@)[before.len() as int] == k);
                    } else {
                        assert(table_keys(before).contains(k));
                        let a = choose|a: int| 0 <= a < before.len() && table_keys(before)[a] == k;
                        assert(table_keys(out@)[a] == k);
                    }
                }
            }
        }
        i = i + 1;
    }
    assert(ps.take(protocols.len() as int) =~= ps);
    out
}

/// The number of sources, from the counts per kind: their sum, as `usize`.
pub fn total_sources(counts: &Vec<i64>) -> (r: usize)
    requires
        forall|i: int| 0 <= i < counts@.len() ==> counts@[i] >= 0,
        sum_of(counts@) <= i64::MAX,
    ensures
        r == sum_of(counts@) as usize,
{
    let mut total: i64 = 0;
    let mut i: usize = 0;
    while i < counts.len()
        invariant
            i <= counts.len(),
            forall|k: int| 0 <= k < counts@.len() ==> counts@[k] >= 0,
            sum_of(counts@) <= i64::MAX,
            total == sum_of(counts@.take(i as int)),
        decreases counts.len() - i,
    {
        proof {
            assert(counts@.take(i + 1).drop_last() =~= counts@.take(i as int));
            lemma_sum_prefix(counts@, i + 1);
        }
        total = total + counts[i];
        i = i + 1;
    }
    assert(counts@.take(counts.len() as int) =~= counts@);
    total as usize
}

proof fn lemma_sum_prefix(s: Seq<i64>, k: int)
    requires
        0 <= k <= s.len(),
        forall|i: int| 0 <= i < s.len() ==> s[i] >= 0,
    ensures
        0 <= sum_of(s.take(k)) <= sum_of(s),
    decreases s.len() - k,
{
    if k < s.len() {
        assert(s.drop_last().take(k) =~= s.take(k));
        lemma_sum_prefix(s.drop_last(), k);
    } else {
        assert(s.take(k) =~= s);
        lemma_sum_nonneg(s);
    }
}

proof fn lemma_sum_nonneg(s: Seq<i64>)
    requires
        forall|i: int| 0 <= i < s.len() ==> s[i] >= 0,
    ensures
        sum_of(s) >= 0,
    decreases s.len(),
{
    if s.len() > 0 {
        lemma_sum_nonneg(s.drop_last());
    }
}

} // verus!
