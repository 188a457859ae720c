//! The combined subscriptions page: the form that creates or edits one (its
//! name and the set of member sources), the request it sends, the links of
//! each subscription and the feedback of copying one.
use std::collections::HashSet;
use vstd::prelude::*;

use crate::text::{dec_int, fmt_i64, str_eq};
use crate::web_core::fmt::{subscribe_path, subscribe_path_of};

verus! {

/// The form of a combined subscription.
#[derive(Debug)]
pub struct CombinedForm {
    pub open: bool,
    /// The subscription being edited; none for a new one.
    pub edit_id: Option<i64>,
    pub name: String,
    /// The ids of the member sources.
    pub checked: HashSet<i64>,
}

impl CombinedForm {
    /// The member ids.
    pub open spec fn members(&self) -> Set<i64> {
        self.checked@
    }
}

/// `s` with `x` added where it is missing and removed where it is there.
pub open spec fn toggled(s: Set<i64>, x: i64) -> Set<i64> {
    if s.contains(x) {
        s.remove(x)
    } else {
        s.insert(x)
    }
}

impl CombinedForm {
    /// The closed form.
    pub fn closed() -> (r: Self)
        ensures
            !r.open,
            r.edit_id is None,
            r.name@.len() == 0,
            r.members() == Set::<i64>::empty(),
    {
        proof {
            reveal_strlit("");
        }
        CombinedForm { open: false, edit_id: None, name: String::new(), checked: HashSet::new() }
    }

    /// The form of a new subscription: open, no name, no members.
    pub fn for_create() -> (r: Self)
        ensures
            r.open,
            r.edit_id is None,
            r.name@.len() == 0,
            r.members() == Set::<i64>::empty(),
    {
        proof {
            reveal_strlit("");
        }
        CombinedForm { open: true, edit_id: None, name: String::new(), checked: HashSet::new() }
    }

    /// The form of subscription `id`, filled with its name and members.
    pub fn for_edit(id: i64, name: String, source_ids: &Vec<i64>) -> (r: Self)
        ensures
            r.open,
            r.edit_id == Some(id),
            r.name == name,
            r.members() == source_ids@.to_set(),
    {
        broadcast use vstd::std_specs::hash::group_hash_axioms;

        let mut checked: HashSet<i64> = HashSet::new();
        let mut i: usize = 0;
        while i < source_ids.len()
            invariant
                i <= source_ids.len(),
                checked@ == source_ids@.take(i as int).to_set(),
            decreases source_ids.len() - i,
        {
            let x = source_ids[i];
            let ghost prev = source_ids@.take(i as int);
            let ghost cur = source_ids@.take(i + 1);
            checked.insert(x);
            proof {
                assert(cur =~= prev.push(x));
                assert forall|y: i64| checked@.contains(y) == cur.to_set().contains(y) by {
                    if y == x {
                        assert(cur[i as int] == x);
                    } else if prev.contains(y) {
                        let m = choose|m: int| 0 <= m < prev.len() && prev[m] == y;
                        assert(cur[m] == y);
                    } else if cur.contains(y) {
                        let m = choose|m: int| 0 <= m < cur.len() && cur[m] == y;
                        assert(prev[m] == y);
                    }
                }
                assert(checked@ =~= cur.to_set());
            }
            i = i + 1;
        }
        assert(source_ids@.take(source_ids.len() as int) =~= source_ids@);
        CombinedForm { open: true, edit_id: Some(id), name, checked }
    }

    /// Ticks or unticks the source `sid`.
    pub fn toggle(&mut self, sid: i64)
        ensures
            final(self).members() == toggled(old(self).members(), sid),
            final(self).open == old(self).open,
            final(self).edit_id == old(self).edit_id,
            final(self).name == old(self).name,
    {
        broadcast use vstd::std_specs::hash::group_hash_axioms;

        if self.checked.contains(&sid) {
            self.checked.remove(&sid);
        } else {
            self.checked.insert(sid);
        }
    }
}

/// Ticking a source twice leaves the members as they were.
pub proof fn lemma_member_toggle_twice(s: Set<i64>, x: i64)
    ensures
        toggled(toggled(s, x), x) == s,
{
    if s.contains(x) {
        assert(s.remove(x).insert(x) =~= s);
    } else {
        assert(s.insert(x).remove(x) =~= s);
    }
}

/// A toggle changes only the ticked source.
pub proof fn lemma_toggle_only_that(s: Set<i64>, x: i64, y: i64)
    requires
        y != x,
    ensures
        toggled(s, x).contains(y) == s.contains(y),
        toggled(s, x).contains(x) == !s.contains(x),
{
}

/// The request that saves a combined subscription.
#[derive(Debug, Clone)]
pub struct SaveRequest {
    pub method: &'static str,
    pub path: String,
}

/// Where and how the form saves: an edit replaces subscription `id`, a new
/// one is created.
pub open spec fn save_target(edit_id: Option<i64>) -> (Seq<char>, Seq<char>) {
    match edit_id {
        Some(id) => ("PUT"@, "/admin/combineds/"@ + dec_int(id as int)),
        None => ("POST"@, "/admin/combineds"@),
    }
}

/// The request of the form, or the message where the name is empty.
pub fn save_request(form: &CombinedForm) -> (r: Result<SaveRequest, &'static str>)
    ensures
        form.name@.len() == 0 ==> (r matches Err(m) && m@ == "组合名称不能为空"@),
        form.name@.len() > 0 ==> (r matches Ok(q) && (q.method@, q.path@) == save_target(form.edit_id)),
{
    if form.name.unicode_len() == 0 {
        return Err("组合名称不能为空");
    }
    match form.edit_id {
        Some(id) => {
            let mut path = String::from_str("/admin/combineds/");
            let digits = fmt_i64(id);
            path.append(digits.as_str());
            Ok(SaveRequest { method: "PUT", path })
        },
        None => Ok(SaveRequest { method: "POST", path: String::from_str("/admin/combineds") }),
    }
}

/// The output formats, in the order of their link buttons.
pub open spec fn link_format(k: int) -> Seq<char> {
    if k == 0 {
        "clash"@
    } else if k == 1 {
        "v2ray"@
    } else {
        "singbox"@
    }
}

/// The link of subscription `name` in each format: the page's origin
/// `base`, then the subscription path.
pub fn subscription_links(base: &str, name: &str) -> (r: Vec<(&'static str, String)>)
    ensures
        r@.len() == 3,
        forall|k: int|
            0 <= k < 3 ==> (#[trigger] r@[k]).0@ == link_format(k) && r@[k].1@ == base@
                + subscribe_path_of(name@, link_format(k)),
{
    let formats: [&'static str; 3] = ["clash", "v2ray", "singbox"];
    let mut out: Vec<(&'static str, String)> = Vec::new();
    let mut i: usize = 0;
    while i < 3
        invariant
            i <= 3,
            formats@ == seq!["clash", "v2ray", "singbox"],
            out@.len() == i,
            forall|k: int|
                0 <= k < i ==> (#[trigger] out@[k]).0@ == link_format(k) && out@[k].1@ == base@
                    + subscribe_path_of(name@, link_format(k)),
        decreases 3 - i,
    {
        let f = formats[i];
        assert(f@ == link_format(i as int));
        let mut link = String::from_str(base);
        let path = subscribe_path(name, f);
        link.append(path.as_str());
        out.push((f, link));
        i = i + 1;
    }
    out
}

/// Whether the link button of `(name, fmt)` shows as copied.
pub fn is_copied(copied: &Option<(String, String)>, name: &str, fmt: &str) -> (r: bool)
    ensures
        r == (match copied {
            Some(k) => k.0@ == name@ && k.1@ == fmt@,
            None => false,
        }),
{
    match copied {
        Some(k) => str_eq(k.0.as_str(), name) && str_eq(k.1.as_str(), fmt),
        None => false,
    }
}

/// The copy feedback when the timer of copying `key` runs out: cleared
/// where it still belongs to `key`, kept where a later copy replaced it.
pub fn expire_copy(copied: Option<(String, String)>, key: &(String, String)) -> (r: Option<(String, String)>)
    ensures
        match copied {
            Some(k) => if k.0@ == key.0@ && k.1@ == key.1@ {
                r is None
            } else {
                r == Some(k)
            },
            None => r is None,
        },
{
    match copied {
        Some(k) => {
            if str_eq(k.0.as_str(), key.0.as_str()) && str_eq(k.1.as_str(), key.1.as_str()) {
                None
            } else {
                Some(k)
            }
        },
        None => None,
    }
}

} // verus!
