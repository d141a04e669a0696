//! What the dashboard derives from a fetched proxy listing: the groups it
//! lists and the members of the group under the cursor.

use vstd::prelude::*;
use crate::model::{Member, ProxyInfo, UNKNOWN_DELAY};

verus! {

/// The kinds of proxy that the dashboard lists as groups.
pub open spec fn group_kind(t: Seq<char>) -> bool {
    t == "Selector"@ || t == "URLTest"@ || t == "Fallback"@
}

/// No two entries of the listing share a name.
pub open spec fn unique_names(ps: Seq<ProxyInfo>) -> bool {
    forall|i: int, j: int| 0 <= i < j < ps.len() ==> #[trigger] ps[i].name@ != #[trigger] ps[j].name@
}

/// No two of the texts are the same.
pub open spec fn distinct_texts(v: Seq<String>) -> bool {
    forall|i: int, j: int| 0 <= i < j < v.len() ==> #[trigger] v[i]@ != #[trigger] v[j]@
}

/// `t` is the name of one of the listing's first `bound` entries.
pub open spec fn named_before(ps: Seq<ProxyInfo>, bound: int, t: Seq<char>) -> bool {
    exists|m: int| 0 <= m < bound && #[trigger] ps[m].name@ == t
}

/// The names of the listing's groups, in the listing's order.
pub open spec fn group_names(ps: Seq<ProxyInfo>) -> Seq<String>
    decreases ps.len(),
{
    if ps.len() == 0 {
        Seq::empty()
    } else {
        let r = group_names(ps.drop_last());
        if group_kind(ps.last().proxy_type@) {
            r.push(ps.last().name)
        } else {
            r
        }
    }
}

/// `i` is the first position of the listing that holds `name`.
pub open spec fn named_at(ps: Seq<ProxyInfo>, name: Seq<char>, i: int) -> bool {
    0 <= i < ps.len() && ps[i].name@ == name && forall|j: int| 0 <= j < i ==> ps[j].name@ != name
}

/// The first entry of the listing named `name`, if any.
pub open spec fn lookup(ps: Seq<ProxyInfo>, name: Seq<char>) -> Option<ProxyInfo> {
    if exists|i: int| named_at(ps, name, i) {
        Some(ps[choose|i: int| named_at(ps, name, i)])
    } else {
        None
    }
}

/// The latest measured delay of a proxy, or the unknown sentinel when it has
/// none.
pub open spec fn last_delay(p: ProxyInfo) -> i64 {
    if p.history@.len() > 0 {
        p.history@.last()
    } else {
        UNKNOWN_DELAY
    }
}

/// The latency shown for the proxy named `name`.
pub open spec fn delay_in(ps: Seq<ProxyInfo>, name: Seq<char>) -> i64 {
    match lookup(ps, name) {
        Some(p) => last_delay(p),
        None => UNKNOWN_DELAY,
    }
}

/// The member rows of group `g`: each member's name with its latency.
pub open spec fn members_of(ps: Seq<ProxyInfo>, g: ProxyInfo) -> Seq<(Seq<char>, i64)> {
    Seq::new(g.all@.len(), |k: int| (g.all@[k]@, delay_in(ps, g.all@[k]@)))
}

pub open spec fn members_view(ms: Seq<Member>) -> Seq<(Seq<char>, i64)> {
    ms.map_values(|m: Member| m@)
}

proof fn lemma_lookup_at(ps: Seq<ProxyInfo>, name: Seq<char>, i: int)
    requires
        named_at(ps, name, i),
    ensures
        lookup(ps, name) == Some(ps[i]),
{
    let k = choose|k: int| named_at(ps, name, k);
    if k < i {
        assert(ps[k].name@ != name);
    } else if k > i {
        assert(ps[i].name@ != name);
    }
}

/// Whether the text names a group kind.
pub fn is_group_kind(t: &String) -> (r: bool)
    ensures
        r == group_kind(t@),
{
    let selector = String::from_str("Selector");
    let url_test = String::from_str("URLTest");
    let fallback = String::from_str("Fallback");
    *t == selector || *t == url_test || *t == fallback
}

/// The names of the listing's groups, in the listing's order.
pub fn collect_group_names(ps: &Vec<ProxyInfo>) -> (r: Vec<String>)
    ensures
        r@ == group_names(ps@),
        unique_names(ps@) ==> distinct_texts(r@),
{
    let mut r: Vec<String> = Vec::new();
    let mut k: usize = 0;
    assert(ps@.subrange(0, 0) =~= Seq::<ProxyInfo>::empty());
    while k < ps.len()
        invariant
            k <= ps@.len(),
            r@ == group_names(ps@.subrange(0, k as int)),
            forall|j: int| 0 <= j < r@.len() ==> named_before(ps@, k as int, #[trigger] r@[j]@),
            unique_names(ps@) ==> distinct_texts(r@),
        decreases ps@.len() - k,
    {
        assert(ps@.subrange(0, k + 1).drop_last() =~= ps@.subrange(0, k as int));
        if is_group_kind(&ps[k].proxy_type) {
            let ghost prev = r@;
            r.push(ps[k].name.clone());
            proof {
                assert forall|j: int| 0 <= j < r@.len() implies named_before(ps@, k + 1, #[trigger] r@[j]@) by {
                    if j < prev.len() {
                        assert(r@[j] == prev[j]);
                    } else {
                        assert(ps@[k as int].name@ == r@[j]@);
                    }
                }
                if unique_names(ps@) {
                    assert forall|i: int, j: int| 0 <= i < j < r@.len() implies #[trigger] r@[i]@ != #[trigger] r@[j]@ by {
                        if j == prev.len() {
                            assert(r@[i] == prev[i]);
                            let m = choose|m: int| 0 <= m < k && #[trigger] ps@[m].name@ == prev[i]@;
                            assert(ps@[m].name@ != ps@[k as int].name@);
                        } else {
                            assert(r@[i] == prev[i] && r@[j] == prev[j]);
                        }
                    }
                }
            }
        }
        k = k + 1;
    }
    assert(ps@.subrange(0, ps@.len() as int) =~= ps@);
    r
}

/// Finds the first entry of the listing named `name`.
pub fn find_proxy(ps: &Vec<ProxyInfo>, name: &String) -> (r: Option<usize>)
    ensures
        match r {
            Some(i) => named_at(ps@, name@, i as int) && lookup(ps@, name@) == Some(ps@[i as int]),
            None => lookup(ps@, name@) == None::<ProxyInfo> && forall|j: int|
                0 <= j < ps@.len() ==> #[trigger] ps@[j].name@ != name@,
        },
{
    let mut i: usize = 0;
    while i < ps.len()
        invariant
            i <= ps@.len(),
            forall|j: int| 0 <= j < i ==> #[trigger] ps@[j].name@ != name@,
        decreases ps@.len() - i,
    {
        if ps[i].name == *name {
            proof {
                lemma_lookup_at(ps@, name@, i as int);
            }
            return Some(i);
        }
        i = i + 1;
    }
    None
}

/// The latest delay that the proxy's history records, or the unknown sentinel.
pub fn latest_delay(p: &ProxyInfo) -> (r: i64)
    ensures
        r == last_delay(*p),
{
    if p.history.len() > 0 {
        p.history[p.history.len() - 1]
    } else {
        UNKNOWN_DELAY
    }
}

/// The member rows of group `g`, each with the latency that the listing
/// records for it.
pub fn derive_members(ps: &Vec<ProxyInfo>, g: &ProxyInfo) -> (r: Vec<Member>)
    ensures
        members_view(r@) == members_of(ps@, *g),
{
    let mut r: Vec<Member> = Vec::new();
    let mut k: usize = 0;
    while k < g.all.len()
        invariant
            k <= g.all@.len(),
            members_view(r@) =~= members_of(ps@, *g).subrange(0, k as int),
        decreases g.all@.len() - k,
    {
        let name = g.all[k].clone();
        let delay = match find_proxy(ps, &name) {
            Some(i) => latest_delay(&ps[i]),
            None => UNKNOWN_DELAY,
        };
        assert(delay == delay_in(ps@, g.all@[k as int]@));
        let ghost prev = r@;
        r.push(Member { name, delay });
        assert(members_view(r@) =~= members_view(prev).push((g.all@[k as int]@, delay)));
        k = k + 1;
    }
    r
}

} // verus!
