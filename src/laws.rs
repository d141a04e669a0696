//! Properties of the session engine that span several steps or every input.

use vstd::prelude::*;
use crate::listing::{cursor_ok, row_down, row_up};
use crate::model::ProxyInfo;
use crate::session::{members_reloaded, mode_after, moved, shown_members, tab_after, tab_before, App, Focus, Tab};
use crate::snapshot::members_view;
use crate::snapshot::{group_kind, group_names};

verus! {

proof fn lemma_group_names_are_groups(ps: Seq<ProxyInfo>, x: String)
    requires
        group_names(ps).contains(x),
    ensures
        exists|j: int| 0 <= j < ps.len() && #[trigger] ps[j].name == x && group_kind(ps[j].proxy_type@),
    decreases ps.len(),
{
    let init = ps.drop_last();
    if group_names(init).contains(x) {
        lemma_group_names_are_groups(init, x);
        let j = choose|j: int| 0 <= j < init.len() && #[trigger] init[j].name == x && group_kind(init[j].proxy_type@);
        assert(ps[j] == init[j]);
    } else {
        assert(ps[ps.len() - 1].name == x);
    }
}

/// `name` is the name of an entry of kind `Selector`, `URLTest` or
/// `Fallback` in the listing.
pub open spec fn names_a_group(ps: Seq<ProxyInfo>, name: String) -> bool {
    exists|j: int| 0 <= j < ps.len() && #[trigger] ps[j].name == name && group_kind(ps[j].proxy_type@)
}

proof fn lemma_groups_are_named(ps: Seq<ProxyInfo>, j: int)
    requires
        0 <= j < ps.len(),
        group_kind(ps[j].proxy_type@),
    ensures
        group_names(ps).contains(ps[j].name),
    decreases ps.len(),
{
    let init = ps.drop_last();
    if j < ps.len() - 1 {
        lemma_groups_are_named(init, j);
        let i = choose|i: int| 0 <= i < group_names(init).len() && group_names(init)[i] == ps[j].name;
        assert(group_names(ps)[i] == ps[j].name);
    } else {
        assert(group_names(ps).last() == ps[j].name);
    }
}

/// A group listing holds only entries of the kinds `Selector`, `URLTest` and
/// `Fallback`: each listed name is the name of such an entry of the fetched
/// listing, and every such entry is listed.
pub proof fn listed_groups_are_groups(ps: Seq<ProxyInfo>, groups: Seq<String>)
    requires
        groups.to_multiset() == group_names(ps).to_multiset(),
    ensures
        forall|i: int| 0 <= i < groups.len() ==> names_a_group(ps, #[trigger] groups[i]),
        forall|j: int|
            0 <= j < ps.len() && group_kind(ps[j].proxy_type@) ==> groups.contains(#[trigger] ps[j].name),
{
    assert forall|j: int| 0 <= j < ps.len() && group_kind(ps[j].proxy_type@) implies groups.contains(
        #[trigger] ps[j].name,
    ) by {
        lemma_groups_are_named(ps, j);
        groups.to_multiset_ensures();
        group_names(ps).to_multiset_ensures();
        assert(group_names(ps).to_multiset().count(ps[j].name) > 0);
    }
    assert forall|i: int| 0 <= i < groups.len() implies names_a_group(ps, #[trigger] groups[i]) by {
        groups.to_multiset_ensures();
        group_names(ps).to_multiset_ensures();
        assert(groups.contains(groups[i]));
        assert(groups.to_multiset().count(groups[i]) > 0);
        assert(group_names(ps).contains(groups[i]));
        lemma_group_names_are_groups(ps, groups[i]);
        let j = choose|j: int| 0 <= j < ps.len() && #[trigger] ps[j].name == groups[i] && group_kind(ps[j].proxy_type@);
        assert(0 <= j < ps.len() && ps[j].name == groups[i] && group_kind(ps[j].proxy_type@));
    }
}

/// Moving a cursor up or down never leaves the list: a valid cursor stays
/// valid, and the cursor of an empty list stays unset.
pub proof fn cursor_moves_stay_in_range(sel: Option<usize>, len: nat)
    requires
        cursor_ok(sel, len),
    ensures
        cursor_ok(row_up(sel), len),
        cursor_ok(row_down(sel, len), len),
        len == 0 ==> row_up(sel) == None::<usize> && row_down(sel, len) == None::<usize>,
{
}

/// Moving the group cursor re-derives the member list: once the cursor has
/// moved, no member row of the group it left is shown, and the listing
/// fetched next gives exactly the rows of the group now under the cursor,
/// with the member cursor on the first of them (unset when there are none).
pub proof fn group_move_rederives_members(a: App, b: App, c: App, ps: Seq<ProxyInfo>, up: bool)
    requires
        a.wf(),
        a.current_tab == Tab::Proxies,
        a.focus == Focus::Groups,
        moved(a, b, true, up),
        members_reloaded(b, c, ps),
    ensures
        b.proxies.groups.sel != a.proxies.groups.sel,
        b.proxies.members.items@.len() == 0,
        b.proxies.current_group.is_none(),
        c.proxies.groups == b.proxies.groups,
        members_view(c.proxies.members.items@) == shown_members(
            ps,
            c.proxies.groups.items@,
            c.proxies.groups.sel,
        ),
        c.proxies.members.items@.len() > 0 ==> c.proxies.members.sel == Some(0usize),
        c.proxies.members.items@.len() == 0 ==> c.proxies.members.sel == None::<usize>,
{
}

/// Mode cycling: Rule goes to Global, Global to Direct and Direct to Rule, so
/// three steps from any of them come back to it; any other mode goes to
/// Global.
pub proof fn mode_cycle(m: Seq<char>)
    ensures
        mode_after("Rule"@) == "Global"@,
        mode_after("Global"@) == "Direct"@,
        mode_after("Direct"@) == "Rule"@,
        (m == "Rule"@ || m == "Global"@ || m == "Direct"@) ==> mode_after(mode_after(mode_after(m))) == m,
        !(m == "Rule"@ || m == "Global"@ || m == "Direct"@) ==> mode_after(m) == "Global"@,
{
    reveal_strlit("Rule");
    reveal_strlit("Global");
    reveal_strlit("Direct");
    assert("Rule"@ != "Global"@) by {
        assert("Rule"@.len() != "Global"@.len());
    }
    assert("Rule"@ != "Direct"@) by {
        assert("Rule"@.len() != "Direct"@.len());
    }
    assert("Global"@ != "Direct"@) by {
        assert("Global"@[0] != "Direct"@[0]);
    }
}

/// Tab switching is circular: three steps in one direction come back to the
/// start, and a step back undoes a step forward.
pub proof fn tab_cycle(t: Tab)
    ensures
        tab_after(tab_after(tab_after(t))) == t,
        tab_before(tab_before(tab_before(t))) == t,
        tab_before(tab_after(t)) == t,
        tab_after(tab_before(t)) == t,
{
}

} // verus!
