//! The session state: the active tab, focus, lists and cursors, the status
//! line, and how fetched snapshots and command outcomes are merged into it.

use vstd::prelude::*;
use crate::format::{bytes_text, decimal, decimal_string, format_bytes};
use crate::listing::{first_row, revalidated, row_down, row_up, Listing};
use crate::model::{Connection, ConnectionsSnapshot, Member, ProxyInfo, Rule, Traffic, UNKNOWN_DELAY};
use crate::order::{with_start, strictly_ascending, newest_first, sort_names, sort_newest_first};
use crate::snapshot::{unique_names, collect_group_names, derive_members, find_proxy, group_names, lookup, members_of, members_view};

verus! {

/// The three tabs, in the order in which they cycle.
#[derive(Clone, Copy, Debug, PartialEq, Eq, Structural)]
pub enum Tab {
    Proxies,
    Rules,
    Conns,
}

/// Which list of the Proxies tab the cursor keys move.
#[derive(Clone, Copy, Debug, PartialEq, Eq, Structural)]
pub enum Focus {
    Groups,
    Members,
}

pub open spec fn tab_after(t: Tab) -> Tab {
    match t {
        Tab::Proxies => Tab::Rules,
        Tab::Rules => Tab::Conns,
        Tab::Conns => Tab::Proxies,
    }
}

pub open spec fn tab_before(t: Tab) -> Tab {
    match t {
        Tab::Proxies => Tab::Conns,
        Tab::Rules => Tab::Proxies,
        Tab::Conns => Tab::Rules,
    }
}

/// What the Proxies tab shows of the group under the cursor.
#[derive(Clone, Debug)]
pub struct GroupHeader {
    pub name: String,
    pub proxy_type: String,
    /// The member that the group routes through now.
    pub now: Option<String>,
}

pub open spec fn header_of(p: ProxyInfo) -> GroupHeader {
    GroupHeader { name: p.name, proxy_type: p.proxy_type, now: p.now }
}

/// The group of the listing that the cursor over `groups` points at.
pub open spec fn group_under(
    ps: Seq<ProxyInfo>,
    groups: Seq<String>,
    sel: Option<usize>,
) -> Option<ProxyInfo> {
    match sel {
        Some(i) => if i < groups.len() {
            lookup(ps, groups[i as int]@)
        } else {
            None
        },
        None => None,
    }
}

/// The member rows shown for the group under the cursor; none where the
/// listing has no such group.
pub open spec fn shown_members(
    ps: Seq<ProxyInfo>,
    groups: Seq<String>,
    sel: Option<usize>,
) -> Seq<(Seq<char>, i64)> {
    match group_under(ps, groups, sel) {
        Some(g) => members_of(ps, g),
        None => Seq::empty(),
    }
}

pub open spec fn error_text(e: Seq<char>) -> Seq<char> {
    "Error: "@ + e
}

pub open spec fn loaded_groups_text(n: nat) -> Seq<char> {
    "Loaded "@ + decimal(n) + " groups"@
}

pub open spec fn loaded_rules_text(n: nat) -> Seq<char> {
    "Loaded "@ + decimal(n) + " rules"@
}

pub open spec fn loaded_conns_text(n: nat, up: nat, down: nat) -> Seq<char> {
    "Loaded "@ + decimal(n) + " connections. Up: "@ + bytes_text(up) + ", Down: "@ + bytes_text(down)
}

/// The Proxies tab: the groups, the members of the group under the cursor,
/// and that group's header.
pub struct ProxyPane {
    pub groups: Listing<String>,
    pub members: Listing<Member>,
    pub current_group: Option<GroupHeader>,
}

/// The whole state of an interactive session.
pub struct App {
    pub current_tab: Tab,
    pub focus: Focus,
    pub show_help: bool,
    /// The daemon's routing mode as last known.
    pub mode: String,
    /// The status line, rewritten after every operation.
    pub status: String,
    /// The latest throughput sample.
    pub traffic: Traffic,
    pub proxies: ProxyPane,
    pub rules: Listing<Rule>,
    pub conns: Listing<Connection>,
}

fn clone_opt(s: &Option<String>) -> (r: Option<String>)
    ensures
        r == *s,
{
    match s {
        Some(v) => Some(v.clone()),
        None => None,
    }
}

fn error_status(e: &String) -> (r: String)
    ensures
        r@ == error_text(e@),
{
    String::from_str("Error: ").concat(e.as_str())
}

pub open spec fn header_under(
    ps: Seq<ProxyInfo>,
    groups: Seq<String>,
    sel: Option<usize>,
) -> Option<GroupHeader> {
    match group_under(ps, groups, sel) {
        Some(g) => Some(header_of(g)),
        None => None,
    }
}

/// The routing mode that follows `m` in the cycle Rule, Global, Direct; a
/// mode outside the cycle counts as Rule.
pub open spec fn mode_after(m: Seq<char>) -> Seq<char> {
    if m == "Global"@ {
        "Direct"@
    } else if m == "Direct"@ {
        "Rule"@
    } else {
        "Global"@
    }
}

/// The routing mode that follows `m` in the cycle.
pub fn next_mode(m: &String) -> (r: String)
    ensures
        r@ == mode_after(m@),
{
    let global = String::from_str("Global");
    let direct = String::from_str("Direct");
    if *m == global {
        direct
    } else if *m == direct {
        String::from_str("Rule")
    } else {
        global
    }
}

impl ProxyPane {
    /// Re-derives the member rows and the header from a listing, for the
    /// group under the cursor: the member cursor goes to the first row when
    /// `reset`, and otherwise stays where it still fits.
    pub fn rederive(&mut self, ps: &Vec<ProxyInfo>, reset: bool)
        requires
            old(self).groups.wf(),
        ensures
            final(self).groups == old(self).groups,
            final(self).members.wf(),
            members_view(final(self).members.items@) == shown_members(
                ps@,
                old(self).groups.items@,
                old(self).groups.sel,
            ),
            final(self).current_group == header_under(ps@, old(self).groups.items@, old(self).groups.sel),
            final(self).members.sel == (if reset {
                first_row(final(self).members.items@.len())
            } else {
                revalidated(old(self).members.sel, final(self).members.items@.len())
            }),
    {
        let mut found: Option<usize> = None;
        if let Some(i) = self.groups.sel {
            found = find_proxy(ps, &self.groups.items[i]);
        }
        let rows = match found {
            Some(j) => {
                let g = &ps[j];
                self.current_group = Some(
                    GroupHeader {
                        name: g.name.clone(),
                        proxy_type: g.proxy_type.clone(),
                        now: clone_opt(&g.now),
                    },
                );
                derive_members(ps, g)
            },
            None => {
                self.current_group = None;
                Vec::new()
            },
        };
        assert(members_view(rows@) =~= shown_members(ps@, self.groups.items@, self.groups.sel));
        if reset {
            self.members.reset(rows);
        } else {
            self.members.replace(rows);
        }
    }
}

pub open spec fn other_focus(f: Focus) -> Focus {
    match f {
        Focus::Groups => Focus::Members,
        Focus::Members => Focus::Groups,
    }
}

/// The latency that a probe's outcome leaves on its row.
pub open spec fn probed_delay(outcome: Result<i64, String>) -> i64 {
    match outcome {
        Ok(d) => if d > 0 {
            d
        } else {
            UNKNOWN_DELAY
        },
        Err(_) => UNKNOWN_DELAY,
    }
}

/// One cursor step (`up` or down) from `a` to `b`, on the list that has the
/// focus; `reload` tells whether the group cursor moved.
pub open spec fn moved(a: App, b: App, reload: bool, up: bool) -> bool {
    let step = |sel: Option<usize>, len: nat|
        if up {
            row_up(sel)
        } else {
            row_down(sel, len)
        };
    match a.current_tab {
        Tab::Proxies => match a.focus {
            Focus::Groups => {
                let sel = step(a.proxies.groups.sel, a.proxies.groups.items@.len());
                &&& b.proxies.groups.items == a.proxies.groups.items
                &&& b.proxies.groups.sel == sel
                &&& reload == (sel != a.proxies.groups.sel)
                &&& reload ==> b.proxies.members.items@.len() == 0 && b.proxies.current_group.is_none()
                &&& !reload ==> b.proxies == a.proxies
                &&& b.rules == a.rules
                &&& b.conns == a.conns
            },
            Focus::Members => {
                &&& !reload
                &&& b.proxies.groups == a.proxies.groups
                &&& b.proxies.current_group == a.proxies.current_group
                &&& b.proxies.members.items == a.proxies.members.items
                &&& b.proxies.members.sel == step(a.proxies.members.sel, a.proxies.members.items@.len())
                &&& b.rules == a.rules
                &&& b.conns == a.conns
            },
        },
        Tab::Rules => {
            &&& !reload
            &&& b.proxies == a.proxies
            &&& b.rules.items == a.rules.items
            &&& b.rules.sel == step(a.rules.sel, a.rules.items@.len())
            &&& b.conns == a.conns
        },
        Tab::Conns => {
            &&& !reload
            &&& b.proxies == a.proxies
            &&& b.rules == a.rules
            &&& b.conns.items == a.conns.items
            &&& b.conns.sel == step(a.conns.sel, a.conns.items@.len())
        },
    }
}

/// `b` is `a` with the member rows and header re-derived from listing `ps`
/// for the group under the cursor, the member cursor on the first row.
pub open spec fn members_reloaded(a: App, b: App, ps: Seq<ProxyInfo>) -> bool {
    let groups = a.proxies.groups;
    &&& b.proxies.groups == groups
    &&& members_view(b.proxies.members.items@) == shown_members(ps, groups.items@, groups.sel)
    &&& b.proxies.current_group == header_under(ps, groups.items@, groups.sel)
    &&& b.proxies.members.sel == first_row(b.proxies.members.items@.len())
    &&& b.status == a.status
}

/// `b` is `a` with a fetched proxy listing merged into the Proxies tab.
pub open spec fn proxies_merged(a: App, b: App, fetched: Result<Vec<ProxyInfo>, String>) -> bool {
    &&& b.same_frame(&a)
    &&& b.rules == a.rules
    &&& b.conns == a.conns
    &&& match fetched {
        Ok(ps) => {
            let groups = b.proxies.groups;
            &&& strictly_ascending(groups.items@)
            &&& groups.items@.to_multiset() == group_names(ps@).to_multiset()
            &&& groups.sel == revalidated(a.proxies.groups.sel, groups.items@.len())
            &&& members_view(b.proxies.members.items@) == shown_members(
                ps@,
                groups.items@,
                groups.sel,
            )
            &&& b.proxies.current_group == header_under(ps@, groups.items@, groups.sel)
            &&& b.proxies.members.sel == revalidated(
                a.proxies.members.sel,
                b.proxies.members.items@.len(),
            )
            &&& b.status@ == loaded_groups_text(groups.items@.len())
        },
        Err(e) => {
            &&& b.proxies == a.proxies
            &&& b.status@ == error_text(e@)
        },
    }
}

/// `b` is `a` with a fetched rule list merged.
pub open spec fn rules_merged(a: App, b: App, fetched: Result<Vec<Rule>, String>) -> bool {
    &&& b.same_frame(&a)
    &&& b.proxies == a.proxies
    &&& b.conns == a.conns
    &&& match fetched {
        Ok(rs) => {
            &&& b.rules.items == rs
            &&& b.rules.sel == revalidated(a.rules.sel, rs@.len())
            &&& b.status@ == loaded_rules_text(rs@.len())
        },
        Err(e) => {
            &&& b.rules == a.rules
            &&& b.status@ == error_text(e@)
        },
    }
}

/// `b` is `a` with a fetched connection list merged.
pub open spec fn conns_merged(a: App, b: App, fetched: Result<ConnectionsSnapshot, String>) -> bool {
    &&& b.same_frame(&a)
    &&& b.proxies == a.proxies
    &&& b.rules == a.rules
    &&& match fetched {
        Ok(snap) => {
            let cs = b.conns.items@;
            &&& newest_first(cs)
            &&& cs.to_multiset() == snap.connections@.to_multiset()
            &&& forall|k: Seq<char>| #[trigger] with_start(cs, k) == with_start(snap.connections@, k)
            &&& b.conns.sel == revalidated(a.conns.sel, cs.len())
            &&& b.status@ == loaded_conns_text(
                cs.len(),
                snap.upload_total as nat,
                snap.download_total as nat,
            )
        },
        Err(e) => {
            &&& b.conns == a.conns
            &&& b.status@ == error_text(e@)
        },
    }
}

/// The inputs of one refresh: the mode fetch, the throughput samples
/// queued since the last refresh, and what was fetched for the active tab.
pub struct Refresh {
    pub mode: Result<String, String>,
    pub samples: Vec<Traffic>,
    pub data: Fetched,
}

/// A fetched proxy listing names each entry once, as the daemon's map does.
pub open spec fn fetched_ok(data: Fetched) -> bool {
    match data {
        Fetched::Proxies(Ok(ps)) => unique_names(ps@),
        _ => true,
    }
}

/// What a refresh fetched for the active tab.
pub enum Fetched {
    Proxies(Result<Vec<ProxyInfo>, String>),
    Rules(Result<Vec<Rule>, String>),
    Conns(Result<ConnectionsSnapshot, String>),
}

impl Fetched {
    /// The tab that the data belongs to.
    pub open spec fn tab(&self) -> Tab {
        match self {
            Fetched::Proxies(_) => Tab::Proxies,
            Fetched::Rules(_) => Tab::Rules,
            Fetched::Conns(_) => Tab::Conns,
        }
    }
}

/// `a` with the fetched mode, where the fetch succeeded, and the newest of
/// the queued throughput samples, where there are any.
pub open spec fn with_mode_and_traffic(a: App, mode: Result<String, String>, samples: Seq<Traffic>) -> App {
    App {
        mode: match mode {
            Ok(m) => m,
            Err(_) => a.mode,
        },
        traffic: if samples.len() > 0 {
            samples.last()
        } else {
            a.traffic
        },
        ..a
    }
}

/// `b` is `a` refreshed: mode and throughput taken over, then the active
/// tab's data merged. Data for another tab is dropped.
pub open spec fn refreshed(a: App, b: App, mode: Result<String, String>, samples: Seq<Traffic>, data: Fetched) -> bool {
    let m = with_mode_and_traffic(a, mode, samples);
    if data.tab() != a.current_tab {
        b == m
    } else {
        match data {
            Fetched::Proxies(f) => proxies_merged(m, b, f),
            Fetched::Rules(f) => rules_merged(m, b, f),
            Fetched::Conns(f) => conns_merged(m, b, f),
        }
    }
}

impl App {
    /// Every cursor is unset on an empty list and points into its list
    /// otherwise.
    pub open spec fn wf(&self) -> bool {
        &&& self.proxies.groups.wf()
        &&& self.proxies.members.wf()
        &&& self.rules.wf()
        &&& self.conns.wf()
    }

    /// The tab, focus, overlay, mode and throughput are those of `o`.
    pub open spec fn same_frame(&self, o: &App) -> bool {
        &&& self.current_tab == o.current_tab
        &&& self.focus == o.focus
        &&& self.show_help == o.show_help
        &&& self.mode == o.mode
        &&& self.traffic == o.traffic
    }

    /// A session before its first fetch: the Proxies tab with the groups
    /// focused, every list empty, the mode unknown.
    pub fn new() -> (r: App)
        ensures
            r.wf(),
            r.current_tab == Tab::Proxies,
            r.focus == Focus::Groups,
            !r.show_help,
            r.mode@ == "Unknown"@,
            r.status@ == "Press ? for help"@,
            r.traffic == (Traffic { up: 0, down: 0 }),
            r.proxies.groups.items@.len() == 0,
            r.proxies.members.items@.len() == 0,
            r.proxies.current_group.is_none(),
            r.rules.items@.len() == 0,
            r.conns.items@.len() == 0,
    {
        App {
            current_tab: Tab::Proxies,
            focus: Focus::Groups,
            show_help: false,
            mode: String::from_str("Unknown"),
            status: String::from_str("Press ? for help"),
            traffic: Traffic { up: 0, down: 0 },
            proxies: ProxyPane {
                groups: Listing::new(),
                members: Listing::new(),
                current_group: None,
            },
            rules: Listing::new(),
            conns: Listing::new(),
        }
    }

    /// Takes the mode that a configuration fetch returned; a failed fetch
    /// leaves the known mode as it was.
    pub fn apply_mode(&mut self, fetched: Result<String, String>)
        ensures
            final(self).mode == (match fetched {
                Ok(m) => m,
                Err(_) => old(self).mode,
            }),
            final(self).status == old(self).status,
            final(self).current_tab == old(self).current_tab,
            final(self).focus == old(self).focus,
            final(self).show_help == old(self).show_help,
            final(self).traffic == old(self).traffic,
            final(self).proxies == old(self).proxies,
            final(self).rules == old(self).rules,
            final(self).conns == old(self).conns,
    {
        if let Ok(m) = fetched {
            self.mode = m;
        }
    }

    /// Takes the throughput samples queued since the last refresh, oldest
    /// first: the newest is shown and the others are dropped.
    pub fn absorb_traffic(&mut self, samples: Vec<Traffic>)
        ensures
            final(self).traffic == (if samples@.len() > 0 {
                samples@.last()
            } else {
                old(self).traffic
            }),
            final(self).mode == old(self).mode,
            final(self).status == old(self).status,
            final(self).current_tab == old(self).current_tab,
            final(self).focus == old(self).focus,
            final(self).show_help == old(self).show_help,
            final(self).proxies == old(self).proxies,
            final(self).rules == old(self).rules,
            final(self).conns == old(self).conns,
    {
        let mut k: usize = 0;
        while k < samples.len()
            invariant
                k <= samples@.len(),
                self.traffic == (if k > 0 {
                    samples@[k - 1]
                } else {
                    old(self).traffic
                }),
                self.mode == old(self).mode,
                self.status == old(self).status,
                self.current_tab == old(self).current_tab,
                self.focus == old(self).focus,
                self.show_help == old(self).show_help,
                self.proxies == old(self).proxies,
                self.rules == old(self).rules,
                self.conns == old(self).conns,
            decreases samples@.len() - k,
        {
            self.traffic = samples[k];
            k = k + 1;
        }
    }

    /// Merges a fetched proxy listing into the Proxies tab. On success the
    /// groups are the listing's `Selector`, `URLTest` and `Fallback` entries
    /// in ascending byte order of their names, and the member rows are
    /// re-derived for the group under the cursor. On failure every list stays
    /// as it was and the status line reports the error.
    pub fn apply_proxies(&mut self, fetched: Result<Vec<ProxyInfo>, String>)
        requires
            old(self).wf(),
            match fetched {
                Ok(ps) => unique_names(ps@),
                Err(_) => true,
            },
        ensures
            final(self).wf(),
            proxies_merged(*old(self), *final(self), fetched),
    {
        match fetched {
            Ok(ps) => {
                let names = sort_names(collect_group_names(&ps));
                self.proxies.groups.replace(names);
                self.proxies.rederive(&ps, false);
                let n = self.proxies.groups.items.len();
                self.status = String::from_str("Loaded ").concat(decimal_string(n as u128).as_str()).concat(" groups");
            },
            Err(e) => {
                self.status = error_status(&e);
            },
        }
    }

    /// Merges the listing fetched after the group cursor moved: the member
    /// rows are those of the group now under the cursor, with the member
    /// cursor on the first row. On failure no member rows are shown, so that
    /// none of another group's stay on screen, and the status line reports
    /// the error.
    pub fn apply_member_snapshot(&mut self, fetched: Result<Vec<ProxyInfo>, String>)
        requires
            old(self).wf(),
            match fetched {
                Ok(ps) => unique_names(ps@),
                Err(_) => true,
            },
        ensures
            final(self).wf(),
            final(self).same_frame(old(self)),
            final(self).proxies.groups == old(self).proxies.groups,
            final(self).rules == old(self).rules,
            final(self).conns == old(self).conns,
            match fetched {
                Ok(ps) => members_reloaded(*old(self), *final(self), ps@),
                Err(e) => {
                    &&& final(self).proxies.members.items@.len() == 0
                    &&& final(self).proxies.current_group.is_none()
                    &&& final(self).status@ == error_text(e@)
                },
            },
    {
        match fetched {
            Ok(ps) => {
                self.proxies.rederive(&ps, true);
            },
            Err(e) => {
                self.proxies.members.reset(Vec::new());
                self.proxies.current_group = None;
                self.status = error_status(&e);
            },
        }
    }

    /// Merges a fetched rule list, in the daemon's order.
    pub fn apply_rules(&mut self, fetched: Result<Vec<Rule>, String>)
        requires
            old(self).wf(),
        ensures
            final(self).wf(),
            rules_merged(*old(self), *final(self), fetched),
    {
        match fetched {
            Ok(rs) => {
                let n = rs.len();
                self.rules.replace(rs);
                self.status = String::from_str("Loaded ").concat(decimal_string(n as u128).as_str()).concat(" rules");
            },
            Err(e) => {
                self.status = error_status(&e);
            },
        }
    }

    /// Merges a fetched connection list, most recent start first, and
    /// reports the daemon's totals on the status line.
    pub fn apply_conns(&mut self, fetched: Result<ConnectionsSnapshot, String>)
        requires
            old(self).wf(),
        ensures
            final(self).wf(),
            conns_merged(*old(self), *final(self), fetched),
    {
        match fetched {
            Ok(snap) => {
                let ConnectionsSnapshot { download_total, upload_total, connections } = snap;
                let sorted = sort_newest_first(connections);
                proof {
                    sorted@.to_multiset_ensures();
                    connections@.to_multiset_ensures();
                }
                let n = sorted.len();
                self.conns.replace(sorted);
                self.status = String::from_str("Loaded ").concat(decimal_string(n as u128).as_str()).concat(
                    " connections. Up: ",
                ).concat(format_bytes(upload_total).as_str()).concat(", Down: ").concat(
                    format_bytes(download_total).as_str(),
                );
            },
            Err(e) => {
                self.status = error_status(&e);
            },
        }
    }

    /// Moves the cursor of the list that has the focus one row up, staying on
    /// the first row. Where the group cursor moves, the member rows and the
    /// header of the group it left are cleared at once and the cursor leaves
    /// the members to be re-derived from a fresh listing: the result says so.
    pub fn move_up(&mut self) -> (reload: bool)
        requires
            old(self).wf(),
        ensures
            final(self).wf(),
            final(self).same_frame(old(self)),
            final(self).status == old(self).status,
            moved(*old(self), *final(self), reload, true),
    {
        self.move_by(true)
    }

    /// Moves the cursor of the list that has the focus one row down, staying
    /// on the last row; as `move_up` otherwise.
    pub fn move_down(&mut self) -> (reload: bool)
        requires
            old(self).wf(),
        ensures
            final(self).wf(),
            final(self).same_frame(old(self)),
            final(self).status == old(self).status,
            moved(*old(self), *final(self), reload, false),
    {
        self.move_by(false)
    }

    fn move_by(&mut self, up: bool) -> (reload: bool)
        requires
            old(self).wf(),
        ensures
            final(self).wf(),
            final(self).same_frame(old(self)),
            final(self).status == old(self).status,
            moved(*old(self), *final(self), reload, up),
    {
        match self.current_tab {
            Tab::Proxies => {
                match self.focus {
                    Focus::Groups => {
                        let before = self.proxies.groups.sel;
                        if up {
                            self.proxies.groups.move_up();
                        } else {
                            self.proxies.groups.move_down();
                        }
                        if self.proxies.groups.sel != before {
                            self.proxies.members.reset(Vec::new());
                            self.proxies.current_group = None;
                            true
                        } else {
                            false
                        }
                    },
                    Focus::Members => {
                        if up {
                            self.proxies.members.move_up();
                        } else {
                            self.proxies.members.move_down();
                        }
                        false
                    },
                }
            },
            Tab::Rules => {
                if up {
                    self.rules.move_up();
                } else {
                    self.rules.move_down();
                }
                false
            },
            Tab::Conns => {
                if up {
                    self.conns.move_up();
                } else {
                    self.conns.move_down();
                }
                false
            },
        }
    }

    /// Makes the next tab active: Proxies, Rules, Connections, and round.
    pub fn next_tab(&mut self)
        ensures
            final(self).current_tab == tab_after(old(self).current_tab),
            final(self).focus == old(self).focus,
            final(self).show_help == old(self).show_help,
            final(self).mode == old(self).mode,
            final(self).traffic == old(self).traffic,
            final(self).status == old(self).status,
            final(self).proxies == old(self).proxies,
            final(self).rules == old(self).rules,
            final(self).conns == old(self).conns,
    {
        self.current_tab = match self.current_tab {
            Tab::Proxies => Tab::Rules,
            Tab::Rules => Tab::Conns,
            Tab::Conns => Tab::Proxies,
        };
    }

    /// Makes the previous tab active: the reverse of `next_tab`.
    pub fn prev_tab(&mut self)
        ensures
            final(self).current_tab == tab_before(old(self).current_tab),
            final(self).focus == old(self).focus,
            final(self).show_help == old(self).show_help,
            final(self).mode == old(self).mode,
            final(self).traffic == old(self).traffic,
            final(self).status == old(self).status,
            final(self).proxies == old(self).proxies,
            final(self).rules == old(self).rules,
            final(self).conns == old(self).conns,
    {
        self.current_tab = match self.current_tab {
            Tab::Proxies => Tab::Conns,
            Tab::Conns => Tab::Rules,
            Tab::Rules => Tab::Proxies,
        };
    }

    /// Moves the focus between the groups and the members; outside the
    /// Proxies tab it does nothing.
    pub fn toggle_focus(&mut self)
        ensures
            final(self).focus == (if old(self).current_tab == Tab::Proxies {
                other_focus(old(self).focus)
            } else {
                old(self).focus
            }),
            final(self).current_tab == old(self).current_tab,
            final(self).show_help == old(self).show_help,
            final(self).mode == old(self).mode,
            final(self).traffic == old(self).traffic,
            final(self).status == old(self).status,
            final(self).proxies == old(self).proxies,
            final(self).rules == old(self).rules,
            final(self).conns == old(self).conns,
    {
        if self.current_tab == Tab::Proxies {
            self.focus = match self.focus {
                Focus::Groups => Focus::Members,
                Focus::Members => Focus::Groups,
            };
        }
    }

    /// Reports the outcome of asking the daemon to make `member` the active
    /// member of `group`. After a success the session is refreshed from
    /// `refresh`, what the caller fetched once the daemon had switched, and the
    /// status line then confirms the switch. After a failure nothing but the
    /// status line changes, and `refresh` is not looked at.
    pub fn finish_select(
        &mut self,
        group: &String,
        member: &String,
        outcome: Result<(), String>,
        refresh: Option<Refresh>,
    )
        requires
            old(self).wf(),
            match refresh {
                Some(r) => fetched_ok(r.data),
                None => true,
            },
        ensures
            final(self).wf(),
            match outcome {
                Ok(_) => {
                    &&& final(self).status@ == "Selected: "@ + group@ + " -> "@ + member@
                    &&& match refresh {
                        Some(r) => exists|mid: App|
                            #[trigger] refreshed(*old(self), mid, r.mode, r.samples@, r.data)
                                && *final(self) == (App { status: final(self).status, ..mid }),
                        None => *final(self) == (App { status: final(self).status, ..*old(self) }),
                    }
                },
                Err(e) => {
                    &&& final(self).status@ == "Error selecting proxy: "@ + e@
                    &&& *final(self) == (App { status: final(self).status, ..*old(self) })
                },
            },
    {
        match outcome {
            Ok(_) => {
                if let Some(r) = refresh {
                    let Refresh { mode, samples, data } = r;
                    self.apply_refresh(mode, samples, data);
                }
                let ghost mid = *self;
                self.status = String::from_str("Selected: ").concat(group.as_str()).concat(" -> ").concat(
                    member.as_str(),
                );
                assert(*self == (App { status: self.status, ..mid }));
            },
            Err(e) => {
                self.status = String::from_str("Error selecting proxy: ").concat(e.as_str());
            },
        }
    }

    /// Reports the outcome of a latency probe of member row `index`, named
    /// `name`. A positive delay is shown on that row alone; a non-positive
    /// delay, or a failed probe, is reported as a timeout and the row shows
    /// the unknown latency.
    pub fn finish_probe(&mut self, index: usize, name: &String, outcome: Result<i64, String>)
        requires
            old(self).wf(),
        ensures
            final(self).wf(),
            final(self).same_frame(old(self)),
            final(self).proxies.groups == old(self).proxies.groups,
            final(self).proxies.current_group == old(self).proxies.current_group,
            final(self).proxies.members.sel == old(self).proxies.members.sel,
            final(self).rules == old(self).rules,
            final(self).conns == old(self).conns,
            members_view(final(self).proxies.members.items@) == (if index < old(
                self,
            ).proxies.members.items@.len() {
                members_view(old(self).proxies.members.items@).update(
                    index as int,
                    (old(self).proxies.members.items@[index as int].name@, probed_delay(outcome)),
                )
            } else {
                members_view(old(self).proxies.members.items@)
            }),
            final(self).status@ == (match outcome {
                Ok(d) => if d > 0 {
                    name@ + ": "@ + decimal(d as nat) + "ms"@
                } else {
                    name@ + ": timeout"@
                },
                Err(_) => name@ + ": timeout"@,
            }),
    {
        let delay = match outcome {
            Ok(d) => if d > 0 {
                d
            } else {
                UNKNOWN_DELAY
            },
            Err(_) => UNKNOWN_DELAY,
        };
        if index < self.proxies.members.items.len() {
            let ghost prev = self.proxies.members.items@;
            let old_row = self.proxies.members.items.remove(index);
            self.proxies.members.items.insert(index, Member { name: old_row.name, delay });
            assert(members_view(self.proxies.members.items@) =~= members_view(prev).update(
                index as int,
                (prev[index as int].name@, delay),
            ));
        }
        if delay > 0 {
            self.status = String::from_str(name.as_str()).concat(": ").concat(
                decimal_string(delay as u128).as_str(),
            ).concat("ms");
        } else {
            self.status = String::from_str(name.as_str()).concat(": timeout");
        }
    }

    /// Reports the outcome of asking the daemon to switch to routing mode
    /// `mode`: on success the mode is shown at once; on failure the known
    /// mode stays as it was.
    pub fn finish_mode(&mut self, mode: String, outcome: Result<(), String>)
        ensures
            final(self).mode == (if outcome.is_ok() {
                mode
            } else {
                old(self).mode
            }),
            final(self).current_tab == old(self).current_tab,
            final(self).focus == old(self).focus,
            final(self).show_help == old(self).show_help,
            final(self).traffic == old(self).traffic,
            final(self).proxies == old(self).proxies,
            final(self).rules == old(self).rules,
            final(self).conns == old(self).conns,
            match outcome {
                Ok(_) => final(self).status@ == "Switched to "@ + mode@ + " mode"@,
                Err(e) => final(self).status@ == "Error switching mode: "@ + e@,
            },
    {
        match outcome {
            Ok(_) => {
                self.status = String::from_str("Switched to ").concat(mode.as_str()).concat(" mode");
                self.mode = mode;
            },
            Err(e) => {
                self.status = String::from_str("Error switching mode: ").concat(e.as_str());
            },
        }
    }

    /// Refreshes the session from what was fetched: the routing mode (kept as
    /// it was where its fetch failed), the throughput samples queued since the
    /// last refresh (the newest wins), and the active tab's data.
    pub fn apply_refresh(&mut self, mode: Result<String, String>, samples: Vec<Traffic>, data: Fetched)
        requires
            old(self).wf(),
            fetched_ok(data),
        ensures
            final(self).wf(),
            refreshed(*old(self), *final(self), mode, samples@, data),
    {
        let ghost samples_seen = samples@;
        self.apply_mode(mode);
        self.absorb_traffic(samples);
        assert(*self == with_mode_and_traffic(*old(self), mode, samples_seen));
        let tab = self.current_tab;
        match data {
            Fetched::Proxies(f) => {
                if tab == Tab::Proxies {
                    self.apply_proxies(f);
                }
            },
            Fetched::Rules(f) => {
                if tab == Tab::Rules {
                    self.apply_rules(f);
                }
            },
            Fetched::Conns(f) => {
                if tab == Tab::Conns {
                    self.apply_conns(f);
                }
            },
        }
    }
}

} // verus!
