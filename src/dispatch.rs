//! The command dispatcher: each key is one state change and at most one
//! request for the daemon, which the caller performs before reporting back.

use vstd::prelude::*;
use crate::session::{mode_after, moved, other_focus, tab_after, tab_before, App, Focus, Tab, next_mode};

verus! {

/// The address that latency probes measure against.
pub const PROBE_URL: &'static str = "http://www.gstatic.com/generate_204";

/// How long, in milliseconds, the daemon may take over one latency probe.
pub const PROBE_TIMEOUT_MS: u64 = 5000;

/// A key, as the dispatcher tells keys apart.
#[derive(Clone, Copy, Debug, PartialEq, Eq, Structural)]
pub enum Key {
    /// `q` or Escape.
    Quit,
    /// `?`.
    Help,
    /// `1`, `2` or `3`.
    Jump(Tab),
    /// The Tab key.
    SwitchFocus,
    Left,
    Right,
    Up,
    Down,
    Enter,
    /// `t`.
    Test,
    /// `r`.
    Refresh,
    /// `m`.
    Mode,
    Other,
}

/// What the caller does after a key.
#[derive(Clone, Debug)]
pub enum Command {
    Nothing,
    /// End the session.
    Exit,
    /// Fetch the mode, drain the traffic samples and fetch the active tab's
    /// data.
    Refresh,
    /// Fetch the proxy listing for the group now under the cursor.
    ReloadMembers,
    /// Make `member` the active member of `group`, then report through
    /// `finish_select`.
    Select { group: String, member: String },
    /// Probe the latency of member row `index`, then report through
    /// `finish_probe`.
    Probe { index: usize, name: String },
    /// Switch the daemon to routing mode `mode`, then report through
    /// `finish_mode`.
    SetMode { mode: String },
}

/// Keys that the help overlay swallows while it is shown.
pub open spec fn blocked_by_help(k: Key) -> bool {
    match k {
        Key::SwitchFocus | Key::Left | Key::Right | Key::Up | Key::Down | Key::Test | Key::Refresh | Key::Mode => true,
        _ => false,
    }
}

/// The session, overlay aside, is as it was.
pub open spec fn unchanged(a: App, b: App) -> bool {
    &&& b.current_tab == a.current_tab
    &&& b.focus == a.focus
    &&& b.mode == a.mode
    &&& b.traffic == a.traffic
    &&& b.status == a.status
    &&& b.proxies == a.proxies
    &&& b.rules == a.rules
    &&& b.conns == a.conns
}

/// The data and the status line are as they were.
pub open spec fn same_data(a: App, b: App) -> bool {
    &&& b.mode == a.mode
    &&& b.traffic == a.traffic
    &&& b.status == a.status
    &&& b.proxies == a.proxies
    &&& b.rules == a.rules
    &&& b.conns == a.conns
}

/// Where the member actions apply: the Proxies tab, members focused.
pub open spec fn on_members(a: App) -> bool {
    a.current_tab == Tab::Proxies && a.focus == Focus::Members
}

impl App {
    /// Applies one key to the session and says what the caller must do next.
    pub fn handle_key(&mut self, key: Key) -> (c: Command)
        requires
            old(self).wf(),
        ensures
            final(self).wf(),
            ({
                let a = *old(self);
                let b = *final(self);
                if a.show_help && blocked_by_help(key) {
                    c is Nothing && unchanged(a, b) && b.show_help
                } else {
                    match key {
                        Key::Quit => if a.show_help {
                            c is Nothing && unchanged(a, b) && !b.show_help
                        } else {
                            c is Exit && unchanged(a, b) && !b.show_help
                        },
                        Key::Help => c is Nothing && unchanged(a, b) && b.show_help == !a.show_help,
                        Key::Jump(t) => c is Refresh && b.current_tab == t && b.focus == a.focus
                            && b.show_help == a.show_help && same_data(a, b),
                        Key::SwitchFocus => c is Nothing && b.current_tab == a.current_tab && b.focus == (
                        if a.current_tab == Tab::Proxies {
                            other_focus(a.focus)
                        } else {
                            a.focus
                        }) && !b.show_help && same_data(a, b),
                        Key::Left => if on_members(a) {
                            c is Nothing && b.focus == Focus::Groups && b.current_tab == a.current_tab
                                && !b.show_help && same_data(a, b)
                        } else {
                            c is Refresh && b.current_tab == tab_before(a.current_tab) && b.focus
                                == a.focus && !b.show_help && same_data(a, b)
                        },
                        Key::Right => if a.current_tab == Tab::Proxies && a.focus == Focus::Groups {
                            c is Nothing && b.focus == Focus::Members && b.current_tab == a.current_tab
                                && !b.show_help && same_data(a, b)
                        } else {
                            c is Refresh && b.current_tab == tab_after(a.current_tab) && b.focus
                                == a.focus && !b.show_help && same_data(a, b)
                        },
                        Key::Up | Key::Down => {
                            &&& b.same_frame(&a)
                            &&& b.status == a.status
                            &&& c is ReloadMembers || c is Nothing
                            &&& moved(a, b, c is ReloadMembers, key == Key::Up)
                        },
                        Key::Enter => if a.show_help {
                            c is Nothing && unchanged(a, b) && !b.show_help
                        } else if on_members(a) && a.proxies.current_group.is_some()
                            && a.proxies.members.sel.is_some() {
                            &&& unchanged(a, b)
                            &&& !b.show_help
                            &&& c matches Command::Select { group, member }
                            &&& group == a.proxies.current_group.unwrap().name
                            &&& member == a.proxies.members.items@[a.proxies.members.sel.unwrap() as int].name
                        } else {
                            c is Nothing && unchanged(a, b) && !b.show_help
                        },
                        Key::Test => if on_members(a) && a.proxies.members.sel.is_some() {
                            let i = a.proxies.members.sel.unwrap();
                            let name = a.proxies.members.items@[i as int].name;
                            &&& c matches Command::Probe { index, name: n }
                            &&& index == i && n == name
                            &&& b.status@ == "Testing "@ + name@ + "..."@
                            &&& b.current_tab == a.current_tab && b.focus == a.focus && !b.show_help
                            &&& b.mode == a.mode && b.traffic == a.traffic && b.proxies == a.proxies
                            &&& b.rules == a.rules && b.conns == a.conns
                        } else {
                            c is Nothing && unchanged(a, b) && !b.show_help
                        },
                        Key::Refresh => c is Refresh && unchanged(a, b) && !b.show_help,
                        Key::Mode => {
                            &&& c matches Command::SetMode { mode }
                            &&& mode@ == mode_after(a.mode@)
                            &&& unchanged(a, b)
                            &&& !b.show_help
                        },
                        Key::Other => c is Nothing && unchanged(a, b) && b.show_help == a.show_help,
                    }
                }
            }),
    {
        if self.show_help && match key {
            Key::SwitchFocus | Key::Left | Key::Right | Key::Up | Key::Down | Key::Test | Key::Refresh | Key::Mode => true,
            _ => false,
        } {
            return Command::Nothing;
        }
        match key {
            Key::Quit => {
                if self.show_help {
                    self.show_help = false;
                    Command::Nothing
                } else {
                    Command::Exit
                }
            },
            Key::Help => {
                self.show_help = !self.show_help;
                Command::Nothing
            },
            Key::Jump(t) => {
                self.current_tab = t;
                Command::Refresh
            },
            Key::SwitchFocus => {
                self.toggle_focus();
                Command::Nothing
            },
            Key::Left => {
                if self.current_tab == Tab::Proxies && self.focus == Focus::Members {
                    self.focus = Focus::Groups;
                    Command::Nothing
                } else {
                    self.prev_tab();
                    Command::Refresh
                }
            },
            Key::Right => {
                if self.current_tab == Tab::Proxies && self.focus == Focus::Groups {
                    self.focus = Focus::Members;
                    Command::Nothing
                } else {
                    self.next_tab();
                    Command::Refresh
                }
            },
            Key::Up => {
                if self.move_up() {
                    Command::ReloadMembers
                } else {
                    Command::Nothing
                }
            },
            Key::Down => {
                if self.move_down() {
                    Command::ReloadMembers
                } else {
                    Command::Nothing
                }
            },
            Key::Enter => {
                if self.show_help {
                    self.show_help = false;
                    return Command::Nothing;
                }
                if self.current_tab == Tab::Proxies && self.focus == Focus::Members {
                    if let (Some(g), Some(i)) = (&self.proxies.current_group, self.proxies.members.sel) {
                        return Command::Select {
                            group: g.name.clone(),
                            member: self.proxies.members.items[i].name.clone(),
                        };
                    }
                }
                Command::Nothing
            },
            Key::Test => {
                if self.current_tab == Tab::Proxies && self.focus == Focus::Members {
                    if let Some(i) = self.proxies.members.sel {
                        let name = self.proxies.members.items[i].name.clone();
                        self.status = String::from_str("Testing ").concat(name.as_str()).concat("...");
                        return Command::Probe { index: i, name };
                    }
                }
                Command::Nothing
            },
            Key::Refresh => Command::Refresh,
            Key::Mode => Command::SetMode { mode: next_mode(&self.mode) },
            Key::Other => Command::Nothing,
        }
    }
}

} // verus!
