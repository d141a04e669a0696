use clashtui::dispatch::{Command, Key, PROBE_TIMEOUT_MS, PROBE_URL};
use clashtui::model::{
    Connection, ConnectionMetadata, ConnectionsSnapshot, ProxyInfo, Rule, Traffic, UNKNOWN_DELAY,
};
use clashtui::order::{sort_names, sort_newest_first};
use clashtui::session::{next_mode, App, Fetched, Focus, Refresh, Tab};
use clashtui::stream::{stream_next, stream_start, StreamAction, StreamEvent, StreamState, RETRY_DELAY_MS};

fn proxy(name: &str, kind: &str, all: &[&str], now: Option<&str>, history: &[i64]) -> ProxyInfo {
    ProxyInfo {
        name: name.to_string(),
        proxy_type: kind.to_string(),
        all: all.iter().map(|s| s.to_string()).collect(),
        now: now.map(|s| s.to_string()),
        history: history.to_vec(),
    }
}

fn listing() -> Vec<ProxyInfo> {
    vec![
        proxy("Zeta", "Selector", &["HK", "JP"], Some("HK"), &[]),
        proxy("HK", "Shadowsocks", &[], None, &[120, 80]),
        proxy("Auto", "URLTest", &["JP", "US"], Some("JP"), &[]),
        proxy("JP", "Vmess", &[], None, &[300]),
        proxy("DIRECT", "Direct", &[], None, &[]),
        proxy("Backup", "Fallback", &["US"], None, &[]),
        proxy("Lb", "LoadBalance", &["HK"], None, &[]),
    ]
}

fn conn(id: &str, start: &str) -> Connection {
    Connection {
        id: id.to_string(),
        metadata: ConnectionMetadata {
            network: "tcp".to_string(),
            conn_type: "HTTP".to_string(),
            source_ip: "10.0.0.2".to_string(),
            destination_ip: "1.1.1.1".to_string(),
            source_port: "50000".to_string(),
            destination_port: "443".to_string(),
            host: "example.com".to_string(),
        },
        upload: 10,
        download: 20,
        start: start.to_string(),
        chains: vec!["HK".to_string(), "Zeta".to_string()],
        rule: "MATCH".to_string(),
    }
}

fn member_rows(app: &App) -> Vec<(String, i64)> {
    app.proxies.members.items.iter().map(|m| (m.name.clone(), m.delay)).collect()
}

fn loaded_app() -> App {
    let mut app = App::new();
    app.apply_proxies(Ok(listing()));
    app
}

#[test]
fn new_session_starts_on_proxies_groups() {
    let app = App::new();
    assert_eq!(app.current_tab, Tab::Proxies);
    assert_eq!(app.focus, Focus::Groups);
    assert_eq!(app.mode, "Unknown");
    assert_eq!(app.status, "Press ? for help");
    assert!(!app.show_help);
    assert_eq!(app.proxies.groups.sel, None);
}

#[test]
fn group_listing_is_filtered_and_sorted() {
    let app = loaded_app();
    assert_eq!(app.proxies.groups.items, vec!["Auto", "Backup", "Zeta"]);
    assert_eq!(app.proxies.groups.sel, Some(0));
    assert_eq!(app.status, "Loaded 3 groups");
}

#[test]
fn members_carry_latest_delay() {
    let app = loaded_app();
    assert_eq!(member_rows(&app), vec![("JP".to_string(), 300), ("US".to_string(), UNKNOWN_DELAY)]);
    assert_eq!(app.proxies.members.sel, Some(0));
    let header = app.proxies.current_group.as_ref().unwrap();
    assert_eq!(header.name, "Auto");
    assert_eq!(header.proxy_type, "URLTest");
    assert_eq!(header.now.as_deref(), Some("JP"));
}

#[test]
fn failed_proxy_fetch_keeps_lists() {
    let mut app = loaded_app();
    app.apply_proxies(Err("connection refused".to_string()));
    assert_eq!(app.proxies.groups.items, vec!["Auto", "Backup", "Zeta"]);
    assert_eq!(app.proxies.members.items.len(), 2);
    assert_eq!(app.status, "Error: connection refused");
}

#[test]
fn moving_group_cursor_rederives_members() {
    let mut app = loaded_app();
    app.proxies.members.sel = Some(1);
    let c = app.handle_key(Key::Down);
    assert!(matches!(c, Command::ReloadMembers));
    assert_eq!(app.proxies.groups.sel, Some(1));
    assert!(app.proxies.members.items.is_empty());
    assert!(app.proxies.current_group.is_none());
    app.apply_member_snapshot(Ok(listing()));
    assert_eq!(member_rows(&app), vec![("US".to_string(), UNKNOWN_DELAY)]);
    assert_eq!(app.proxies.members.sel, Some(0));
    assert_eq!(app.proxies.current_group.as_ref().unwrap().name, "Backup");
}

#[test]
fn failed_member_reload_shows_no_stale_members() {
    let mut app = loaded_app();
    app.move_down();
    app.apply_member_snapshot(Err("timed out".to_string()));
    assert!(app.proxies.members.items.is_empty());
    assert_eq!(app.proxies.members.sel, None);
    assert_eq!(app.status, "Error: timed out");
}

#[test]
fn cursor_clamps_at_both_ends() {
    let mut app = loaded_app();
    assert!(!app.move_up());
    assert_eq!(app.proxies.groups.sel, Some(0));
    assert!(app.move_down());
    assert!(app.move_down());
    assert!(!app.move_down());
    assert_eq!(app.proxies.groups.sel, Some(2));
}

#[test]
fn cursor_on_empty_list_stays_unset() {
    let mut app = App::new();
    app.current_tab = Tab::Rules;
    app.move_up();
    app.move_down();
    assert_eq!(app.rules.sel, None);
    app.apply_rules(Ok(vec![]));
    app.move_down();
    assert_eq!(app.rules.sel, None);
    assert_eq!(app.status, "Loaded 0 rules");
}

#[test]
fn rules_keep_daemon_order() {
    let mut app = App::new();
    let rules = vec![
        Rule { rule_type: "DOMAIN".to_string(), payload: "z.com".to_string(), proxy: "Zeta".to_string() },
        Rule { rule_type: "MATCH".to_string(), payload: "".to_string(), proxy: "DIRECT".to_string() },
    ];
    app.apply_rules(Ok(rules));
    assert_eq!(app.rules.items[0].payload, "z.com");
    assert_eq!(app.rules.items[1].rule_type, "MATCH");
    assert_eq!(app.rules.sel, Some(0));
    assert_eq!(app.status, "Loaded 2 rules");
}

#[test]
fn shrinking_list_clamps_cursor() {
    let mut app = App::new();
    let rule = |p: &str| Rule { rule_type: "DOMAIN".to_string(), payload: p.to_string(), proxy: "X".to_string() };
    app.apply_rules(Ok(vec![rule("a"), rule("b"), rule("c")]));
    app.current_tab = Tab::Rules;
    app.move_down();
    app.move_down();
    assert_eq!(app.rules.sel, Some(2));
    app.apply_rules(Ok(vec![rule("a")]));
    assert_eq!(app.rules.sel, Some(0));
}

#[test]
fn mode_cycles_rule_global_direct() {
    assert_eq!(next_mode(&"Rule".to_string()), "Global");
    assert_eq!(next_mode(&"Global".to_string()), "Direct");
    assert_eq!(next_mode(&"Direct".to_string()), "Rule");
    assert_eq!(next_mode(&"Unknown".to_string()), "Global");
    assert_eq!(next_mode(&"rule".to_string()), "Global");
}

#[test]
fn mode_key_requests_next_mode() {
    let mut app = App::new();
    app.apply_mode(Ok("Global".to_string()));
    match app.handle_key(Key::Mode) {
        Command::SetMode { mode } => {
            assert_eq!(mode, "Direct");
            app.finish_mode(mode, Ok(()));
        }
        _ => panic!("expected a mode change"),
    }
    assert_eq!(app.mode, "Direct");
    assert_eq!(app.status, "Switched to Direct mode");
}

#[test]
fn failed_mode_switch_keeps_mode() {
    let mut app = App::new();
    app.apply_mode(Ok("Rule".to_string()));
    app.finish_mode("Global".to_string(), Err("forbidden".to_string()));
    assert_eq!(app.mode, "Rule");
    assert_eq!(app.status, "Error switching mode: forbidden");
    app.apply_mode(Err("down".to_string()));
    assert_eq!(app.mode, "Rule");
}

#[test]
fn probe_timeout_leaves_unknown_latency() {
    let mut app = loaded_app();
    app.handle_key(Key::Right);
    let c = app.handle_key(Key::Test);
    match c {
        Command::Probe { index, name } => {
            assert_eq!(index, 0);
            assert_eq!(name, "JP");
            assert_eq!(app.status, "Testing JP...");
            app.finish_probe(index, &name, Ok(0));
        }
        _ => panic!("expected a probe"),
    }
    assert_eq!(app.proxies.members.items[0].delay, UNKNOWN_DELAY);
    assert_eq!(app.status, "JP: timeout");
    app.finish_probe(1, &"US".to_string(), Err("unreachable".to_string()));
    assert_eq!(app.proxies.members.items[1].delay, UNKNOWN_DELAY);
    assert_eq!(app.status, "US: timeout");
}

#[test]
fn probe_success_updates_one_row() {
    let mut app = loaded_app();
    app.finish_probe(1, &"US".to_string(), Ok(142));
    assert_eq!(member_rows(&app), vec![("JP".to_string(), 300), ("US".to_string(), 142)]);
    assert_eq!(app.status, "US: 142ms");
    assert_eq!(PROBE_TIMEOUT_MS, 5000);
    assert_eq!(PROBE_URL, "http://www.gstatic.com/generate_204");
}

#[test]
fn connections_sorted_newest_first() {
    let mut app = App::new();
    let snap = ConnectionsSnapshot {
        download_total: 2048,
        upload_total: 1536,
        connections: vec![conn("a", "2024-01-01T00:00:01Z"), conn("b", "2024-01-01T00:00:02Z")],
    };
    app.apply_conns(Ok(snap));
    assert_eq!(app.conns.items[0].start, "2024-01-01T00:00:02Z");
    assert_eq!(app.conns.items[1].start, "2024-01-01T00:00:01Z");
    assert_eq!(app.conns.sel, Some(0));
    assert_eq!(app.status, "Loaded 2 connections. Up: 1.50 KB, Down: 2.00 KB");
}

#[test]
fn failed_connection_fetch_keeps_list() {
    let mut app = App::new();
    app.apply_conns(Ok(ConnectionsSnapshot {
        download_total: 0,
        upload_total: 0,
        connections: vec![conn("a", "2024-01-01T00:00:01Z")],
    }));
    app.apply_conns(Err("broken pipe".to_string()));
    assert_eq!(app.conns.items.len(), 1);
    assert_eq!(app.status, "Error: broken pipe");
}

#[test]
fn latest_traffic_sample_wins() {
    let mut app = App::new();
    app.absorb_traffic(vec![
        Traffic { up: 1, down: 2 },
        Traffic { up: 3, down: 4 },
        Traffic { up: 5, down: 6 },
    ]);
    assert_eq!(app.traffic, Traffic { up: 5, down: 6 });
    app.absorb_traffic(vec![]);
    assert_eq!(app.traffic, Traffic { up: 5, down: 6 });
}

#[test]
fn failed_selection_keeps_active_member() {
    let mut app = loaded_app();
    app.handle_key(Key::Right);
    app.handle_key(Key::Down);
    match app.handle_key(Key::Enter) {
        Command::Select { group, member } => {
            assert_eq!(group, "Auto");
            assert_eq!(member, "US");
            app.finish_select(&group, &member, Err("HTTP 400".to_string()), None);
        }
        _ => panic!("expected a selection"),
    }
    assert_eq!(app.proxies.current_group.as_ref().unwrap().now.as_deref(), Some("JP"));
    assert!(!app.status.is_empty());
    assert_eq!(app.status, "Error selecting proxy: HTTP 400");
}

#[test]
fn successful_selection_refreshes_then_confirms() {
    let mut app = loaded_app();
    let mut after = listing();
    after[2].now = Some("US".to_string());
    let refresh = Refresh {
        mode: Ok("Rule".to_string()),
        samples: vec![Traffic { up: 4, down: 8 }],
        data: Fetched::Proxies(Ok(after)),
    };
    app.finish_select(&"Auto".to_string(), &"US".to_string(), Ok(()), Some(refresh));
    assert_eq!(app.status, "Selected: Auto -> US");
    assert_eq!(app.mode, "Rule");
    assert_eq!(app.traffic, Traffic { up: 4, down: 8 });
    assert_eq!(app.proxies.current_group.as_ref().unwrap().now.as_deref(), Some("US"));
}

#[test]
fn selection_without_refresh_still_confirms() {
    let mut app = loaded_app();
    app.finish_select(&"Auto".to_string(), &"JP".to_string(), Ok(()), None);
    assert_eq!(app.status, "Selected: Auto -> JP");
    assert_eq!(app.proxies.groups.items.len(), 3);
}

#[test]
fn help_overlay_intercepts_keys() {
    let mut app = loaded_app();
    assert!(matches!(app.handle_key(Key::Help), Command::Nothing));
    assert!(app.show_help);
    assert!(matches!(app.handle_key(Key::Down), Command::Nothing));
    assert_eq!(app.proxies.groups.sel, Some(0));
    assert!(matches!(app.handle_key(Key::Quit), Command::Nothing));
    assert!(!app.show_help);
    assert!(matches!(app.handle_key(Key::Quit), Command::Exit));
}

#[test]
fn tabs_cycle_both_ways() {
    let mut app = App::new();
    app.next_tab();
    assert_eq!(app.current_tab, Tab::Rules);
    app.next_tab();
    assert_eq!(app.current_tab, Tab::Conns);
    app.next_tab();
    assert_eq!(app.current_tab, Tab::Proxies);
    app.prev_tab();
    assert_eq!(app.current_tab, Tab::Conns);
    assert!(matches!(app.handle_key(Key::Jump(Tab::Rules)), Command::Refresh));
    assert_eq!(app.current_tab, Tab::Rules);
}

#[test]
fn focus_toggles_only_on_proxies() {
    let mut app = App::new();
    app.toggle_focus();
    assert_eq!(app.focus, Focus::Members);
    assert!(matches!(app.handle_key(Key::Left), Command::Nothing));
    assert_eq!(app.focus, Focus::Groups);
    assert!(matches!(app.handle_key(Key::Left), Command::Refresh));
    assert_eq!(app.current_tab, Tab::Conns);
    app.toggle_focus();
    assert_eq!(app.focus, Focus::Groups);
}

#[test]
fn names_sort_bytewise() {
    let v = vec!["b".to_string(), "B".to_string(), "a".to_string(), "ab".to_string()];
    assert_eq!(sort_names(v), vec!["B", "a", "ab", "b"]);
}

#[test]
fn equal_starts_keep_their_order() {
    let v = vec![conn("x", "2024"), conn("y", "2025"), conn("z", "2024")];
    let ids: Vec<String> = sort_newest_first(v).into_iter().map(|c| c.id).collect();
    assert_eq!(ids, vec!["y", "x", "z"]);
}

#[test]
fn stream_reconnects_after_failure() {
    let s = stream_start();
    assert_eq!(s.action, StreamAction::Connect);
    let s = stream_next(s.state, StreamEvent::ConnectFailed);
    assert_eq!(s.state, StreamState::Waiting);
    assert_eq!(s.action, StreamAction::Sleep(RETRY_DELAY_MS));
    assert_eq!(RETRY_DELAY_MS, 3000);
    let s = stream_next(s.state, StreamEvent::Slept);
    assert_eq!(s.action, StreamAction::Connect);
    let s = stream_next(s.state, StreamEvent::Connected);
    assert_eq!(s.action, StreamAction::Read);
    let t = Traffic { up: 7, down: 9 };
    let s = stream_next(s.state, StreamEvent::Message(Some(t)));
    assert_eq!(s.publish, Some(t));
    assert_eq!(s.action, StreamAction::Read);
    let s = stream_next(s.state, StreamEvent::Message(None));
    assert_eq!(s.publish, None);
    let s = stream_next(s.state, StreamEvent::ReadFailed);
    assert_eq!(s.state, StreamState::Waiting);
}

#[test]
fn refresh_merges_mode_traffic_and_active_tab() {
    let mut app = App::new();
    let samples = vec![Traffic { up: 1, down: 1 }, Traffic { up: 2, down: 2 }, Traffic { up: 3, down: 30 }];
    app.apply_refresh(Ok("Rule".to_string()), samples, Fetched::Proxies(Ok(listing())));
    assert_eq!(app.mode, "Rule");
    assert_eq!(app.traffic, Traffic { up: 3, down: 30 });
    assert_eq!(app.proxies.groups.items, vec!["Auto", "Backup", "Zeta"]);
    assert_eq!(app.status, "Loaded 3 groups");
}

#[test]
fn refresh_keeps_mode_when_config_fetch_fails() {
    let mut app = App::new();
    app.apply_refresh(Ok("Global".to_string()), vec![], Fetched::Proxies(Ok(listing())));
    app.apply_refresh(Err("refused".to_string()), vec![], Fetched::Proxies(Err("refused".to_string())));
    assert_eq!(app.mode, "Global");
    assert_eq!(app.proxies.groups.items.len(), 3);
    assert_eq!(app.status, "Error: refused");
}

#[test]
fn refresh_drops_data_for_another_tab() {
    let mut app = App::new();
    app.apply_refresh(Err("x".to_string()), vec![], Fetched::Rules(Ok(vec![])));
    assert_eq!(app.status, "Press ? for help");
    assert_eq!(app.rules.sel, None);
}
