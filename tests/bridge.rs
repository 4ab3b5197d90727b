use pane_bridge::command::{parse_command, Command, Field, ParseError};
use pane_bridge::exec::{parse_direction, parse_resize, Direction, HostAction, ResizeKind, ResponseData};
use pane_bridge::json::Json;
use pane_bridge::state::{BridgeState, CommandResult, Guard, Notification, PaneRecord, TabRecord};
use pane_bridge::text::{contains_lowered, contains_str, str_eq};

fn pane(id: u32, tab: usize, title: &str, focused: bool, plugin: bool, command: Option<&str>) -> PaneRecord {
    PaneRecord {
        id,
        is_plugin: plugin,
        is_focused: focused,
        is_floating: false,
        is_fullscreen: false,
        is_suppressed: false,
        title: title.to_string(),
        tab_index: tab,
        command: command.map(|c| c.to_string()),
        exit_status: None,
        exited: false,
        rows: 24,
        cols: 80,
    }
}

fn tab(position: usize, name: &str, active: bool) -> TabRecord {
    TabRecord {
        position,
        name: name.to_string(),
        active,
        is_fullscreen_active: false,
        is_sync_panes_active: false,
    }
}

fn markers(words: &[&str]) -> Vec<String> {
    words.iter().map(|w| w.to_string()).collect()
}

fn fresh() -> BridgeState {
    BridgeState::new(markers(&["agent", "assistant"]), markers(&["agent"]))
}

fn state_with(panes: Vec<PaneRecord>) -> BridgeState {
    let mut s = fresh();
    s.update(Notification::PaneUpdate(panes));
    s
}

#[test]
fn pane_snapshot_replaces_cache() {
    let mut s = state_with(vec![pane(1, 0, "a", false, false, None), pane(2, 0, "b", false, false, None)]);
    s.update(Notification::PaneUpdate(vec![pane(5, 1, "c", true, false, None)]));
    let ids: Vec<u32> = s.panes().iter().map(|p| p.id).collect();
    assert_eq!(ids, vec![5]);
    assert_eq!(s.panes()[0].tab_index, 1);
    s.update(Notification::PaneUpdate(vec![]));
    assert!(s.panes().is_empty());
}

#[test]
fn panes_are_read_by_tab() {
    let s = state_with(vec![
        pane(1, 0, "a", false, false, None),
        pane(2, 1, "b", false, false, None),
        pane(3, 0, "c", false, false, None),
    ]);
    let ids: Vec<u32> = s.panes_in_tab(0).iter().map(|p| p.id).collect();
    assert_eq!(ids, vec![1, 3]);
    assert!(s.panes_in_tab(5).is_empty());
}

#[test]
fn tab_snapshot_replaces_cache() {
    let mut s = fresh();
    s.update(Notification::TabUpdate(vec![tab(0, "one", true), tab(1, "two", false)]));
    s.update(Notification::TabUpdate(vec![tab(0, "three", true)]));
    assert_eq!(s.tabs().len(), 1);
    assert_eq!(s.tabs()[0].name, "three");
}

#[test]
fn close_protected_pane_is_refused_without_force() {
    let mut s = state_with(vec![pane(7, 0, "shell", true, false, None), pane(8, 0, "other", false, false, None)]);
    let (r, a) = s.handle_request("close", r#"{"pane_id": 7}"#);
    assert!(!r.success);
    assert!(r.error.unwrap().starts_with("Cannot close"));
    assert!(matches!(r.data, Some(ResponseData::ProtectedPane(7))));
    assert!(a.is_none());
    let (r, a) = s.handle_request("close", r#"{"pane_id": 7, "force": true}"#);
    assert!(r.success);
    assert!(r.error.is_none());
    assert!(matches!(r.data, Some(ResponseData::Closed(7))));
    assert!(matches!(a, Some(HostAction::ClosePane(7))));
    let (r, a) = s.handle_request("close", r#"{"pane_id": 8}"#);
    assert!(r.success);
    assert!(matches!(a, Some(HostAction::ClosePane(8))));
}

#[test]
fn hide_protected_pane_is_refused_without_force() {
    let mut s = state_with(vec![pane(7, 0, "shell", true, false, None)]);
    let (r, a) = s.handle_request("hide", r#"{"pane_id": 7}"#);
    assert!(!r.success);
    assert!(r.error.unwrap().starts_with("Cannot hide"));
    assert!(a.is_none());
    let (r, a) = s.handle_request("hide", r#"{"pane_id": 7, "force": true}"#);
    assert!(r.success);
    assert!(matches!(a, Some(HostAction::HidePane(7))));
}

#[test]
fn close_tab_with_protected_pane_is_refused() {
    let mut s = state_with(vec![
        pane(3, 0, "editor", false, false, None),
        pane(4, 1, "logs", false, false, None),
        pane(7, 1, "shell", true, false, None),
    ]);
    let (r, a) = s.handle_request("close_tab", r#"{"index": 1}"#);
    assert!(!r.success);
    assert!(matches!(r.data, Some(ResponseData::ProtectedTab { index: 1, pane_id: 7 })));
    assert!(a.is_none());
    let (r, a) = s.handle_request("close_tab", r#"{"index": 0}"#);
    assert!(r.success);
    assert!(matches!(a, Some(HostAction::CloseTab(0))));
    let (r, a) = s.handle_request("close_tab", r#"{"index": 1, "force": true}"#);
    assert!(r.success);
    assert!(matches!(a, Some(HostAction::CloseTab(1))));
}

#[test]
fn title_heuristic_protects_named_panes() {
    let mut s = state_with(vec![
        pane(1, 0, "main", true, false, None),
        pane(2, 0, "Agent Session", false, false, None),
        pane(3, 0, "ASSISTANT", false, false, None),
        pane(4, 0, "runner", false, false, Some("/usr/bin/AGENT --resume")),
        pane(5, 0, "plain", false, false, Some("bash")),
        pane(6, 0, "shell", false, false, Some("assistant")),
    ]);
    s.init_guard();
    assert!(s.is_protected_pane(1));
    assert!(s.is_protected_pane(2));
    assert!(s.is_protected_pane(3));
    assert!(s.is_protected_pane(4));
    assert!(!s.is_protected_pane(5));
    assert!(!s.is_protected_pane(6));
    assert!(!s.is_protected_pane(99));
}

#[test]
fn first_request_detects_focused_pane_then_protect_overrides() {
    let mut s = state_with(vec![
        pane(2, 0, "plugin", true, true, None),
        pane(5, 0, "idle", false, false, None),
        pane(7, 1, "shell", true, false, None),
    ]);
    assert_eq!(s.guard, Guard::Uninitialized);
    let (r, _) = s.handle_request("list_tabs", "");
    assert!(r.success);
    assert_eq!(s.guard, Guard::Active(Some(7)));
    let (r, _) = s.handle_request("protect", r#"{"pane_id": 9}"#);
    assert!(r.success);
    assert!(matches!(r.data, Some(ResponseData::ProtectionSet(9))));
    let (r, a) = s.handle_request("get_protected", "{}");
    assert!(r.success);
    assert!(a.is_none());
    assert!(matches!(
        r.data,
        Some(ResponseData::Protection { protected_pane_id: Some(9), auto_detected: true })
    ));
}

#[test]
fn no_focused_terminal_leaves_guard_empty() {
    let mut s = state_with(vec![pane(2, 0, "plugin", true, true, None)]);
    let (r, _) = s.handle_request("get_protected", "");
    assert!(matches!(
        r.data,
        Some(ResponseData::Protection { protected_pane_id: None, auto_detected: false })
    ));
    s.update(Notification::PaneUpdate(vec![pane(6, 0, "shell", true, false, None)]));
    let _ = s.handle_request("list", "");
    assert_eq!(s.guard, Guard::Active(None));
}

#[test]
fn command_status_follows_notifications() {
    let mut s = fresh();
    let (r, _) = s.handle_request("command_status", r#"{"pane_id": 12}"#);
    assert!(r.success);
    assert!(matches!(
        r.data,
        Some(ResponseData::Status(CommandResult { pane_id: 12, exit_code: None, exited: false }))
    ));
    s.update(Notification::CommandPaneOpened(12));
    assert_eq!(s.command_status(12), CommandResult { pane_id: 12, exit_code: None, exited: false });
    s.update(Notification::CommandPaneExited(12, Some(42)));
    let (r, _) = s.handle_request("command_status", r#"{"pane_id": 12}"#);
    assert!(matches!(
        r.data,
        Some(ResponseData::Status(CommandResult { pane_id: 12, exit_code: Some(42), exited: true }))
    ));
    assert!(!s.command_status(13).exited);
}

#[test]
fn query_matches_title_or_command_ignoring_case() {
    let mut s = state_with(vec![
        pane(1, 0, "Builder", false, false, None),
        pane(2, 0, "vim", true, false, None),
        pane(3, 1, "worker", false, false, Some("npx build-tool")),
        pane(4, 1, "htop", false, false, Some("htop")),
    ]);
    let _ = s.handle_request("protect", r#"{"pane_id": 4}"#);
    let (r, a) = s.handle_request("query", r#"{"name": "BUILD"}"#);
    assert!(r.success);
    assert!(a.is_none());
    match r.data {
        Some(ResponseData::Panes(v)) => {
            let ids: Vec<u32> = v.iter().map(|p| p.id).collect();
            assert_eq!(ids, vec![1, 3]);
            assert_eq!(v[1].tab_index, 1);
        }
        _ => panic!("query returned no pane list"),
    }
    let (r, _) = s.handle_request("query", r#"{"name": "nothing"}"#);
    assert!(matches!(r.data, Some(ResponseData::Panes(v)) if v.is_empty()));
}

#[test]
fn list_and_session_info_read_the_cache() {
    let mut s = state_with(vec![pane(1, 0, "a", true, false, None), pane(2, 1, "b", false, false, None)]);
    s.update(Notification::TabUpdate(vec![tab(0, "code", true), tab(1, "logs", false)]));
    let (r, _) = s.handle_request("list", "");
    assert!(matches!(r.data, Some(ResponseData::Panes(v)) if v.len() == 2 && v[0].title == "a"));
    let (r, _) = s.handle_request("list_tabs", "");
    assert!(matches!(r.data, Some(ResponseData::Tabs(v)) if v.len() == 2 && v[1].name == "logs"));
    let (r, a) = s.handle_request("session_info", "");
    assert!(a.is_none());
    match r.data {
        Some(ResponseData::Session { tabs_count, panes_count, tabs, protected_pane_id }) => {
            assert_eq!(tabs_count, 2);
            assert_eq!(panes_count, 2);
            assert_eq!(tabs, vec!["code".to_string(), "logs".to_string()]);
            assert_eq!(protected_pane_id, Some(1));
        }
        _ => panic!("session_info returned no summary"),
    }
}

#[test]
fn every_request_name_round_trips() {
    let cases: Vec<(&str, &str)> = vec![
        ("write", r#"{"pane_id": 3, "chars": "ls\n"}"#),
        ("write_bytes", r#"{"pane_id": 3, "bytes": [27, 91, 65]}"#),
        ("list", ""),
        ("query", r#"{"name": "x"}"#),
        ("list_tabs", ""),
        ("focus", r#"{"pane_id": 3}"#),
        ("close", r#"{"pane_id": 3}"#),
        ("hide", r#"{"pane_id": 3}"#),
        ("show", r#"{"pane_id": 3}"#),
        ("clear", r#"{"pane_id": 3}"#),
        ("fullscreen", r#"{"pane_id": 3}"#),
        ("rename_pane", r#"{"pane_id": 3, "name": "build"}"#),
        ("move", r#"{"pane_id": 3, "direction": "up"}"#),
        ("resize", r#"{"pane_id": 3, "direction": "down"}"#),
        ("toggle_floating", r#"{"pane_id": 3}"#),
        ("run", r#"{"command": "cargo"}"#),
        ("rerun", r#"{"pane_id": 3}"#),
        ("command_status", r#"{"pane_id": 3}"#),
        ("new_tab", ""),
        ("close_tab", r#"{"index": 2}"#),
        ("focus_tab", r#"{"name": "logs"}"#),
        ("goto_tab", r#"{"index": 1}"#),
        ("session_info", "{}"),
        ("detach", ""),
        ("protect", r#"{"pane_id": 3}"#),
        ("get_protected", ""),
    ];
    for (name, payload) in cases {
        let mut s = fresh();
        let (r, _) = s.handle_request(name, payload);
        assert!(r.success, "request {} failed: {:?}", name, r.error);
        assert!(r.error.is_none());
        assert!(r.data.is_some());
    }
}

#[test]
fn run_echoes_its_fields() {
    let mut s = fresh();
    let (r, a) = s.handle_request(
        "run",
        r#"{"command": "cargo", "args": ["test", "--quiet"], "cwd": "/tmp", "floating": true}"#,
    );
    assert!(r.success);
    match r.data {
        Some(ResponseData::Started { command, args, floating, cwd }) => {
            assert_eq!(command, "cargo");
            assert_eq!(args, vec!["test".to_string(), "--quiet".to_string()]);
            assert!(floating);
            assert_eq!(cwd, Some("/tmp".to_string()));
        }
        _ => panic!("run returned no data"),
    }
    assert!(matches!(a, Some(HostAction::OpenCommand { floating: true, .. })));
}

#[test]
fn write_reports_counts() {
    let mut s = fresh();
    let (r, a) = s.handle_request("write", r#"{"pane_id": 4, "chars": "héllo"}"#);
    assert!(matches!(r.data, Some(ResponseData::Written { written: 6, pane_id: 4 })));
    assert!(matches!(a, Some(HostAction::WriteChars { pane_id: 4, ref chars }) if chars == "héllo"));
    let (r, a) = s.handle_request("write_bytes", r#"{"pane_id": 4, "bytes": [0, 255]}"#);
    assert!(matches!(r.data, Some(ResponseData::Written { written: 2, pane_id: 4 })));
    assert!(matches!(a, Some(HostAction::WriteBytes { pane_id: 4, ref bytes }) if *bytes == vec![0u8, 255]));
}

#[test]
fn unknown_request_fails_with_parse_error() {
    let mut s = fresh();
    let (r, a) = s.handle_request("frobnicate", r#"{"pane_id": 1}"#);
    assert!(!r.success);
    assert!(r.data.is_none());
    assert!(a.is_none());
    assert_eq!(
        r.error.unwrap(),
        r#"Invalid command 'frobnicate': unknown command (payload: {"pane_id": 1,"cmd":"frobnicate"})"#
    );
    let (r, _) = s.handle_request("frobnicate", "");
    assert_eq!(r.error.unwrap(), r#"Invalid command 'frobnicate': unknown command (payload: {"cmd":"frobnicate"})"#);
}

#[test]
fn failed_requests_show_the_tagged_request() {
    let mut s = fresh();
    let (r, _) = s.handle_request("write", "not json");
    assert_eq!(
        r.error.unwrap(),
        r#"Invalid command 'write': missing field `pane_id` (payload: {"cmd":"write"})"#
    );
    let (r, _) = s.handle_request("focus", r#"{"pane_id": "x"} "#);
    assert_eq!(
        r.error.unwrap(),
        r#"Invalid command 'focus': invalid value for field `pane_id` (payload: {"pane_id": "x","cmd":"focus"})"#
    );
    let (r, a) = s.handle_request("write", "{}");
    assert!(!r.success && r.data.is_none() && a.is_none());
    assert!(r.error.unwrap().ends_with(r#"(payload: {"cmd":"write"})"#));
}

#[test]
fn bare_payloads_carry_no_fields() {
    let mut s = fresh();
    for payload in ["", "   ", "\n\t", "{}"] {
        let (r, a) = s.handle_request("new_tab", payload);
        assert!(r.success);
        assert!(matches!(r.data, Some(ResponseData::CreatedTab { name: None, cwd: None })));
        assert!(matches!(a, Some(HostAction::NewTab { name: None, cwd: None })));
    }
    let (r, a) = s.handle_request("detach", " ");
    assert!(matches!(r.data, Some(ResponseData::Detaching)));
    assert!(matches!(a, Some(HostAction::Detach)));
}

#[test]
fn protect_twice_keeps_state() {
    let mut s = state_with(vec![pane(3, 0, "agent", false, false, None)]);
    let (r1, _) = s.handle_request("protect", r#"{"pane_id": 5}"#);
    let (r2, _) = s.handle_request("protect", r#"{"pane_id": 5}"#);
    assert!(matches!(r1.data, Some(ResponseData::ProtectionSet(5))));
    assert!(matches!(r2.data, Some(ResponseData::ProtectionSet(5))));
    assert_eq!(s.guard, Guard::Active(Some(5)));
    assert_eq!(s.title_markers, markers(&["agent", "assistant"]));
    assert!(s.is_protected_pane(3));
}

#[test]
fn missing_and_invalid_fields_are_reported() {
    let mut s = fresh();
    let (r, _) = s.handle_request("write", r#"{"chars": "x"}"#);
    assert!(!r.success);
    assert!(r.error.unwrap().contains("missing field `pane_id`"));
    let (r, _) = s.handle_request("focus", r#"{"pane_id": -1}"#);
    assert!(r.error.unwrap().contains("invalid value for field `pane_id`"));
    let (r, _) = s.handle_request("focus", r#"{"pane_id": 4294967296}"#);
    assert!(r.error.unwrap().contains("invalid value for field `pane_id`"));
    let (r, _) = s.handle_request("write_bytes", r#"{"pane_id": 1, "bytes": [256]}"#);
    assert!(r.error.unwrap().contains("invalid value for field `bytes`"));
    let (r, _) = s.handle_request("close", r#"{"pane_id": 1, "force": "yes"}"#);
    assert!(r.error.unwrap().contains("invalid value for field `force`"));
    let (r, _) = s.handle_request("write", "not json");
    assert!(r.error.unwrap().contains("missing field `pane_id`"));
    let (r, a) = s.handle_request("list", "[1, 2]");
    assert!(!r.success);
    assert!(a.is_none());
    assert_eq!(
        r.error.unwrap(),
        "Invalid command 'list': payload is not an object (payload: [1, 2])"
    );
    let (r, _) = s.handle_request("detach", "5");
    assert!(!r.success);
    let (r, _) = s.handle_request("list", "not json");
    assert!(r.success);
}

#[test]
fn parse_command_reads_members() {
    let m = vec![
        ("pane_id".to_string(), Json::Number(Some(3))),
        ("name".to_string(), Json::Str("x".to_string())),
        ("extra".to_string(), Json::Null),
    ];
    assert_eq!(
        parse_command("rename_pane", Some(Json::Object(m))),
        Ok(Command::RenamePane { pane_id: 3, name: "x".to_string() })
    );
    assert_eq!(parse_command("rename_pane", None), Err(ParseError::MissingField(Field::PaneId)));
    assert_eq!(parse_command("list", Some(Json::Bool(true))), Err(ParseError::NotAnObject));
    assert_eq!(parse_command("list", None), Ok(Command::List));
    assert_eq!(
        parse_command("new_tab", Some(Json::Object(vec![("cwd".to_string(), Json::Null)]))),
        Ok(Command::NewTab { name: None, cwd: None })
    );
    assert_eq!(parse_command("nope", None), Err(ParseError::UnknownCommand));
}

#[test]
fn directions_normalize_ignoring_case() {
    assert_eq!(parse_direction("UP"), Direction::Up);
    assert_eq!(parse_direction("Down"), Direction::Down);
    assert_eq!(parse_direction("left"), Direction::Left);
    assert_eq!(parse_direction("sideways"), Direction::Right);
    assert_eq!(parse_resize("DECREASE"), ResizeKind::Decrease);
    assert_eq!(parse_resize("Left"), ResizeKind::Decrease);
    assert_eq!(parse_resize("up"), ResizeKind::Increase);
    assert_eq!(parse_resize("bigger"), ResizeKind::Increase);
    let mut s = fresh();
    let (r, a) = s.handle_request("move", r#"{"pane_id": 2, "direction": "LEFT"}"#);
    assert!(matches!(r.data, Some(ResponseData::Moved { pane_id: 2, ref direction }) if direction == "LEFT"));
    assert!(matches!(a, Some(HostAction::MovePane { pane_id: 2, direction: Direction::Left })));
}

#[test]
fn focus_tab_chooses_action_by_create_flag() {
    let mut s = fresh();
    let (_, a) = s.handle_request("focus_tab", r#"{"name": "logs", "create": true}"#);
    assert!(matches!(a, Some(HostAction::FocusOrCreateTab(ref n)) if n == "logs"));
    let (_, a) = s.handle_request("focus_tab", r#"{"name": "logs"}"#);
    assert!(matches!(a, Some(HostAction::GoToTabName(ref n)) if n == "logs"));
}

#[test]
fn markers_are_configurable() {
    let mut s = BridgeState::new(vec![], vec![]);
    s.update(Notification::PaneUpdate(vec![pane(2, 0, "agent", false, false, Some("agent"))]));
    assert!(!s.is_protected_pane(2));
    let (r, _) = s.handle_request("close", r#"{"pane_id": 2}"#);
    assert!(r.success);
    let mut s = BridgeState::new(vec!["BoT".to_string()], vec![]);
    s.update(Notification::PaneUpdate(vec![pane(2, 0, "my bot pane", false, false, None)]));
    assert!(s.is_protected_pane(2));
}

#[test]
fn text_helpers() {
    assert!(str_eq("abc", "abc"));
    assert!(!str_eq("abc", "abd"));
    assert!(!str_eq("ab", "abc"));
    assert!(contains_str("hello world", "o w"));
    assert!(contains_str("abc", ""));
    assert!(!contains_str("abc", "abcd"));
    assert!(contains_lowered("Hello WORLD", "world"));
    assert!(!contains_lowered("Hello", "HELLO"));
}
