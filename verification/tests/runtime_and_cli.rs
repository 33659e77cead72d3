use codex_chat_tree_overlay::cli::{
    cli_command, has_flag, plan_cli, required_value_after, unknown_command_message, value_after,
    CliCommand, CliPlan,
};
use codex_chat_tree_overlay::model::{ThreadChatTree, ThreadChatTreeNode, WindowRect};
use codex_chat_tree_overlay::runtime::{
    attached_status_message, decimal_text, overlay_placement, overlay_rect_from_outer,
    after_switch_attempt, session_id_from_content, should_refresh_helper_for_error,
    switched_result, RuntimeState, SessionStep, SwitchDecision,
};
use codex_chat_tree_overlay::window_probe::{
    classify_foreground, exe_name_len, is_codex_window, ForegroundKind,
};

fn node(id: &str) -> ThreadChatTreeNode {
    ThreadChatTreeNode { node_id: id.to_string(), ..Default::default() }
}

fn tree(current: Option<&str>, ids: &[&str]) -> ThreadChatTree {
    ThreadChatTree {
        current_node_id: current.map(|c| c.to_string()),
        nodes: ids.iter().map(|id| node(id)).collect(),
    }
}

fn args(words: &[&str]) -> Vec<String> {
    words.iter().map(|w| w.to_string()).collect()
}

#[test]
fn refresh_errors_are_recognised() {
    assert!(should_refresh_helper_for_error("app-server error for x: unknown chat tree node id n"));
    assert!(should_refresh_helper_for_error("unknown node"));
    assert!(should_refresh_helper_for_error("thread not loaded: abc"));
    assert!(should_refresh_helper_for_error("request canceled"));
    assert!(should_refresh_helper_for_error("request timed out"));
    assert!(!should_refresh_helper_for_error("missing currentNodeId in set-current response"));
    assert!(!should_refresh_helper_for_error("Request Timed Out"));
}

#[test]
fn placement_docks_right_of_codex() {
    let work = WindowRect::new(0, 0, 1920, 1040);
    let codex = WindowRect::new(100, 50, 1200, 900);
    let p = overlay_placement(codex, work);
    assert_eq!((p.x, p.y, p.width, p.height), (1200, 0, 232, 1040));
}

#[test]
fn placement_is_pushed_back_into_work_area() {
    let work = WindowRect::new(0, 0, 1920, 1040);
    let codex = WindowRect::new(900, -30, 1920, 900);
    let p = overlay_placement(codex, work);
    assert_eq!((p.x, p.y), (1920 - 232, 0));
    let small = WindowRect::new(0, 0, 100, 100);
    let p = overlay_placement(codex, small);
    assert_eq!((p.x, p.y, p.height), (0, 0, 240));
}

#[test]
fn overlay_rect_from_outer_position_and_size() {
    let r = overlay_rect_from_outer(1200, 50, 232, 1040);
    assert_eq!((r.left, r.top, r.right, r.bottom, r.width, r.height), (1200, 50, 1432, 1090, 232, 1040));
}

#[test]
fn session_id_content_is_trimmed() {
    assert_eq!(session_id_from_content("  abcdef0123 \r\n").as_deref(), Some("abcdef0123"));
    assert_eq!(session_id_from_content(" \n"), None);
    assert_eq!(session_id_from_content(""), None);
}

#[test]
fn decimal_text_matches_display() {
    for n in [0usize, 1, 9, 10, 42, 1000, 123456789, usize::MAX] {
        assert_eq!(decimal_text(n), n.to_string());
    }
}

#[test]
fn attached_status_counts_nodes() {
    assert_eq!(
        attached_status_message("0123456789abcdef", 1),
        "Attached to session 01234567 with 1 node."
    );
    assert_eq!(
        attached_status_message("0123456789abcdef", 12),
        "Attached to session 01234567 with 12 nodes."
    );
    assert_eq!(attached_status_message("ééééx", 0), "Attached to session éééé with 0 nodes.");
}

#[test]
fn session_update_without_session_clears_state() {
    let mut state = RuntimeState::new();
    state.attached_thread_id = Some("old".to_string());
    state.current_node_override = Some(("old".to_string(), "n".to_string()));
    state.snapshot.helper_connected = true;
    state.snapshot.chat_tree = Some(tree(None, &["n"]));
    state.snapshot.last_error = Some("e".to_string());
    assert_eq!(state.begin_session_update(None), None);
    assert_eq!(state.snapshot.session_id, None);
    assert!(!state.snapshot.helper_connected);
    assert!(state.snapshot.chat_tree.is_none());
    assert_eq!(state.snapshot.status_message, "Waiting for Codex Desktop session focus...");
    assert!(state.snapshot.last_error.is_none());
    assert!(state.attached_thread_id.is_none() && state.current_node_override.is_none());
}

#[test]
fn session_update_attaches_and_shows_tree() {
    let mut state = RuntimeState::new();
    let thread = "019a0000-aaaa-bbbb".to_string();
    let id = state.begin_session_update(Some(thread.clone())).unwrap();
    assert_eq!(id, thread);
    assert_eq!(state.snapshot.session_id.as_deref(), Some(thread.as_str()));
    assert!(state.needs_resume(&thread));
    state.on_thread_resumed(&thread);
    assert!(!state.needs_resume(&thread));
    assert!(state.needs_resume("another"));
    state.on_chat_tree_read(&thread, tree(Some("a"), &["a", "b"]));
    assert!(state.snapshot.helper_connected);
    assert_eq!(state.snapshot.status_message, "Attached to session 019a0000 with 2 nodes.");
    assert_eq!(state.snapshot.chat_tree.as_ref().unwrap().current_node_id.as_deref(), Some("a"));
}

#[test]
fn helper_unavailable_restarts() {
    let mut state = RuntimeState::new();
    state.attached_thread_id = Some("t".to_string());
    state.current_node_override = Some(("t".to_string(), "n".to_string()));
    state.snapshot.chat_tree = Some(tree(None, &[]));
    state.on_helper_unavailable();
    assert!(!state.snapshot.helper_connected);
    assert!(state.snapshot.chat_tree.is_none());
    assert_eq!(state.snapshot.last_error.as_deref(), Some("Helper Codex app-server is not running."));
    assert_eq!(state.snapshot.status_message, "Restarting helper app-server...");
    assert!(state.attached_thread_id.is_none() && state.current_node_override.is_none());
}

#[test]
fn override_is_shown_kept_or_dropped() {
    let mut state = RuntimeState::new();
    state.on_node_switched("t1".to_string(), "b".to_string());
    let mut t = tree(Some("a"), &["a", "b"]);
    state.apply_current_node_override("t1", &mut t);
    assert_eq!(t.current_node_id.as_deref(), Some("b"));
    assert!(state.current_node_override.is_some());

    let mut missing = tree(Some("a"), &["a"]);
    state.apply_current_node_override("t1", &mut missing);
    assert_eq!(missing.current_node_id.as_deref(), Some("a"));
    assert!(state.current_node_override.is_none());

    state.on_node_switched("t1".to_string(), "b".to_string());
    let mut other = tree(Some("a"), &["a", "b"]);
    state.apply_current_node_override("t2", &mut other);
    assert_eq!(other.current_node_id.as_deref(), Some("a"));
    assert!(state.current_node_override.is_none());
}

#[test]
fn node_switch_flow() {
    let mut state = RuntimeState::new();
    assert_eq!(state.begin_node_switch("  ").unwrap_err(), "nodeId is required");
    assert_eq!(state.begin_node_switch("n1").unwrap_err(), "No active session attached");
    state.begin_session_update(Some("thread-0001".to_string()));
    let (thread, node) = state.begin_node_switch(" n1 ").unwrap();
    assert_eq!((thread.as_str(), node.as_str()), ("thread-0001", "n1"));
    assert!(state.snapshot.is_switching);
    assert_eq!(state.snapshot.switching_node_id.as_deref(), Some("n1"));
    assert_eq!(state.snapshot.status_message, "Switching branch and refreshing Codex...");
    state.on_node_switched(thread.clone(), node.clone());
    state.finish_node_switch();
    assert!(!state.snapshot.is_switching);
    assert!(state.snapshot.switching_node_id.is_none());
    assert_eq!(state.snapshot.status_message, "Branch switched. Waiting for Codex Desktop refresh.");
    let result = switched_result(node);
    assert_eq!(result.current_node_id, "n1");
    assert!(result.refresh_triggered);
}

#[test]
fn overlay_target_follows_focus() {
    let mut state = RuntimeState::new();
    let codex = WindowRect::new(0, 0, 800, 600);
    assert_eq!(state.overlay_target(ForegroundKind::Overlay, None), None);
    assert_eq!(state.overlay_target(ForegroundKind::Codex, Some(codex)), Some(codex));
    assert_eq!(state.overlay_target(ForegroundKind::Overlay, None), Some(codex));
    assert_eq!(state.overlay_target(ForegroundKind::Other, Some(codex)), None);
    assert_eq!(state.overlay_target(ForegroundKind::Codex, None), None);
    assert_eq!(state.last_target_rect, Some(codex));
    state.record_window_state(true, ForegroundKind::Codex, Some(codex), Some(codex));
    assert!(state.snapshot.visible && state.snapshot.is_codex_focused);
    assert_eq!(state.snapshot.overlay_rect, Some(codex));
}

#[test]
fn codex_window_rules() {
    assert!(is_codex_window(false, true, false, "codex.EXE", "anything"));
    assert!(!is_codex_window(true, true, false, "Codex.exe", "Codex"));
    assert!(!is_codex_window(false, false, false, "Codex.exe", "Codex"));
    assert!(!is_codex_window(false, true, true, "Codex.exe", "Codex"));
    assert!(!is_codex_window(false, true, false, "Codex-Monitor.exe", "Codex"));
    assert!(is_codex_window(false, true, false, "electron.exe", "Codex"));
    assert!(is_codex_window(false, true, false, "electron.exe", "Codex - chat"));
    assert!(!is_codex_window(false, true, false, "electron.exe", "Codex Monitor"));
    assert!(!is_codex_window(false, true, false, "notepad.exe", "Codexy"));
}

#[test]
fn foreground_classification() {
    let title = "Codex Chat Tree Overlay";
    assert_eq!(classify_foreground(true, true, title, title, true), ForegroundKind::Other);
    assert_eq!(classify_foreground(false, true, "x Codex Chat Tree Overlay", title, false), ForegroundKind::Overlay);
    assert_eq!(classify_foreground(false, false, title, title, true), ForegroundKind::Codex);
    assert_eq!(classify_foreground(false, true, "other", title, false), ForegroundKind::Other);
}

#[test]
fn exe_name_stops_at_nul() {
    assert_eq!(exe_name_len(&[67, 111, 0, 120]), 2);
    assert_eq!(exe_name_len(&[67, 111]), 2);
    assert_eq!(exe_name_len(&[]), 0);
}

#[test]
fn cli_commands_and_flags() {
    assert_eq!(cli_command(&args(&[])), CliCommand::Nothing);
    assert_eq!(cli_command(&args(&["trigger-refresh"])), CliCommand::TriggerRefresh);
    assert_eq!(cli_command(&args(&["window-probe"])), CliCommand::WindowProbe);
    assert_eq!(cli_command(&args(&["chat-tree-dump", "--thread", "t"])), CliCommand::ChatTreeDump);
    assert_eq!(cli_command(&args(&["set-current-node"])), CliCommand::SetCurrentNode);
    assert_eq!(cli_command(&args(&["bogus"])), CliCommand::Unknown("bogus".to_string()));
    assert_eq!(unknown_command_message("bogus"), "Unknown command: bogus");
    let a = args(&["set-current-node", "--thread", "t1", "--node", "n1", "--refresh", "--thread", "t2"]);
    assert_eq!(value_after(&a, "--thread").as_deref(), Some("t1"));
    assert_eq!(value_after(&a, "--node").as_deref(), Some("n1"));
    assert_eq!(value_after(&args(&["x", "--node"]), "--node"), None);
    assert_eq!(value_after(&a, "--missing"), None);
    assert!(has_flag(&a, "--refresh"));
    assert!(!has_flag(&args(&["--refreshed"]), "--refresh"));
    assert_eq!(required_value_after(&args(&["x"]), "--thread").unwrap_err(), "--thread <id> is required");
    assert_eq!(required_value_after(&a, "--node").unwrap(), "n1");
}

#[test]
fn helper_check_orders_resume_before_read() {
    let mut state = RuntimeState::new();
    state.begin_session_update(Some("thread-0001".to_string()));
    assert_eq!(state.on_helper_checked("thread-0001", true), SessionStep::ResumeThread);
    state.on_thread_resumed("thread-0001");
    assert_eq!(state.on_helper_checked("thread-0001", true), SessionStep::ReadChatTree);
    assert_eq!(state.on_helper_checked("thread-0002", true), SessionStep::ResumeThread);
    assert_eq!(state.on_helper_checked("thread-0001", false), SessionStep::ShutDownHelper);
    assert!(state.attached_thread_id.is_none());
    assert_eq!(state.snapshot.status_message, "Restarting helper app-server...");
}

#[test]
fn switch_is_retried_once_on_refreshable_errors() {
    assert_eq!(after_switch_attempt(false, Ok("n1".to_string())), SwitchDecision::Switched("n1".to_string()));
    assert_eq!(after_switch_attempt(false, Err("request timed out".to_string())), SwitchDecision::Retry);
    assert_eq!(
        after_switch_attempt(true, Err("request timed out".to_string())),
        SwitchDecision::Failed("request timed out".to_string())
    );
    assert_eq!(
        after_switch_attempt(false, Err("no such thread".to_string())),
        SwitchDecision::Failed("no such thread".to_string())
    );
}

#[test]
fn cli_plan_checks_thread_before_helper() {
    assert_eq!(plan_cli(&args(&[])), Ok(CliPlan::Nothing));
    assert_eq!(plan_cli(&args(&["trigger-refresh"])), Ok(CliPlan::TriggerRefresh));
    assert_eq!(plan_cli(&args(&["window-probe"])), Ok(CliPlan::WindowProbe));
    assert_eq!(
        plan_cli(&args(&["chat-tree-dump", "--thread", "t1"])),
        Ok(CliPlan::DumpChatTree("t1".to_string()))
    );
    assert_eq!(
        plan_cli(&args(&["set-current-node", "--node", "n", "--thread", "t2"])),
        Ok(CliPlan::SetCurrentNode("t2".to_string()))
    );
    assert_eq!(plan_cli(&args(&["set-current-node", "--node", "n"])), Err("--thread <id> is required".to_string()));
    assert_eq!(plan_cli(&args(&["bogus"])), Err("Unknown command: bogus".to_string()));
}
