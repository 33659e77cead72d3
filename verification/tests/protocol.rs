use codex_chat_tree_overlay::bridge::{
    explicit_codex_bin, explicit_setting, initialize_params, merge_search_paths, message_of_line,
    notification_line, notification_message, parse_chat_tree, parse_set_current_response,
    request_line, request_message, response_error, response_id, response_of_line,
    response_outcome, server_error_message, set_current_node_params, thread_params,
};
use codex_chat_tree_overlay::json::{json_to_text, parse_json, Json};

fn text(s: &str) -> Json {
    Json::Text(s.to_string())
}

fn object(members: Vec<(&str, Json)>) -> Json {
    Json::Object(members.into_iter().map(|(k, v)| (k.to_string(), v)).collect())
}

fn tree_response(tree_key: &str, tree: Json) -> Json {
    object(vec![("id", Json::UInt(3)), ("result", object(vec![(tree_key, tree)]))])
}

#[test]
fn parse_chat_tree_reads_camel_case_nodes() {
    let tree = object(vec![
        ("currentNodeId", text("n2")),
        (
            "nodes",
            Json::Array(vec![
                object(vec![("nodeId", text("n1")), ("summary", text("root")), ("order", Json::UInt(0))]),
                object(vec![
                    ("nodeId", text("n2")),
                    ("parentNodeId", text("n1")),
                    ("turnId", text("t7")),
                    ("order", Json::UInt(4)),
                ]),
            ]),
        ),
    ]);
    let parsed = parse_chat_tree(&tree_response("chatTree", tree)).unwrap();
    assert_eq!(parsed.current_node_id.as_deref(), Some("n2"));
    assert_eq!(parsed.nodes.len(), 2);
    assert_eq!(parsed.nodes[0].node_id, "n1");
    assert_eq!(parsed.nodes[0].summary.as_deref(), Some("root"));
    assert_eq!(parsed.nodes[0].parent_node_id, None);
    assert_eq!(parsed.nodes[1].parent_node_id.as_deref(), Some("n1"));
    assert_eq!(parsed.nodes[1].turn_id.as_deref(), Some("t7"));
    assert_eq!(parsed.nodes[1].order, 4);
}

#[test]
fn parse_chat_tree_reads_snake_case_members() {
    let tree = object(vec![
        ("current_node_id", text("a")),
        (
            "nodes",
            Json::Array(vec![object(vec![
                ("node_id", text("a")),
                ("parent_node_id", text("root")),
                ("turn_id", text("turn")),
            ])]),
        ),
    ]);
    let parsed = parse_chat_tree(&tree_response("chat_tree", tree)).unwrap();
    assert_eq!(parsed.current_node_id.as_deref(), Some("a"));
    assert_eq!(parsed.nodes[0].node_id, "a");
    assert_eq!(parsed.nodes[0].parent_node_id.as_deref(), Some("root"));
    assert_eq!(parsed.nodes[0].turn_id.as_deref(), Some("turn"));
    assert_eq!(parsed.nodes[0].order, 0);
}

#[test]
fn parse_chat_tree_skips_entries_without_node_id() {
    let tree = object(vec![(
        "nodes",
        Json::Array(vec![
            object(vec![("summary", text("no id"))]),
            object(vec![("nodeId", Json::UInt(5))]),
            object(vec![("nodeId", text("kept"))]),
            text("not an object"),
        ]),
    )]);
    let parsed = parse_chat_tree(&tree_response("chatTree", tree)).unwrap();
    assert_eq!(parsed.current_node_id, None);
    assert_eq!(parsed.nodes.len(), 1);
    assert_eq!(parsed.nodes[0].node_id, "kept");
}

#[test]
fn parse_chat_tree_does_not_fall_back_when_primary_member_is_not_text() {
    let tree = object(vec![(
        "nodes",
        Json::Array(vec![object(vec![("nodeId", Json::Null), ("node_id", text("ignored"))])]),
    )]);
    let parsed = parse_chat_tree(&tree_response("chatTree", tree)).unwrap();
    assert!(parsed.nodes.is_empty());
}

#[test]
fn parse_chat_tree_truncates_large_order() {
    let order = (1u64 << 32) + 7;
    let tree = object(vec![(
        "nodes",
        Json::Array(vec![object(vec![("nodeId", text("x")), ("order", Json::UInt(order))])]),
    )]);
    let parsed = parse_chat_tree(&tree_response("chatTree", tree)).unwrap();
    assert_eq!(parsed.nodes[0].order, 7);
    let negative = object(vec![(
        "nodes",
        Json::Array(vec![object(vec![("nodeId", text("x")), ("order", Json::OtherNumber("-1".to_string()))])]),
    )]);
    let parsed = parse_chat_tree(&tree_response("chatTree", negative)).unwrap();
    assert_eq!(parsed.nodes[0].order, 0);
}

#[test]
fn parse_chat_tree_without_nodes_array_is_empty() {
    let tree = object(vec![("nodes", text("oops"))]);
    let parsed = parse_chat_tree(&tree_response("chatTree", tree)).unwrap();
    assert!(parsed.nodes.is_empty());
}

#[test]
fn parse_chat_tree_requires_chat_tree_member() {
    let response = object(vec![("result", object(vec![("other", Json::Null)]))]);
    assert_eq!(parse_chat_tree(&response).unwrap_err(), "missing chatTree result");
    let no_result = object(vec![("error", text("boom"))]);
    assert_eq!(parse_chat_tree(&no_result).unwrap_err(), "missing chatTree result");
}

#[test]
fn set_current_response_reads_current_node() {
    let camel = object(vec![("result", object(vec![("currentNodeId", text("n9"))]))]);
    assert_eq!(parse_set_current_response(&camel).unwrap(), "n9");
    let snake = object(vec![("result", object(vec![("current_node_id", text("n8"))]))]);
    assert_eq!(parse_set_current_response(&snake).unwrap(), "n8");
    let missing = object(vec![("result", object(vec![]))]);
    assert_eq!(
        parse_set_current_response(&missing).unwrap_err(),
        "missing currentNodeId in set-current response"
    );
}

#[test]
fn response_id_reads_unsigned_ids_only() {
    assert_eq!(response_id(&object(vec![("id", Json::UInt(42))])), Some(42));
    assert_eq!(response_id(&object(vec![("id", text("42"))])), None);
    assert_eq!(response_id(&object(vec![("method", text("note"))])), None);
    assert_eq!(response_id(&Json::Null), None);
}

#[test]
fn response_error_finds_error_member() {
    let failed = object(vec![("id", Json::UInt(1)), ("error", object(vec![("code", Json::UInt(2))]))]);
    assert!(matches!(response_error(&failed), Some(Json::Object(_))));
    let fine = object(vec![("id", Json::UInt(1)), ("result", Json::Null)]);
    assert!(response_error(&fine).is_none());
}

#[test]
fn server_error_message_names_method() {
    let error = object(vec![("message", text("thread not loaded: x"))]);
    assert_eq!(
        server_error_message("thread/resume", &error),
        "app-server error for thread/resume: {\"message\":\"thread not loaded: x\"}"
    );
}

#[test]
fn response_outcome_turns_error_member_into_message() {
    let failed = object(vec![
        ("id", Json::UInt(4)),
        ("error", object(vec![("code", Json::OtherNumber("-32600".to_string())), ("message", text("unknown node"))])),
    ]);
    assert_eq!(
        response_outcome("thread/chatTree/current/set", failed).unwrap_err(),
        "app-server error for thread/chatTree/current/set: {\"code\":-32600,\"message\":\"unknown node\"}"
    );
    let fine = object(vec![("id", Json::UInt(4)), ("result", Json::Null)]);
    assert!(matches!(response_outcome("x", fine), Ok(Json::Object(m)) if m.len() == 2));
}

#[test]
fn json_text_round_trips_through_parse() {
    let parsed = parse_json("{\"id\":7,\"result\":{\"ok\":[true,null,-1.5,\"a\\\"b\"]}}").unwrap();
    assert_eq!(json_to_text(&parsed), "{\"id\":7,\"result\":{\"ok\":[true,null,-1.5,\"a\\\"b\"]}}");
    assert!(parse_json("{not json").is_none());
    assert!(matches!(parse_json("18446744073709551615"), Some(Json::UInt(u64::MAX))));
    assert!(matches!(parse_json("-3"), Some(Json::OtherNumber(t)) if t == "-3"));
}

#[test]
fn lines_from_helper_are_matched_to_requests() {
    assert!(message_of_line("   \t").is_none());
    assert!(message_of_line("garbage").is_none());
    let (id, message) = response_of_line("  {\"id\": 12, \"result\": {}}\r").unwrap();
    assert_eq!(id, 12);
    assert!(matches!(message, Json::Object(_)));
    assert!(response_of_line("{\"method\":\"thread/started\"}").is_none());
    assert!(response_of_line("{\"id\":\"12\"}").is_none());
    assert!(response_of_line("").is_none());
}

#[test]
fn request_and_notification_lines() {
    assert_eq!(
        request_line(3, "thread/resume", thread_params("abc")),
        "{\"id\":3,\"method\":\"thread/resume\",\"params\":{\"threadId\":\"abc\"}}\n"
    );
    assert_eq!(notification_line("initialized", None), "{\"method\":\"initialized\"}\n");
    assert_eq!(
        notification_line("note", Some(Json::Bool(false))),
        "{\"method\":\"note\",\"params\":false}\n"
    );
}

#[test]
fn request_and_notification_messages_have_protocol_shape() {
    match request_message(5, "thread/resume", thread_params("abc")) {
        Json::Object(members) => {
            assert_eq!(members.len(), 3);
            assert_eq!(members[0].0, "id");
            assert!(matches!(members[0].1, Json::UInt(5)));
            assert_eq!(members[1].0, "method");
            assert!(matches!(&members[1].1, Json::Text(m) if m == "thread/resume"));
            assert_eq!(members[2].0, "params");
            match &members[2].1 {
                Json::Object(params) => {
                    assert_eq!(params[0].0, "threadId");
                    assert!(matches!(&params[0].1, Json::Text(t) if t == "abc"));
                }
                other => panic!("unexpected params {other:?}"),
            }
        }
        other => panic!("unexpected request {other:?}"),
    }
    match notification_message("initialized", None) {
        Json::Object(members) => {
            assert_eq!(members.len(), 1);
            assert_eq!(members[0].0, "method");
        }
        other => panic!("unexpected notification {other:?}"),
    }
    match notification_message("note", Some(Json::Bool(true))) {
        Json::Object(members) => {
            assert_eq!(members.len(), 2);
            assert_eq!(members[1].0, "params");
        }
        other => panic!("unexpected notification {other:?}"),
    }
}

#[test]
fn set_current_and_initialize_params() {
    match set_current_node_params("t", "n") {
        Json::Object(members) => {
            assert_eq!(members[0].0, "threadId");
            assert_eq!(members[1].0, "nodeId");
            assert!(matches!(&members[1].1, Json::Text(n) if n == "n"));
        }
        other => panic!("unexpected params {other:?}"),
    }
    match initialize_params("0.1.0") {
        Json::Object(members) => {
            assert_eq!(members[0].0, "clientInfo");
            match &members[0].1 {
                Json::Object(info) => {
                    assert!(matches!(&info[0].1, Json::Text(n) if n == "codex_chat_tree_overlay"));
                    assert!(matches!(&info[1].1, Json::Text(n) if n == "Codex Chat Tree Overlay"));
                    assert!(matches!(&info[2].1, Json::Text(n) if n == "0.1.0"));
                }
                other => panic!("unexpected client info {other:?}"),
            }
            assert_eq!(members[1].0, "capabilities");
            match &members[1].1 {
                Json::Object(caps) => {
                    assert_eq!(caps[0].0, "experimentalApi");
                    assert!(matches!(caps[0].1, Json::Bool(true)));
                }
                other => panic!("unexpected capabilities {other:?}"),
            }
        }
        other => panic!("unexpected params {other:?}"),
    }
}

#[test]
fn explicit_settings_are_trimmed_and_blank_is_unset() {
    assert_eq!(explicit_setting(Some("  C:\\codex\\home \n")).as_deref(), Some("C:\\codex\\home"));
    assert_eq!(explicit_setting(Some(" \t ")), None);
    assert_eq!(explicit_setting(None), None);
}

#[test]
fn codex_bin_resolution_order() {
    assert_eq!(explicit_codex_bin(Some(" a.exe "), Some("b.exe"), Some("c.exe")).as_deref(), Some("a.exe"));
    assert_eq!(explicit_codex_bin(Some("  "), Some("b.exe"), Some("c.exe")).as_deref(), Some("b.exe"));
    assert_eq!(explicit_codex_bin(None, None, Some("c.exe")).as_deref(), Some("c.exe"));
    assert_eq!(explicit_codex_bin(None, Some(""), None), None);
}

#[test]
fn merge_search_paths_appends_missing_extras_once() {
    let paths = vec!["/usr/bin".to_string(), "/home/u/.cargo/bin".to_string()];
    let extras = vec![
        "/home/u/.cargo/bin".to_string(),
        "/opt/npm".to_string(),
        "/opt/npm".to_string(),
        "/home/u/.cargo/bin/".to_string(),
    ];
    let merged = merge_search_paths(paths, extras);
    assert_eq!(merged, vec!["/usr/bin", "/home/u/.cargo/bin", "/opt/npm"]);
    let again = merge_search_paths(merged.clone(), vec!["/opt/npm".to_string(), "/usr/bin".to_string()]);
    assert_eq!(again, merged);
}
