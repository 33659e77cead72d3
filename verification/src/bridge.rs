use vstd::prelude::*;

use crate::json::{
    array_of, entries_view, entries_view_members, json_text, json_to_text, json_view, member, member_either,
    member_matches_view, opt_view, parse_json, parsed_json, text_of, uint_of, view_member,
    view_uint, Json, JsonView,
};
use crate::model::{opt_text, ChatTreeNodeView, ChatTreeView, ThreadChatTree, ThreadChatTreeNode};
use crate::text::{trim, trimmed};

verus! {

/// The node that a chat-tree entry describes, or none when the entry has no
/// string node id (`nodeId`, or `node_id` when `nodeId` is absent).
pub open spec fn node_from_entry(entry: Json) -> Option<ChatTreeNodeView> {
    let e = Some(entry);
    match text_of(member_either(e, "nodeId"@, "node_id"@)) {
        None => None,
        Some(id) => Some(
            ChatTreeNodeView {
                node_id: id,
                parent_node_id: text_of(member_either(e, "parentNodeId"@, "parent_node_id"@)),
                summary: text_of(member(e, "summary"@)),
                turn_id: text_of(member_either(e, "turnId"@, "turn_id"@)),
                order: match uint_of(member(e, "order"@)) {
                    Some(n) => n as u32,
                    None => 0,
                },
            },
        ),
    }
}

/// The nodes described by `entries`, in order, skipping entries without a
/// node id.
pub open spec fn nodes_from_entries(entries: Seq<Json>) -> Seq<ChatTreeNodeView>
    decreases entries.len(),
{
    if entries.len() == 0 {
        Seq::empty()
    } else {
        let rest = nodes_from_entries(entries.drop_last());
        match node_from_entry(entries.last()) {
            Some(n) => rest.push(n),
            None => rest,
        }
    }
}

/// The chat tree that a `chatTree` object describes.
pub open spec fn chat_tree_from(tree: Json) -> ChatTreeView {
    ChatTreeView {
        current_node_id: text_of(member_either(Some(tree), "currentNodeId"@, "current_node_id"@)),
        nodes: match array_of(member(Some(tree), "nodes"@)) {
            Some(items) => nodes_from_entries(items),
            None => Seq::empty(),
        },
    }
}

/// The `chatTree` (or `chat_tree`) member of a response's `result`.
pub open spec fn chat_tree_member(response: Json) -> Option<Json> {
    member_either(member(Some(response), "result"@), "chatTree"@, "chat_tree"@)
}

fn optional_text(v: Option<&Json>) -> (r: Option<String>)
    ensures
        opt_text(r) == text_of(
            match v {
                Some(j) => Some(*j),
                None => None,
            },
        ),
{
    match v {
        Some(j) => match j.as_text() {
            Some(s) => Some(s.clone()),
            None => None,
        },
        None => None,
    }
}

/// The node described by one entry of a chat tree's `nodes` array.
fn node_from_json(entry: &Json) -> (r: Option<ThreadChatTreeNode>)
    ensures
        match r {
            Some(n) => node_from_entry(*entry) == Some(n@),
            None => node_from_entry(*entry) is None,
        },
{
    let node_id = match optional_text(entry.get_either("nodeId", "node_id")) {
        Some(id) => id,
        None => return None,
    };
    let order: u32 = match entry.get("order") {
        Some(v) => match v.as_u64() {
            Some(n) => n as u32,
            None => 0,
        },
        None => 0,
    };
    Some(
        ThreadChatTreeNode {
            node_id,
            parent_node_id: optional_text(entry.get_either("parentNodeId", "parent_node_id")),
            summary: optional_text(entry.get("summary")),
            turn_id: optional_text(entry.get_either("turnId", "turn_id")),
            order,
        },
    )
}

/// Reads a `thread/chatTree/read` response: the tree under
/// `result.chatTree` (or `result.chat_tree`), its current node id and its
/// nodes, where entries without a node id are left out.
pub fn parse_chat_tree(response: &Json) -> (r: Result<ThreadChatTree, String>)
    ensures
        match r {
            Ok(t) => chat_tree_member(*response) is Some && t@ == chat_tree_from(
                chat_tree_member(*response)->0,
            ),
            Err(e) => chat_tree_member(*response) is None && e@ == "missing chatTree result"@,
        },
{
    let tree = match response.get("result") {
        Some(result) => result.get_either("chatTree", "chat_tree"),
        None => None,
    };
    let tree = match tree {
        Some(t) => t,
        None => return Err(String::from_str("missing chatTree result")),
    };
    let current_node_id = optional_text(tree.get_either("currentNodeId", "current_node_id"));
    let mut nodes: Vec<ThreadChatTreeNode> = Vec::new();
    match tree.get("nodes") {
        Some(v) => match v.as_array() {
            Some(items) => {
                let n = items.len();
                let mut i: usize = 0;
                while i < n
                    invariant
                        n == items@.len(),
                        i <= n,
                        nodes@.map_values(|x: ThreadChatTreeNode| x@) == nodes_from_entries(
                            items@.take(i as int),
                        ),
                    decreases n - i,
                {
                    let ghost before = nodes@;
                    assert(items@.take(i + 1).drop_last() =~= items@.take(i as int));
                    match node_from_json(&items[i]) {
                        Some(node) => {
                            nodes.push(node);
                            assert(nodes@.map_values(|x: ThreadChatTreeNode| x@) =~= before.map_values(
                                |x: ThreadChatTreeNode| x@,
                            ).push(node@));
                        },
                        None => {},
                    }
                    i = i + 1;
                }
                assert(items@.take(n as int) =~= items@);
            },
            None => {},
        },
        None => {},
    }
    let out = ThreadChatTree { current_node_id, nodes };
    assert(out@.nodes =~= chat_tree_from(*tree).nodes);
    Ok(out)
}

proof fn merge_adds_nothing_listed(base: Seq<Seq<char>>, extras: Seq<Seq<char>>)
    requires
        forall|k: int| 0 <= k < extras.len() ==> has_same_path(base, #[trigger] extras[k]),
    ensures
        merged_paths(base, extras) == base,
    decreases extras.len(),
{
    if extras.len() > 0 {
        assert forall|k: int| 0 <= k < extras.drop_last().len() implies has_same_path(
            base,
            #[trigger] extras.drop_last()[k],
        ) by {
            assert(extras.drop_last()[k] == extras[k]);
        }
        merge_adds_nothing_listed(base, extras.drop_last());
        assert(has_same_path(base, extras[extras.len() - 1]));
    }
}

/// Extending a search path is idempotent: merging the same extra directories
/// into an already merged path adds nothing, provided `Path::eq` takes every
/// path text for the same path as itself.
pub proof fn merge_is_idempotent(paths: Seq<Seq<char>>, extras: Seq<Seq<char>>)
    requires
        forall|p: Seq<char>| #[trigger] same_path(p, p),
    ensures
        merged_paths(merged_paths(paths, extras), extras) == merged_paths(paths, extras),
{
    let m = merged_paths(paths, extras);
    assert forall|k: int| 0 <= k < extras.len() implies has_same_path(m, #[trigger] extras[k]) by {
        merge_lists_every_extra(paths, extras, k);
        if m.contains(extras[k]) {
            let j = choose|j: int| 0 <= j < m.len() && m[j] == extras[k];
            assert(same_path(m[j], m[j]));
        }
    }
    merge_adds_nothing_listed(m, extras);
}

/// Each node of a chat tree takes every field from its own entry: an entry
/// gives a node exactly when its `nodeId` (or, absent that, `node_id`) is a
/// string; the node's id is that string, its summary is the entry's
/// `summary` string, its parent and turn are the entry's string members, and
/// its order is the entry's `order` truncated to 32 bits, or 0 — whatever
/// other members the entry has.
pub proof fn chat_tree_node_takes_entry_fields(entry: Json)
    ensures
        node_from_entry(entry) is Some <==> text_of(
            member_either(Some(entry), "nodeId"@, "node_id"@),
        ) is Some,
        node_from_entry(entry) matches Some(n) ==> {
            &&& Some(n.node_id) == text_of(member_either(Some(entry), "nodeId"@, "node_id"@))
            &&& n.summary == text_of(member(Some(entry), "summary"@))
            &&& n.parent_node_id == text_of(
                member_either(Some(entry), "parentNodeId"@, "parent_node_id"@),
            )
            &&& n.turn_id == text_of(member_either(Some(entry), "turnId"@, "turn_id"@))
            &&& n.order == match uint_of(member(Some(entry), "order"@)) {
                Some(k) => k as u32,
                None => 0u32,
            }
        },
{
}

/// Every node of a chat tree comes from one of the tree's entries, with the
/// id and the summary that entry holds; and every entry with a string node id
/// gives a node.
pub proof fn chat_tree_nodes_keep_entry_summaries(entries: Seq<Json>)
    ensures
        forall|k: int|
            0 <= k < nodes_from_entries(entries).len() ==> exists|i: int|
                0 <= i < entries.len() && Some(#[trigger] nodes_from_entries(entries)[k].node_id)
                    == text_of(member_either(Some(entries[i]), "nodeId"@, "node_id"@))
                    && nodes_from_entries(entries)[k].summary == text_of(
                    member(Some(entries[i]), "summary"@),
                ),
        nodes_from_entries(entries).len() <= entries.len(),
    decreases entries.len(),
{
    if entries.len() > 0 {
        let front = entries.drop_last();
        chat_tree_nodes_keep_entry_summaries(front);
        chat_tree_node_takes_entry_fields(entries.last());
        let rest = nodes_from_entries(front);
        let all = nodes_from_entries(entries);
        assert forall|k: int| 0 <= k < all.len() implies exists|i: int|
            0 <= i < entries.len() && Some(#[trigger] all[k].node_id) == text_of(
                member_either(Some(entries[i]), "nodeId"@, "node_id"@),
            ) && all[k].summary == text_of(member(Some(entries[i]), "summary"@)) by {
            if k < rest.len() {
                assert(all[k] == rest[k]);
                let i = choose|i: int|
                    0 <= i < front.len() && Some(#[trigger] rest[k].node_id) == text_of(
                        member_either(Some(front[i]), "nodeId"@, "node_id"@),
                    ) && rest[k].summary == text_of(member(Some(front[i]), "summary"@));
                assert(front[i] == entries[i]);
            } else {
                let i = entries.len() - 1;
                assert(entries[i] == entries.last());
            }
        }
    }
}

/// A chat tree never has more nodes than its `nodes` array has entries, and
/// an entry with a string node id always gives a node.
pub proof fn chat_tree_nodes_come_from_entries(entries: Seq<Json>)
    ensures
        nodes_from_entries(entries).len() <= entries.len(),
        entries.len() > 0 && node_from_entry(entries.last()) is Some ==> nodes_from_entries(
            entries,
        ).last() == node_from_entry(entries.last())->0,
    decreases entries.len(),
{
    if entries.len() > 0 {
        chat_tree_nodes_come_from_entries(entries.drop_last());
    }
}

/// The `currentNodeId` (or `current_node_id`) member of a response's `result`.
pub open spec fn current_node_member(response: Json) -> Option<Json> {
    member_either(member(Some(response), "result"@), "currentNodeId"@, "current_node_id"@)
}

/// Reads a `thread/chatTree/current/set` response: the id of the node that
/// is now current.
pub fn parse_set_current_response(response: &Json) -> (r: Result<String, String>)
    ensures
        match r {
            Ok(id) => text_of(current_node_member(*response)) == Some(id@),
            Err(e) => text_of(current_node_member(*response)) is None
                && e@ == "missing currentNodeId in set-current response"@,
        },
{
    let current = match response.get("result") {
        Some(result) => result.get_either("currentNodeId", "current_node_id"),
        None => None,
    };
    match optional_text(current) {
        Some(id) => Ok(id),
        None => Err(String::from_str("missing currentNodeId in set-current response")),
    }
}

/// The request id that a message from the helper answers, when its `id` is a
/// non-negative integer.
pub fn response_id(message: &Json) -> (r: Option<u64>)
    ensures
        r == uint_of(member(Some(*message), "id"@)),
{
    match message.get("id") {
        Some(v) => v.as_u64(),
        None => None,
    }
}

/// The `error` member of a response, when the helper reported a failure.
pub fn response_error(response: &Json) -> (r: Option<&Json>)
    ensures
        match r {
            Some(e) => member(Some(*response), "error"@) == Some(*e),
            None => member(Some(*response), "error"@) is None,
        },
{
    response.get("error")
}

/// The message of a request that the helper answered with an error: the
/// method and the error member written as JSON text.
pub open spec fn server_error_text(method: Seq<char>, error: JsonView) -> Seq<char> {
    "app-server error for "@ + method + ": "@ + json_text(error)
}

/// The message of a request that the helper answered with `error`.
pub fn server_error_message(method: &str, error: &Json) -> (r: String)
    ensures
        r@ == server_error_text(method@, json_view(*error)),
{
    let text = json_to_text(error);
    let mut m = String::from_str("app-server error for ");
    m.append(method);
    m.append(": ");
    m.append(text.as_str());
    m
}

/// Checks the helper's response to a `method` request: a response with an
/// `error` member becomes that error's message, any other is handed back.
pub fn response_outcome(method: &str, response: Json) -> (r: Result<Json, String>)
    ensures
        match member(Some(response), "error"@) {
            Some(e) => r matches Err(m) && m@ == server_error_text(method@, json_view(e)),
            None => r == Ok::<Json, String>(response),
        },
{
    let message = match response_error(&response) {
        Some(e) => Some(server_error_message(method, e)),
        None => None,
    };
    match message {
        Some(m) => Err(m),
        None => Ok(response),
    }
}

/// The message carried by one line of the helper's output: none for a blank
/// line, else what serde_json parses from the line without its surrounding
/// white space.
pub open spec fn line_message(line: Seq<char>) -> Option<JsonView> {
    if trimmed(line).len() == 0 {
        None
    } else {
        parsed_json(trimmed(line))
    }
}

/// The request id that a line of the helper's output answers: the `id`
/// member of its message, when that is a non-negative integer.
pub open spec fn line_response_id(line: Seq<char>) -> Option<u64> {
    match line_message(line) {
        Some(m) => view_uint(view_member(Some(m), "id"@)),
        None => None,
    }
}

/// Reads one line of the helper's output: the message it carries, if any.
pub fn message_of_line(line: &str) -> (r: Option<Json>)
    ensures
        opt_view(r) == line_message(line@),
{
    let t = trim(line);
    if t.as_str().unicode_len() == 0 {
        return None;
    }
    parse_json(t.as_str())
}

/// Reads one line of the helper's output as a response: the request id it
/// answers and the message, or none when the line carries no message with
/// an unsigned `id`.
pub fn response_of_line(line: &str) -> (r: Option<(u64, Json)>)
    ensures
        match r {
            Some((id, m)) => line_response_id(line@) == Some(id) && line_message(line@) == Some(
                json_view(m),
            ),
            None => line_response_id(line@) is None,
        },
{
    match message_of_line(line) {
        Some(m) => {
            proof {
                member_matches_view(m, "id"@);
            }
            match response_id(&m) {
                Some(id) => Some((id, m)),
                None => None,
            }
        },
        None => None,
    }
}

/// The request `{"id": id, "method": method, "params": params}`, as a view.
pub open spec fn request_view(id: u64, method: Seq<char>, params: JsonView) -> JsonView {
    JsonView::Object(
        seq![("id"@, JsonView::UInt(id)), ("method"@, JsonView::Text(method)), ("params"@, params)],
    )
}

/// The notification `{"method": method}` with `params` when given, as a view.
pub open spec fn notification_view(method: Seq<char>, params: Option<JsonView>) -> JsonView {
    match params {
        Some(p) => JsonView::Object(seq![("method"@, JsonView::Text(method)), ("params"@, p)]),
        None => JsonView::Object(seq![("method"@, JsonView::Text(method))]),
    }
}

/// A message as one line for the helper's input: its JSON text and a newline.
pub fn message_line(message: &Json) -> (r: String)
    ensures
        r@ == json_text(json_view(*message)) + "\n"@,
{
    let mut line = json_to_text(message);
    line.append("\n");
    line
}

/// The line that sends request `id` of `method` with `params`.
pub fn request_line(id: u64, method: &str, params: Json) -> (r: String)
    ensures
        r@ == json_text(request_view(id, method@, json_view(params))) + "\n"@,
{
    let m = request_message(id, method, params);
    message_line(&m)
}

/// The line that sends notification `method`, with `params` when given.
pub fn notification_line(method: &str, params: Option<Json>) -> (r: String)
    ensures
        r@ == json_text(notification_view(method@, opt_view(params))) + "\n"@,
{
    let m = notification_message(method, params);
    message_line(&m)
}

/// `j` is the JSON string `s`.
pub open spec fn text_is(j: Json, s: Seq<char>) -> bool {
    j matches Json::Text(t) && t@ == s
}

/// A JSON string holding a copy of `s`.
fn text_value(s: &str) -> (r: Json)
    ensures
        text_is(r, s@),
{
    Json::Text(String::from_str(s))
}

/// The request `{"id": id, "method": method, "params": params}`.
pub fn request_message(id: u64, method: &str, params: Json) -> (r: Json)
    ensures
        r matches Json::Object(e) && e@.len() == 3
            && e@[0].0@ == "id"@ && e@[0].1 == Json::UInt(id)
            && e@[1].0@ == "method"@ && text_is(e@[1].1, method@)
            && e@[2].0@ == "params"@ && e@[2].1 == params,
        json_view(r) == request_view(id, method@, json_view(params)),
{
    let ghost pv = json_view(params);
    let mut e: Vec<(String, Json)> = Vec::new();
    e.push((String::from_str("id"), Json::UInt(id)));
    e.push((String::from_str("method"), text_value(method)));
    e.push((String::from_str("params"), params));
    proof {
        entries_view_members(e@);
        assert(entries_view(e@) =~= seq![
            ("id"@, JsonView::UInt(id)),
            ("method"@, JsonView::Text(method@)),
            ("params"@, pv),
        ]);
    }
    Json::Object(e)
}

/// The notification `{"method": method, "params": params}`, or
/// `{"method": method}` when there are no parameters.
pub fn notification_message(method: &str, params: Option<Json>) -> (r: Json)
    ensures
        r matches Json::Object(e) && e@.len() >= 1
            && e@[0].0@ == "method"@ && text_is(e@[0].1, method@)
            && match params {
                Some(p) => e@.len() == 2 && e@[1].0@ == "params"@ && e@[1].1 == p,
                None => e@.len() == 1,
            },
        json_view(r) == notification_view(method@, opt_view(params)),
{
    let ghost pv = opt_view(params);
    let mut e: Vec<(String, Json)> = Vec::new();
    e.push((String::from_str("method"), text_value(method)));
    match params {
        Some(p) => e.push((String::from_str("params"), p)),
        None => {},
    }
    proof {
        entries_view_members(e@);
        match pv {
            Some(p) => {
                assert(entries_view(e@) =~= seq![
                    ("method"@, JsonView::Text(method@)),
                    ("params"@, p),
                ]);
            },
            None => {
                assert(entries_view(e@) =~= seq![("method"@, JsonView::Text(method@))]);
            },
        }
    }
    Json::Object(e)
}

/// The parameters `{"threadId": thread_id}` of `thread/resume` and
/// `thread/chatTree/read`.
pub fn thread_params(thread_id: &str) -> (r: Json)
    ensures
        r matches Json::Object(e) && e@.len() == 1
            && e@[0].0@ == "threadId"@ && text_is(e@[0].1, thread_id@),
{
    let mut e: Vec<(String, Json)> = Vec::new();
    e.push((String::from_str("threadId"), text_value(thread_id)));
    Json::Object(e)
}

/// The parameters `{"threadId": thread_id, "nodeId": node_id}` of
/// `thread/chatTree/current/set`.
pub fn set_current_node_params(thread_id: &str, node_id: &str) -> (r: Json)
    ensures
        r matches Json::Object(e) && e@.len() == 2
            && e@[0].0@ == "threadId"@ && text_is(e@[0].1, thread_id@)
            && e@[1].0@ == "nodeId"@ && text_is(e@[1].1, node_id@),
{
    let mut e: Vec<(String, Json)> = Vec::new();
    e.push((String::from_str("threadId"), text_value(thread_id)));
    e.push((String::from_str("nodeId"), text_value(node_id)));
    Json::Object(e)
}

/// The parameters of `initialize`: the client's name, title and `version`,
/// and the request for the experimental API.
pub fn initialize_params(version: &str) -> (r: Json)
    ensures
        r matches Json::Object(e) && e@.len() == 2
            && e@[0].0@ == "clientInfo"@
            && (e@[0].1 matches Json::Object(info) && info@.len() == 3
                && info@[0].0@ == "name"@ && text_is(info@[0].1, "codex_chat_tree_overlay"@)
                && info@[1].0@ == "title"@ && text_is(info@[1].1, "Codex Chat Tree Overlay"@)
                && info@[2].0@ == "version"@ && text_is(info@[2].1, version@))
            && e@[1].0@ == "capabilities"@
            && (e@[1].1 matches Json::Object(caps) && caps@.len() == 1
                && caps@[0].0@ == "experimentalApi"@ && caps@[0].1 == Json::Bool(true)),
{
    let mut info: Vec<(String, Json)> = Vec::new();
    info.push((String::from_str("name"), text_value("codex_chat_tree_overlay")));
    info.push((String::from_str("title"), text_value("Codex Chat Tree Overlay")));
    info.push((String::from_str("version"), text_value(version)));
    let mut caps: Vec<(String, Json)> = Vec::new();
    caps.push((String::from_str("experimentalApi"), Json::Bool(true)));
    let mut e: Vec<(String, Json)> = Vec::new();
    e.push((String::from_str("clientInfo"), Json::Object(info)));
    e.push((String::from_str("capabilities"), Json::Object(caps)));
    Json::Object(e)
}

/// The value of an explicit setting: its text without surrounding white
/// space, unless that is empty.
pub open spec fn explicit_value(value: Option<Seq<char>>) -> Option<Seq<char>> {
    match value {
        Some(v) => if trimmed(v).len() > 0 {
            Some(trimmed(v))
        } else {
            None
        },
        None => None,
    }
}

/// The text of an optional string slice.
pub open spec fn opt_str(o: Option<&str>) -> Option<Seq<char>> {
    match o {
        Some(v) => Some(v@),
        None => None,
    }
}

/// Reads an explicit setting such as `CODEX_HOME` or `CODEX_CLI_PATH`: the
/// trimmed value, or none when it is unset or blank.
pub fn explicit_setting(value: Option<&str>) -> (r: Option<String>)
    ensures
        opt_text(r) == explicit_value(opt_str(value)),
{
    match value {
        Some(v) => {
            let t = trim(v);
            if t.as_str().unicode_len() > 0 {
                Some(t)
            } else {
                None
            }
        },
        None => None,
    }
}

/// The Codex binary named explicitly by `CODEX_CLI_PATH`, else by
/// `CODEX_CHAT_TREE_BIN`, else by `CODEX_BIN`, skipping unset and blank ones.
pub fn explicit_codex_bin(cli_path: Option<&str>, chat_tree_bin: Option<&str>, codex_bin: Option<
    &str,
>) -> (r: Option<String>)
    ensures
        opt_text(r) == match explicit_value(opt_str(cli_path)) {
            Some(p) => Some(p),
            None => match explicit_value(opt_str(chat_tree_bin)) {
                Some(p) => Some(p),
                None => explicit_value(opt_str(codex_bin)),
            },
        },
{
    match explicit_setting(cli_path) {
        Some(p) => Some(p),
        None => match explicit_setting(chat_tree_bin) {
            Some(p) => Some(p),
            None => explicit_setting(codex_bin),
        },
    }
}

/// What `Path::eq` answers for the two paths, given as text.
pub uninterp spec fn same_path(a: Seq<char>, b: Seq<char>) -> bool;

/// Compares two paths with `std::path::Path`'s equality, which goes by their
/// components. The contract names the answer and states that identical texts
/// are the same path; which other texts std takes for one path (separators,
/// `.` components, trailing separators, platform prefixes) is left unsaid.
#[verifier::external_body]
fn paths_equal(a: &str, b: &str) -> (r: bool)
    ensures
        r == same_path(a@, b@),
        a@ == b@ ==> r,
{
    std::path::Path::new(a) == std::path::Path::new(b)
}

/// Some entry of `paths` is the same path as `p`.
pub open spec fn has_same_path(paths: Seq<Seq<char>>, p: Seq<char>) -> bool {
    exists|i: int| 0 <= i < paths.len() && same_path(#[trigger] paths[i], p)
}

/// `paths` followed by each of `extras` that is not yet listed, in order.
pub open spec fn merged_paths(paths: Seq<Seq<char>>, extras: Seq<Seq<char>>) -> Seq<Seq<char>>
    decreases extras.len(),
{
    if extras.len() == 0 {
        paths
    } else {
        let before = merged_paths(paths, extras.drop_last());
        if has_same_path(before, extras.last()) {
            before
        } else {
            before.push(extras.last())
        }
    }
}

/// The texts of a list of strings.
pub open spec fn texts(v: Seq<String>) -> Seq<Seq<char>> {
    v.map_values(|s: String| s@)
}

fn path_listed(paths: &Vec<String>, p: &str) -> (r: bool)
    ensures
        r == has_same_path(texts(paths@), p@),
        !r ==> forall|i: int| 0 <= i < paths@.len() ==> (#[trigger] paths@[i])@ != p@,
{
    let n = paths.len();
    let mut i: usize = 0;
    while i < n
        invariant
            n == paths@.len(),
            i <= n,
            forall|j: int| 0 <= j < i ==> !same_path(#[trigger] texts(paths@)[j], p@),
            forall|j: int| 0 <= j < i ==> (#[trigger] paths@[j])@ != p@,
        decreases n - i,
    {
        if paths_equal(paths[i].as_str(), p) {
            assert(same_path(texts(paths@)[i as int], p@));
            return true;
        }
        assert(texts(paths@)[i as int] == paths@[i as int]@);
        i = i + 1;
    }
    false
}

/// The search path handed to the helper: the entries of `PATH` followed by
/// each extra directory that `PATH` does not list yet.
pub fn merge_search_paths(paths: Vec<String>, extras: Vec<String>) -> (r: Vec<String>)
    ensures
        texts(r@) == merged_paths(texts(paths@), texts(extras@)),
        forall|i: int, j: int|
            0 <= i < j < r@.len() && j >= paths@.len() ==> (#[trigger] r@[i])@ != (#[trigger] r@[j])@,
{
    let mut out = paths;
    let n = extras.len();
    let mut i: usize = 0;
    while i < n
        invariant
            n == extras@.len(),
            i <= n,
            texts(out@) == merged_paths(texts(paths@), texts(extras@).take(i as int)),
            out@.len() >= paths@.len(),
            forall|a: int, b: int|
                0 <= a < b < out@.len() && b >= paths@.len() ==> (#[trigger] out@[a])@ != (
                #[trigger] out@[b])@,
        decreases n - i,
    {
        let ghost before = out@;
        assert(texts(extras@).take(i + 1).drop_last() =~= texts(extras@).take(i as int));
        assert(texts(extras@).take(i + 1).last() == extras@[i as int]@);
        if !path_listed(&out, extras[i].as_str()) {
            out.push(extras[i].clone());
            assert(texts(out@) =~= texts(before).push(extras@[i as int]@));
            assert forall|a: int, b: int|
                0 <= a < b < out@.len() && b >= paths@.len() implies (#[trigger] out@[a])@ != (
                #[trigger] out@[b])@ by {
                if b == out@.len() - 1 {
                    assert(out@[a] == before[a]);
                } else {
                    assert(out@[a] == before[a]);
                    assert(out@[b] == before[b]);
                }
            }
        }
        i = i + 1;
    }
    assert(texts(extras@).take(n as int) =~= texts(extras@));
    out
}

/// Merging keeps every entry of `PATH`, in its place.
pub proof fn merge_keeps_path_entries(paths: Seq<Seq<char>>, extras: Seq<Seq<char>>)
    ensures
        merged_paths(paths, extras).len() >= paths.len(),
        merged_paths(paths, extras).take(paths.len() as int) == paths,
    decreases extras.len(),
{
    if extras.len() > 0 {
        merge_keeps_path_entries(paths, extras.drop_last());
        let before = merged_paths(paths, extras.drop_last());
        assert(before.push(extras.last()).take(paths.len() as int) =~= before.take(
            paths.len() as int,
        ));
    } else {
        assert(paths.take(paths.len() as int) =~= paths);
    }
}

/// After merging, every extra directory is listed, itself or as an entry
/// that is the same path.
pub proof fn merge_lists_every_extra(paths: Seq<Seq<char>>, extras: Seq<Seq<char>>, k: int)
    requires
        0 <= k < extras.len(),
    ensures
        merged_paths(paths, extras).contains(extras[k]) || has_same_path(
            merged_paths(paths, extras),
            extras[k],
        ),
    decreases extras.len(),
{
    let before = merged_paths(paths, extras.drop_last());
    if k < extras.len() - 1 {
        merge_lists_every_extra(paths, extras.drop_last(), k);
        assert(extras.drop_last()[k] == extras[k]);
        if before.contains(extras[k]) {
            let j = choose|j: int| 0 <= j < before.len() && before[j] == extras[k];
            if !has_same_path(before, extras.last()) {
                assert(before.push(extras.last())[j] == extras[k]);
            }
        } else {
            let j = choose|j: int| 0 <= j < before.len() && same_path(before[j], extras[k]);
            if !has_same_path(before, extras.last()) {
                assert(before.push(extras.last())[j] == before[j]);
            }
        }
    } else {
        if !has_same_path(before, extras.last()) {
            assert(before.push(extras.last())[before.len() as int] == extras[k]);
        }
    }
}

} // verus!
