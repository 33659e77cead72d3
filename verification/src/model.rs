use vstd::prelude::*;

verus! {

/// A screen rectangle in physical pixels, with its width and height cached.
#[derive(Debug, Clone, Copy, PartialEq, Eq, Structural)]
pub struct WindowRect {
    pub left: i32,
    pub top: i32,
    pub right: i32,
    pub bottom: i32,
    pub width: i32,
    pub height: i32,
}

impl WindowRect {
    /// The rectangle's cached size agrees with its edges.
    pub open spec fn is_consistent(self) -> bool {
        &&& self.width == self.right - self.left
        &&& self.height == self.bottom - self.top
    }

    /// Builds a rectangle from its four edges; width and height are the
    /// differences of the edges, which must fit in an `i32`.
    pub fn new(left: i32, top: i32, right: i32, bottom: i32) -> (r: Self)
        requires
            i32::MIN <= right - left <= i32::MAX,
            i32::MIN <= bottom - top <= i32::MAX,
        ensures
            r.left == left,
            r.top == top,
            r.right == right,
            r.bottom == bottom,
            r.width == right - left,
            r.height == bottom - top,
            r.is_consistent(),
    {
        WindowRect { left, top, right, bottom, width: right - left, height: bottom - top }
    }
}

/// The text of an optional string.
pub open spec fn opt_text(o: Option<String>) -> Option<Seq<char>> {
    match o {
        Some(s) => Some(s@),
        None => None,
    }
}

/// One node of a session's chat tree.
#[derive(Debug, Clone, Default, PartialEq, Eq)]
pub struct ThreadChatTreeNode {
    pub node_id: String,
    pub parent_node_id: Option<String>,
    pub summary: Option<String>,
    pub turn_id: Option<String>,
    pub order: u32,
}

/// What a chat-tree node says, with its strings taken as character sequences.
pub struct ChatTreeNodeView {
    pub node_id: Seq<char>,
    pub parent_node_id: Option<Seq<char>>,
    pub summary: Option<Seq<char>>,
    pub turn_id: Option<Seq<char>>,
    pub order: u32,
}

impl View for ThreadChatTreeNode {
    type V = ChatTreeNodeView;

    open spec fn view(&self) -> ChatTreeNodeView {
        ChatTreeNodeView {
            node_id: self.node_id@,
            parent_node_id: opt_text(self.parent_node_id),
            summary: opt_text(self.summary),
            turn_id: opt_text(self.turn_id),
            order: self.order,
        }
    }
}

/// A session's chat tree: its nodes and the node that is current.
#[derive(Debug, Clone, Default, PartialEq, Eq)]
pub struct ThreadChatTree {
    pub current_node_id: Option<String>,
    pub nodes: Vec<ThreadChatTreeNode>,
}

/// What a chat tree says, with its strings taken as character sequences.
pub struct ChatTreeView {
    pub current_node_id: Option<Seq<char>>,
    pub nodes: Seq<ChatTreeNodeView>,
}

impl View for ThreadChatTree {
    type V = ChatTreeView;

    open spec fn view(&self) -> ChatTreeView {
        ChatTreeView {
            current_node_id: opt_text(self.current_node_id),
            nodes: self.nodes@.map_values(|n: ThreadChatTreeNode| n@),
        }
    }
}

/// Whether some node of `nodes` has the id `id`.
pub open spec fn has_node(nodes: Seq<ChatTreeNodeView>, id: Seq<char>) -> bool {
    exists|i: int| 0 <= i < nodes.len() && (#[trigger] nodes[i]).node_id == id
}

/// Everything the overlay shows: visibility, the attached session, the
/// windows it follows and the chat tree of the session.
#[derive(Debug, Clone)]
pub struct OverlaySnapshot {
    pub visible: bool,
    pub session_id: Option<String>,
    pub is_codex_focused: bool,
    pub status_message: String,
    pub codex_window_rect: Option<WindowRect>,
    pub overlay_rect: Option<WindowRect>,
    pub chat_tree: Option<ThreadChatTree>,
    pub helper_connected: bool,
    pub is_switching: bool,
    pub switching_node_id: Option<String>,
    pub last_error: Option<String>,
}

impl Default for OverlaySnapshot {
    /// The snapshot before anything has been observed: hidden, no session,
    /// waiting for Codex Desktop.
    fn default() -> (s: Self)
        ensures
            !s.visible,
            s.session_id is None,
            !s.is_codex_focused,
            s.status_message@ == "Waiting for Codex Desktop..."@,
            s.codex_window_rect is None,
            s.overlay_rect is None,
            s.chat_tree is None,
            !s.helper_connected,
            !s.is_switching,
            s.switching_node_id is None,
            s.last_error is None,
    {
        OverlaySnapshot {
            visible: false,
            session_id: None,
            is_codex_focused: false,
            status_message: String::from_str("Waiting for Codex Desktop..."),
            codex_window_rect: None,
            overlay_rect: None,
            chat_tree: None,
            helper_connected: false,
            is_switching: false,
            switching_node_id: None,
            last_error: None,
        }
    }
}

/// The answer to a branch switch: the node now current and whether Codex
/// Desktop was asked to refresh.
#[derive(Debug, Clone, PartialEq, Eq)]
pub struct SetCurrentNodeResult {
    pub current_node_id: String,
    pub refresh_triggered: bool,
}

} // verus!
