use vstd::prelude::*;

use crate::model::{
    has_node, opt_text, ChatTreeView, OverlaySnapshot, SetCurrentNodeResult, ThreadChatTree,
    WindowRect,
};
use crate::text::{contains, contains_text, trim, trimmed};
use crate::window_probe::ForegroundKind;
use vstd::utf8::{decode_utf8, encode_utf8, is_char_boundary};

verus! {

/// The overlay's width in physical pixels.
pub const OVERLAY_WINDOW_WIDTH: i32 = 232;

/// The overlay's least height in physical pixels.
pub const OVERLAY_MIN_HEIGHT: i32 = 240;

/// Whether a failed branch switch is worth one more try with a fresh helper:
/// the helper did not know the node or the thread, or the request was
/// canceled or timed out.
pub open spec fn refresh_helper_rule(error: Seq<char>) -> bool {
    ||| contains_text(error, "unknown chat tree node id"@)
    ||| contains_text(error, "unknown node"@)
    ||| contains_text(error, "thread not loaded:"@)
    ||| contains_text(error, "request canceled"@)
    ||| contains_text(error, "request timed out"@)
}

proof fn phrase_in_middle(a: Seq<char>, p: Seq<char>, b: Seq<char>)
    ensures
        contains_text(a + p + b, p),
{
    assert((a + p + b).subrange(a.len() as int, (a.len() + p.len()) as int) =~= p);
    assert(crate::text::occurs_at(a + p + b, p, a.len() as int));
}

/// A switch is retried when any of the refreshable phrases occurs anywhere in
/// its error, before, inside or after other text (such as the
/// `app-server error for ...: {...}` wrapping), and only then.
pub proof fn refresh_phrases_count_anywhere(a: Seq<char>, b: Seq<char>, error: Seq<char>)
    ensures
        refresh_helper_rule(a + "unknown chat tree node id"@ + b),
        refresh_helper_rule(a + "unknown node"@ + b),
        refresh_helper_rule(a + "thread not loaded:"@ + b),
        refresh_helper_rule(a + "request canceled"@ + b),
        refresh_helper_rule(a + "request timed out"@ + b),
        refresh_helper_rule(error) ==> exists|k: int, p: Seq<char>|
            (p == "unknown chat tree node id"@ || p == "unknown node"@ || p
                == "thread not loaded:"@ || p == "request canceled"@ || p == "request timed out"@)
                && 0 <= k && k + p.len() <= error.len() && #[trigger] error.subrange(
                k,
                k + p.len(),
            ) == p,
{
    phrase_in_middle(a, "unknown chat tree node id"@, b);
    phrase_in_middle(a, "unknown node"@, b);
    phrase_in_middle(a, "thread not loaded:"@, b);
    phrase_in_middle(a, "request canceled"@, b);
    phrase_in_middle(a, "request timed out"@, b);
}

/// Whether the error of a failed branch switch calls for a fresh helper and
/// one more try.
pub fn should_refresh_helper_for_error(error: &str) -> (r: bool)
    ensures
        r == refresh_helper_rule(error@),
{
    contains(error, "unknown chat tree node id") || contains(error, "unknown node") || contains(
        error,
        "thread not loaded:",
    ) || contains(error, "request canceled") || contains(error, "request timed out")
}

/// The smaller of two integers.
pub open spec fn min_int(a: int, b: int) -> int {
    if a <= b {
        a
    } else {
        b
    }
}

/// The larger of two integers.
pub open spec fn max_int(a: int, b: int) -> int {
    if a >= b {
        a
    } else {
        b
    }
}

/// Where the overlay goes and how large it is, in physical pixels.
#[derive(Debug, Clone, Copy, PartialEq, Eq, Structural)]
pub struct OverlayPlacement {
    pub x: i32,
    pub y: i32,
    pub width: u32,
    pub height: u32,
}

/// The overlay's height beside a monitor work area.
pub open spec fn overlay_height(work_area: WindowRect) -> int {
    max_int(work_area.height as int, OVERLAY_MIN_HEIGHT as int)
}

/// The placement can be computed without overflow: the work area's right
/// edge less the overlay width, and its bottom edge less the overlay height,
/// fit in an `i32`.
pub open spec fn placement_fits(work_area: WindowRect) -> bool {
    &&& work_area.right - OVERLAY_WINDOW_WIDTH >= i32::MIN
    &&& work_area.bottom - overlay_height(work_area) >= i32::MIN
}

/// Whether the placement beside `work_area` can be computed without overflow.
pub fn can_place_overlay(work_area: WindowRect) -> (r: bool)
    ensures
        r == placement_fits(work_area),
{
    let height: i32 = if work_area.height >= OVERLAY_MIN_HEIGHT {
        work_area.height
    } else {
        OVERLAY_MIN_HEIGHT
    };
    work_area.right >= i32::MIN + OVERLAY_WINDOW_WIDTH && work_area.bottom >= i32::MIN + height
}

/// Docks the overlay to the right edge of the Codex window, aligned with its
/// top, pushed back inside the monitor's work area: the overlay is
/// `OVERLAY_WINDOW_WIDTH` wide and as tall as the work area, but at least
/// `OVERLAY_MIN_HEIGHT`.
pub fn overlay_placement(target: WindowRect, work_area: WindowRect) -> (p: OverlayPlacement)
    requires
        placement_fits(work_area),
    ensures
        p.width == OVERLAY_WINDOW_WIDTH,
        p.height == overlay_height(work_area),
        p.x == max_int(
            min_int(target.right as int, work_area.right - OVERLAY_WINDOW_WIDTH),
            work_area.left as int,
        ),
        p.y == max_int(
            min_int(target.top as int, work_area.bottom - overlay_height(work_area)),
            work_area.top as int,
        ),
{
    let width: i32 = OVERLAY_WINDOW_WIDTH;
    let height: i32 = if work_area.height >= OVERLAY_MIN_HEIGHT {
        work_area.height
    } else {
        OVERLAY_MIN_HEIGHT
    };
    let max_left: i32 = work_area.right - width;
    let desired_left: i32 = target.right;
    let left: i32 = if desired_left <= max_left {
        desired_left
    } else {
        max_left
    };
    let x: i32 = if left >= work_area.left {
        left
    } else {
        work_area.left
    };
    let max_top: i32 = work_area.bottom - height;
    let top: i32 = if target.top <= max_top {
        target.top
    } else {
        max_top
    };
    let y: i32 = if top >= work_area.top {
        top
    } else {
        work_area.top
    };
    OverlayPlacement { x, y, width: width as u32, height: height as u32 }
}

/// The overlay never leaves the work area to the left or the top, is always
/// `OVERLAY_WINDOW_WIDTH` wide and at least `OVERLAY_MIN_HEIGHT` tall, and
/// stays inside the work area whenever the work area is large enough for it.
pub proof fn placement_stays_in_work_area(target: WindowRect, work_area: WindowRect, p: OverlayPlacement)
    requires
        placement_fits(work_area),
        p.width == OVERLAY_WINDOW_WIDTH,
        p.height == overlay_height(work_area),
        p.x == max_int(
            min_int(target.right as int, work_area.right - OVERLAY_WINDOW_WIDTH),
            work_area.left as int,
        ),
        p.y == max_int(
            min_int(target.top as int, work_area.bottom - overlay_height(work_area)),
            work_area.top as int,
        ),
    ensures
        p.x >= work_area.left,
        p.y >= work_area.top,
        p.height >= OVERLAY_MIN_HEIGHT,
        work_area.right - work_area.left >= OVERLAY_WINDOW_WIDTH ==> p.x + p.width <= work_area.right,
        work_area.bottom - work_area.top >= p.height ==> p.y + p.height <= work_area.bottom,
        p.x <= target.right || p.x == work_area.left,
        p.y <= target.top || p.y == work_area.top,
{
}

/// The rectangle of a window given its outer position and its outer size;
/// the size is read as an `i32`, as the window system hands it over.
pub fn overlay_rect_from_outer(x: i32, y: i32, width: u32, height: u32) -> (r: WindowRect)
    requires
        i32::MIN <= x + (width as i32) <= i32::MAX,
        i32::MIN <= y + (height as i32) <= i32::MAX,
    ensures
        r.left == x,
        r.top == y,
        r.right == x + (width as i32),
        r.bottom == y + (height as i32),
        r.width == width as i32,
        r.height == height as i32,
{
    let w = width as i32;
    let h = height as i32;
    WindowRect::new(x, y, x + w, y + h)
}

/// The session id written by Codex Desktop: the file's text without
/// surrounding white space, or none when that is empty.
pub fn session_id_from_content(content: &str) -> (r: Option<String>)
    ensures
        opt_text(r) == if trimmed(content@).len() == 0 {
            None
        } else {
            Some(trimmed(content@))
        },
{
    let t = trim(content);
    if t.as_str().unicode_len() == 0 {
        None
    } else {
        Some(t)
    }
}

/// The decimal digit `d`.
pub open spec fn digit_char(d: nat) -> char {
    if d == 0 {
        '0'
    } else if d == 1 {
        '1'
    } else if d == 2 {
        '2'
    } else if d == 3 {
        '3'
    } else if d == 4 {
        '4'
    } else if d == 5 {
        '5'
    } else if d == 6 {
        '6'
    } else if d == 7 {
        '7'
    } else if d == 8 {
        '8'
    } else {
        '9'
    }
}

/// The decimal numeral of `n`.
pub open spec fn decimal(n: nat) -> Seq<char>
    decreases n,
{
    if n < 10 {
        seq![digit_char(n)]
    } else {
        decimal(n / 10).push(digit_char(n % 10))
    }
}

fn digit_text(d: usize) -> (r: &'static str)
    requires
        d < 10,
    ensures
        r@ == seq![digit_char(d as nat)],
{
    proof {
        reveal_strlit("0");
        reveal_strlit("1");
        reveal_strlit("2");
        reveal_strlit("3");
        reveal_strlit("4");
        reveal_strlit("5");
        reveal_strlit("6");
        reveal_strlit("7");
        reveal_strlit("8");
        reveal_strlit("9");
    }
    if d == 0 {
        "0"
    } else if d == 1 {
        "1"
    } else if d == 2 {
        "2"
    } else if d == 3 {
        "3"
    } else if d == 4 {
        "4"
    } else if d == 5 {
        "5"
    } else if d == 6 {
        "6"
    } else if d == 7 {
        "7"
    } else if d == 8 {
        "8"
    } else {
        "9"
    }
}

/// The decimal numeral of `n`, as `usize`'s `Display` writes it.
pub fn decimal_text(n: usize) -> (r: String)
    ensures
        r@ == decimal(n as nat),
    decreases n,
{
    if n < 10 {
        String::from_str(digit_text(n))
    } else {
        let mut s = decimal_text(n / 10);
        s.append(digit_text(n % 10));
        s
    }
}

/// The first eight bytes of a session id, read back as text.
pub open spec fn session_prefix(id: Seq<char>) -> Seq<char> {
    decode_utf8(encode_utf8(id).subrange(0, 8))
}

/// The session id's first eight bytes end on a character boundary, so that
/// they can be shown.
pub open spec fn shows_session_prefix(id: Seq<char>) -> bool {
    is_char_boundary(encode_utf8(id), 8)
}

/// Whether the session id's first eight bytes can be shown.
pub fn can_show_session_prefix(thread_id: &str) -> (r: bool)
    ensures
        r == shows_session_prefix(thread_id@),
{
    thread_id.is_char_boundary(8)
}

/// The status shown once a session's chat tree has been read.
pub open spec fn attached_status(id: Seq<char>, node_count: nat) -> Seq<char> {
    "Attached to session "@ + session_prefix(id) + " with "@ + decimal(node_count) + " node"@ + (
    if node_count == 1 {
        ""@
    } else {
        "s"@
    }) + "."@
}

/// The status `Attached to session <first 8 bytes of the id> with <n>
/// node(s).`
pub fn attached_status_message(thread_id: &str, node_count: usize) -> (r: String)
    requires
        shows_session_prefix(thread_id@),
    ensures
        r@ == attached_status(thread_id@, node_count as nat),
{
    proof {
        vstd::utf8::encode_utf8_valid_utf8(thread_id@);
    }
    let (head, _tail) = thread_id.split_at(8);
    proof {
        vstd::utf8::encode_utf8_decode_utf8(head@);
        assert(head@ == session_prefix(thread_id@));
    }
    let mut m = String::from_str("Attached to session ");
    m.append(head);
    m.append(" with ");
    let count = decimal_text(node_count);
    m.append(count.as_str());
    m.append(" node");
    if node_count == 1 {
        m.append("");
    } else {
        m.append("s");
    }
    m.append(".");
    m
}

/// The text of an override: the session it was made for and the node it
/// makes current.
pub open spec fn override_view(slot: Option<(String, String)>) -> Option<(Seq<char>, Seq<char>)> {
    match slot {
        Some((t, n)) => Some((t@, n@)),
        None => None,
    }
}

/// `tree` with `node` as its current node.
pub open spec fn with_current(tree: ChatTreeView, node: Seq<char>) -> ChatTreeView {
    ChatTreeView { current_node_id: Some(node), nodes: tree.nodes }
}

/// What remains of a branch-switch override, and the tree shown, once a
/// freshly read tree of session `thread_id` is checked against it: an
/// override for another session, or for a node the tree does not have, is
/// dropped; otherwise its node is shown as current.
pub open spec fn applied_override(
    slot: Option<(Seq<char>, Seq<char>)>,
    thread_id: Seq<char>,
    tree: ChatTreeView,
) -> (Option<(Seq<char>, Seq<char>)>, ChatTreeView) {
    match slot {
        None => (None, tree),
        Some((t, n)) => if t != thread_id {
            (None, tree)
        } else if has_node(tree.nodes, n) {
            (slot, with_current(tree, n))
        } else {
            (None, tree)
        },
    }
}

/// The Codex window the overlay docks to, given what is in front, the Codex
/// window found (if any) and the last one docked to; none means hidden.
pub open spec fn dock_target(
    foreground: ForegroundKind,
    codex_window: Option<WindowRect>,
    last: Option<WindowRect>,
) -> Option<WindowRect> {
    match foreground {
        ForegroundKind::Codex => codex_window,
        ForegroundKind::Overlay => last,
        ForegroundKind::Other => None,
    }
}

/// The Codex window remembered after a poll.
pub open spec fn remembered_target(
    foreground: ForegroundKind,
    codex_window: Option<WindowRect>,
    last: Option<WindowRect>,
) -> Option<WindowRect> {
    if foreground == ForegroundKind::Codex && codex_window is Some {
        codex_window
    } else {
        last
    }
}

/// The overlay shows beside Codex when Codex is in front, stays where it was
/// docked when the overlay itself is then brought to the front, and hides
/// when anything else is in front.
pub proof fn overlay_follows_focus(rect: WindowRect, last: Option<WindowRect>, other: Option<WindowRect>)
    ensures
        dock_target(ForegroundKind::Codex, Some(rect), last) == Some(rect),
        dock_target(
            ForegroundKind::Overlay,
            other,
            remembered_target(ForegroundKind::Codex, Some(rect), last),
        ) == Some(rect),
        dock_target(ForegroundKind::Other, other, last) is None,
        remembered_target(ForegroundKind::Overlay, other, last) == last,
        remembered_target(ForegroundKind::Other, other, last) == last,
{
}

/// After a fresh tree is checked against the override, the override that
/// remains (if any) is the one that was there, belongs to the session read,
/// and names a node of the tree, which is shown as current; the nodes
/// themselves are never changed.
pub proof fn override_stays_consistent(
    slot: Option<(Seq<char>, Seq<char>)>,
    thread_id: Seq<char>,
    tree: ChatTreeView,
)
    ensures
        ({
            let (kept, shown) = applied_override(slot, thread_id, tree);
            &&& shown.nodes == tree.nodes
            &&& (kept is None || kept == slot)
            &&& (kept matches Some((t, n)) ==> t == thread_id && has_node(shown.nodes, n)
                && shown.current_node_id == Some(n))
            &&& (kept is None ==> shown == tree)
        }),
{
}

/// A branch switch is shown: once the helper has made `node` current in
/// `thread_id`, the next tree read for that session shows `node` as current
/// whenever the tree has it, whatever the helper reports as current.
pub proof fn switched_node_is_shown(thread_id: Seq<char>, node: Seq<char>, tree: ChatTreeView)
    requires
        has_node(tree.nodes, node),
    ensures
        applied_override(Some((thread_id, node)), thread_id, tree).1.current_node_id == Some(node),
        applied_override(Some((thread_id, node)), thread_id, tree).0 == Some((thread_id, node)),
{
}

/// A node is found in a tree exactly when some node, at any index from the
/// first to the last, has its id.
pub proof fn has_node_finds_every_index(nodes: Seq<crate::model::ChatTreeNodeView>, id: Seq<char>)
    ensures
        has_node(nodes, id) <==> exists|i: int| 0 <= i < nodes.len() && nodes[i].node_id == id,
        forall|i: int| 0 <= i < nodes.len() && (#[trigger] nodes[i]).node_id == id ==> has_node(nodes, id),
        nodes.len() > 0 && nodes[0].node_id == id ==> has_node(nodes, id),
{
    if nodes.len() > 0 && nodes[0].node_id == id {
        assert(nodes[0].node_id == id);
    }
}

/// The override of a session is shown on its freshly read tree whenever any
/// node of the tree, the first one included, has the override's id: that
/// node becomes current and the override is kept.
pub proof fn override_shown_when_any_node_matches(
    thread_id: Seq<char>,
    node: Seq<char>,
    tree: ChatTreeView,
    i: int,
)
    requires
        0 <= i < tree.nodes.len(),
        tree.nodes[i].node_id == node,
    ensures
        applied_override(Some((thread_id, node)), thread_id, tree).1.current_node_id == Some(node),
        applied_override(Some((thread_id, node)), thread_id, tree).1.nodes == tree.nodes,
        applied_override(Some((thread_id, node)), thread_id, tree).0 == Some((thread_id, node)),
{
    assert(has_node(tree.nodes, node));
}

/// The window-tracking part of two snapshots agrees.
pub open spec fn same_window_state(a: OverlaySnapshot, b: OverlaySnapshot) -> bool {
    &&& a.visible == b.visible
    &&& a.is_codex_focused == b.is_codex_focused
    &&& a.codex_window_rect == b.codex_window_rect
    &&& a.overlay_rect == b.overlay_rect
}

/// The branch-switch part of two snapshots agrees.
pub open spec fn same_switch_state(a: OverlaySnapshot, b: OverlaySnapshot) -> bool {
    &&& a.is_switching == b.is_switching
    &&& a.switching_node_id == b.switching_node_id
}

/// The session part of two snapshots agrees.
pub open spec fn same_session_state(a: OverlaySnapshot, b: OverlaySnapshot) -> bool {
    &&& a.session_id == b.session_id
    &&& a.helper_connected == b.helper_connected
    &&& a.chat_tree == b.chat_tree
    &&& a.status_message == b.status_message
    &&& a.last_error == b.last_error
}

/// What the overlay keeps between polls, apart from the helper process: the
/// snapshot shown to the UI, the session the helper has resumed, the node
/// made current by the last branch switch (with its session) and the last
/// Codex window the overlay was docked to.
pub struct RuntimeState {
    pub snapshot: OverlaySnapshot,
    pub attached_thread_id: Option<String>,
    pub current_node_override: Option<(String, String)>,
    pub last_target_rect: Option<WindowRect>,
}

/// Whether some node of `tree` has the id `id`.
fn tree_has_node(tree: &ThreadChatTree, id: &String) -> (r: bool)
    ensures
        r == has_node(tree@.nodes, id@),
{
    let n = tree.nodes.len();
    let mut i: usize = 0;
    while i < n
        invariant
            n == tree.nodes@.len(),
            i <= n,
            forall|j: int| 0 <= j < i ==> (#[trigger] tree@.nodes[j]).node_id != id@,
        decreases n - i,
    {
        if tree.nodes[i].node_id == *id {
            assert(tree@.nodes[i as int].node_id == id@);
            return true;
        }
        i = i + 1;
    }
    false
}

impl RuntimeState {
    /// The state at start: the initial snapshot and nothing attached.
    pub fn new() -> (s: Self)
        ensures
            !s.snapshot.visible,
            s.snapshot.session_id is None,
            !s.snapshot.is_codex_focused,
            s.snapshot.status_message@ == "Waiting for Codex Desktop..."@,
            s.snapshot.codex_window_rect is None,
            s.snapshot.overlay_rect is None,
            s.snapshot.chat_tree is None,
            !s.snapshot.helper_connected,
            !s.snapshot.is_switching,
            s.snapshot.switching_node_id is None,
            s.snapshot.last_error is None,
            s.attached_thread_id is None,
            s.current_node_override is None,
            s.last_target_rect is None,
    {
        RuntimeState {
            snapshot: OverlaySnapshot::default(),
            attached_thread_id: None,
            current_node_override: None,
            last_target_rect: None,
        }
    }

    /// Checks a freshly read chat tree of session `thread_id` against the
    /// override left by the last branch switch.
    pub fn apply_current_node_override(&mut self, thread_id: &str, chat_tree: &mut ThreadChatTree)
        ensures
            (override_view(final(self).current_node_override), final(chat_tree)@) == applied_override(
                override_view(old(self).current_node_override),
                thread_id@,
                old(chat_tree)@,
            ),
            final(self).snapshot == old(self).snapshot,
            final(self).attached_thread_id == old(self).attached_thread_id,
            final(self).last_target_rect == old(self).last_target_rect,
    {
        let keep = match &self.current_node_override {
            None => return,
            Some((override_thread_id, override_node_id)) => {
                if !crate::text::text_eq(override_thread_id.as_str(), thread_id) {
                    false
                } else {
                    let found = tree_has_node(chat_tree, override_node_id);
                    if found {
                        chat_tree.current_node_id = Some(override_node_id.clone());
                        assert(chat_tree@.nodes =~= old(chat_tree)@.nodes);
                    }
                    found
                }
            },
        };
        if !keep {
            self.current_node_override = None;
        }
    }

    /// Starts a poll's session update with the session id Codex Desktop
    /// reports. Without a session, everything session-related is cleared
    /// and there is nothing to attach; with one, it is recorded and returned
    /// so that the helper can be made ready for it.
    pub fn begin_session_update(&mut self, session_id: Option<String>) -> (r: Option<String>)
        ensures
            opt_text(final(self).snapshot.session_id) == opt_text(session_id),
            opt_text(r) == opt_text(session_id),
            same_window_state(final(self).snapshot, old(self).snapshot),
            same_switch_state(final(self).snapshot, old(self).snapshot),
            final(self).last_target_rect == old(self).last_target_rect,
            match session_id {
                None => {
                    &&& !final(self).snapshot.helper_connected
                    &&& final(self).snapshot.chat_tree is None
                    &&& final(self).snapshot.status_message@
                        == "Waiting for Codex Desktop session focus..."@
                    &&& final(self).snapshot.last_error is None
                    &&& final(self).attached_thread_id is None
                    &&& final(self).current_node_override is None
                },
                Some(_) => {
                    &&& final(self).snapshot.helper_connected == old(self).snapshot.helper_connected
                    &&& final(self).snapshot.chat_tree == old(self).snapshot.chat_tree
                    &&& final(self).snapshot.status_message == old(self).snapshot.status_message
                    &&& final(self).snapshot.last_error == old(self).snapshot.last_error
                    &&& final(self).attached_thread_id == old(self).attached_thread_id
                    &&& final(self).current_node_override == old(self).current_node_override
                },
            },
    {
        match session_id {
            None => {
                self.snapshot.session_id = None;
                self.snapshot.helper_connected = false;
                self.snapshot.chat_tree = None;
                self.snapshot.status_message = String::from_str(
                    "Waiting for Codex Desktop session focus...",
                );
                self.snapshot.last_error = None;
                self.attached_thread_id = None;
                self.current_node_override = None;
                None
            },
            Some(id) => {
                self.snapshot.session_id = Some(id.clone());
                Some(id)
            },
        }
    }

    /// Forgets the session attached to the helper and the override, as when
    /// the helper is taken down.
    pub fn on_helper_reset(&mut self)
        ensures
            final(self).snapshot == old(self).snapshot,
            final(self).attached_thread_id is None,
            final(self).current_node_override is None,
            final(self).last_target_rect == old(self).last_target_rect,
    {
        self.attached_thread_id = None;
        self.current_node_override = None;
    }

    /// Records that the helper process is not running: the tree is
    /// dropped, the error and status say so, and the helper's session and
    /// the override are forgotten so that a new helper starts afresh.
    pub fn on_helper_unavailable(&mut self)
        ensures
            !final(self).snapshot.helper_connected,
            final(self).snapshot.chat_tree is None,
            opt_text(final(self).snapshot.last_error) == Some(
                "Helper Codex app-server is not running."@,
            ),
            final(self).snapshot.status_message@ == "Restarting helper app-server..."@,
            final(self).snapshot.session_id == old(self).snapshot.session_id,
            same_window_state(final(self).snapshot, old(self).snapshot),
            same_switch_state(final(self).snapshot, old(self).snapshot),
            final(self).attached_thread_id is None,
            final(self).current_node_override is None,
            final(self).last_target_rect == old(self).last_target_rect,
    {
        self.snapshot.helper_connected = false;
        self.snapshot.chat_tree = None;
        self.snapshot.last_error = Some(String::from_str("Helper Codex app-server is not running."));
        self.snapshot.status_message = String::from_str("Restarting helper app-server...");
        self.on_helper_reset();
    }

    /// The step after the helper was made ready for `thread_id` and checked:
    /// a helper that is not running is recorded as unavailable and taken
    /// down; a running one resumes the session first unless it has already
    /// resumed it, and only then reads the chat tree.
    pub fn on_helper_checked(&mut self, thread_id: &str, alive: bool) -> (r: SessionStep)
        ensures
            !alive ==> {
                &&& r == SessionStep::ShutDownHelper
                &&& !final(self).snapshot.helper_connected
                &&& final(self).snapshot.chat_tree is None
                &&& opt_text(final(self).snapshot.last_error) == Some(
                    "Helper Codex app-server is not running."@,
                )
                &&& final(self).snapshot.status_message@ == "Restarting helper app-server..."@
                &&& final(self).snapshot.session_id == old(self).snapshot.session_id
                &&& same_window_state(final(self).snapshot, old(self).snapshot)
                &&& same_switch_state(final(self).snapshot, old(self).snapshot)
                &&& final(self).attached_thread_id is None
                &&& final(self).current_node_override is None
                &&& final(self).last_target_rect == old(self).last_target_rect
            },
            alive ==> {
                &&& *final(self) == *old(self)
                &&& r == if opt_text(old(self).attached_thread_id) == Some(thread_id@) {
                    SessionStep::ReadChatTree
                } else {
                    SessionStep::ResumeThread
                }
            },
            r == SessionStep::ReadChatTree ==> opt_text(final(self).attached_thread_id) == Some(
                thread_id@,
            ),
    {
        if !alive {
            self.on_helper_unavailable();
            SessionStep::ShutDownHelper
        } else if self.needs_resume(thread_id) {
            SessionStep::ResumeThread
        } else {
            SessionStep::ReadChatTree
        }
    }

    /// Whether the helper must resume `thread_id` before reading its tree:
    /// it has not resumed that session yet.
    pub fn needs_resume(&self, thread_id: &str) -> (r: bool)
        ensures
            r == !(opt_text(self.attached_thread_id) == Some(thread_id@)),
    {
        match &self.attached_thread_id {
            Some(attached) => !crate::text::text_eq(attached.as_str(), thread_id),
            None => true,
        }
    }

    /// Records that the helper has resumed `thread_id`.
    pub fn on_thread_resumed(&mut self, thread_id: &str)
        ensures
            opt_text(final(self).attached_thread_id) == Some(thread_id@),
            final(self).snapshot == old(self).snapshot,
            final(self).current_node_override == old(self).current_node_override,
            final(self).last_target_rect == old(self).last_target_rect,
    {
        self.attached_thread_id = Some(String::from_str(thread_id));
    }

    /// Shows the chat tree just read for `thread_id`, after checking it
    /// against the override: the helper is connected, the error is cleared
    /// and the status names the session and counts the nodes.
    pub fn on_chat_tree_read(&mut self, thread_id: &str, tree: ThreadChatTree)
        requires
            shows_session_prefix(thread_id@),
        ensures
            ({
                let (slot, shown) = applied_override(
                    override_view(old(self).current_node_override),
                    thread_id@,
                    tree@,
                );
                &&& override_view(final(self).current_node_override) == slot
                &&& final(self).snapshot.chat_tree is Some
                &&& final(self).snapshot.chat_tree->0@ == shown
                &&& final(self).snapshot.status_message@ == attached_status(
                    thread_id@,
                    tree@.nodes.len(),
                )
            }),
            final(self).snapshot.helper_connected,
            final(self).snapshot.last_error is None,
            final(self).snapshot.session_id == old(self).snapshot.session_id,
            same_window_state(final(self).snapshot, old(self).snapshot),
            same_switch_state(final(self).snapshot, old(self).snapshot),
            final(self).attached_thread_id == old(self).attached_thread_id,
            final(self).last_target_rect == old(self).last_target_rect,
    {
        let mut tree = tree;
        self.apply_current_node_override(thread_id, &mut tree);
        let status = attached_status_message(thread_id, tree.nodes.len());
        self.snapshot.helper_connected = true;
        self.snapshot.chat_tree = Some(tree);
        self.snapshot.status_message = status;
        self.snapshot.last_error = None;
    }

    /// Starts a branch switch to `node_id` (white space trimmed): refused
    /// when the id is blank or when no session is attached; otherwise the
    /// snapshot shows the switch in progress and the session and node are
    /// returned.
    pub fn begin_node_switch(&mut self, node_id: &str) -> (r: Result<(String, String), String>)
        ensures
            trimmed(node_id@).len() == 0 ==> (r matches Err(e) && e@ == "nodeId is required"@),
            trimmed(node_id@).len() > 0 && old(self).snapshot.session_id is None ==> (r matches Err(e)
                && e@ == "No active session attached"@),
            r is Err ==> *final(self) == *old(self),
            r is Ok <==> (trimmed(node_id@).len() > 0 && old(self).snapshot.session_id is Some),
            match r {
                Ok((thread_id, next)) => {
                    &&& opt_text(old(self).snapshot.session_id) == Some(thread_id@)
                    &&& next@ == trimmed(node_id@)
                    &&& final(self).snapshot.is_switching
                    &&& opt_text(final(self).snapshot.switching_node_id) == Some(next@)
                    &&& final(self).snapshot.last_error is None
                    &&& final(self).snapshot.status_message@
                        == "Switching branch and refreshing Codex..."@
                    &&& final(self).snapshot.session_id == old(self).snapshot.session_id
                    &&& final(self).snapshot.helper_connected == old(self).snapshot.helper_connected
                    &&& final(self).snapshot.chat_tree == old(self).snapshot.chat_tree
                    &&& same_window_state(final(self).snapshot, old(self).snapshot)
                    &&& final(self).attached_thread_id == old(self).attached_thread_id
                    &&& final(self).current_node_override == old(self).current_node_override
                    &&& final(self).last_target_rect == old(self).last_target_rect
                },
                Err(_) => true,
            },
    {
        let next = trim(node_id);
        if next.as_str().unicode_len() == 0 {
            return Err(String::from_str("nodeId is required"));
        }
        let thread_id = match &self.snapshot.session_id {
            Some(id) => id.clone(),
            None => return Err(String::from_str("No active session attached")),
        };
        self.snapshot.is_switching = true;
        self.snapshot.switching_node_id = Some(next.clone());
        self.snapshot.last_error = None;
        self.snapshot.status_message = String::from_str("Switching branch and refreshing Codex...");
        Ok((thread_id, next))
    }

    /// Records the node that the helper made current in `thread_id`, so that
    /// later reads show it until Codex Desktop catches up.
    pub fn on_node_switched(&mut self, thread_id: String, current_node_id: String)
        ensures
            override_view(final(self).current_node_override) == Some(
                (thread_id@, current_node_id@),
            ),
            final(self).snapshot == old(self).snapshot,
            final(self).attached_thread_id == old(self).attached_thread_id,
            final(self).last_target_rect == old(self).last_target_rect,
    {
        self.current_node_override = Some((thread_id, current_node_id));
    }

    /// Ends a branch switch that went through: the snapshot no longer shows
    /// it in progress and says that Codex Desktop is to refresh.
    pub fn finish_node_switch(&mut self)
        ensures
            !final(self).snapshot.is_switching,
            final(self).snapshot.switching_node_id is None,
            final(self).snapshot.status_message@
                == "Branch switched. Waiting for Codex Desktop refresh."@,
            final(self).snapshot.session_id == old(self).snapshot.session_id,
            final(self).snapshot.helper_connected == old(self).snapshot.helper_connected,
            final(self).snapshot.chat_tree == old(self).snapshot.chat_tree,
            final(self).snapshot.last_error == old(self).snapshot.last_error,
            same_window_state(final(self).snapshot, old(self).snapshot),
            final(self).attached_thread_id == old(self).attached_thread_id,
            final(self).current_node_override == old(self).current_node_override,
            final(self).last_target_rect == old(self).last_target_rect,
    {
        self.snapshot.is_switching = false;
        self.snapshot.switching_node_id = None;
        self.snapshot.status_message = String::from_str(
            "Branch switched. Waiting for Codex Desktop refresh.",
        );
    }

    /// The Codex window the overlay docks to in this poll, if it is to be
    /// shown: the Codex window itself when Codex is in front (remembered for
    /// later), the last one when the overlay itself is in front, and none
    /// otherwise.
    pub fn overlay_target(&mut self, foreground: ForegroundKind, codex_window: Option<WindowRect>) -> (r:
        Option<WindowRect>)
        ensures
            r == dock_target(foreground, codex_window, old(self).last_target_rect),
            final(self).last_target_rect == remembered_target(
                foreground,
                codex_window,
                old(self).last_target_rect,
            ),
            final(self).snapshot == old(self).snapshot,
            final(self).attached_thread_id == old(self).attached_thread_id,
            final(self).current_node_override == old(self).current_node_override,
    {
        match foreground {
            ForegroundKind::Codex => {
                if let Some(target) = codex_window {
                    self.last_target_rect = Some(target);
                }
                codex_window
            },
            ForegroundKind::Overlay => self.last_target_rect,
            ForegroundKind::Other => None,
        }
    }

    /// Records what this poll found of the windows: whether the overlay is
    /// shown, whether Codex is in front, where the overlay is and where the
    /// Codex window is.
    pub fn record_window_state(
        &mut self,
        visible: bool,
        foreground: ForegroundKind,
        overlay_rect: Option<WindowRect>,
        codex_window_rect: Option<WindowRect>,
    )
        ensures
            final(self).snapshot.visible == visible,
            final(self).snapshot.is_codex_focused == (foreground == ForegroundKind::Codex),
            final(self).snapshot.overlay_rect == overlay_rect,
            final(self).snapshot.codex_window_rect == codex_window_rect,
            same_session_state(final(self).snapshot, old(self).snapshot),
            same_switch_state(final(self).snapshot, old(self).snapshot),
            final(self).attached_thread_id == old(self).attached_thread_id,
            final(self).current_node_override == old(self).current_node_override,
            final(self).last_target_rect == old(self).last_target_rect,
    {
        self.snapshot.visible = visible;
        self.snapshot.is_codex_focused = foreground == ForegroundKind::Codex;
        self.snapshot.overlay_rect = overlay_rect;
        self.snapshot.codex_window_rect = codex_window_rect;
    }
}

/// What the overlay does next in a session update, once the helper has been
/// made ready and checked.
#[derive(Debug, Clone, Copy, PartialEq, Eq, Structural)]
pub enum SessionStep {
    /// Take the helper process down; the update is over.
    ShutDownHelper,
    /// Ask the helper to resume the session, then read its chat tree.
    ResumeThread,
    /// Ask the helper for the session's chat tree.
    ReadChatTree,
}

/// What follows one attempt at switching a session's current node.
#[derive(Debug, Clone, PartialEq, Eq)]
pub enum SwitchDecision {
    /// The helper made this node current.
    Switched(String),
    /// Try once more with a fresh helper.
    Retry,
    /// The switch failed with this error.
    Failed(String),
}

/// What follows a switch attempt: success is taken as is; a first failure
/// whose error calls for a fresh helper is tried once more; any other
/// failure, and any failure of the second attempt, ends the switch.
pub open spec fn switch_decision(retried: bool, outcome: Result<Seq<char>, Seq<char>>) -> Option<
    Result<Seq<char>, Seq<char>>,
> {
    match outcome {
        Ok(c) => Some(Ok(c)),
        Err(e) => if !retried && refresh_helper_rule(e) {
            None
        } else {
            Some(Err(e))
        },
    }
}

/// Decides what follows a switch attempt; `retried` tells whether it was
/// already the second one.
pub fn after_switch_attempt(retried: bool, outcome: Result<String, String>) -> (r: SwitchDecision)
    ensures
        switch_decision(
            retried,
            match outcome {
                Ok(c) => Ok(c@),
                Err(e) => Err(e@),
            },
        ) == match r {
            SwitchDecision::Switched(c) => Some(Ok::<Seq<char>, Seq<char>>(c@)),
            SwitchDecision::Retry => None,
            SwitchDecision::Failed(e) => Some(Err::<Seq<char>, Seq<char>>(e@)),
        },
{
    match outcome {
        Ok(c) => SwitchDecision::Switched(c),
        Err(e) => if !retried && should_refresh_helper_for_error(e.as_str()) {
            SwitchDecision::Retry
        } else {
            SwitchDecision::Failed(e)
        },
    }
}

/// A switch is tried at most twice: after a second attempt there is never
/// another, and a first attempt is retried only on an error that calls for a
/// fresh helper.
pub proof fn switch_retries_at_most_once(outcome: Result<Seq<char>, Seq<char>>)
    ensures
        switch_decision(true, outcome) is Some,
        switch_decision(false, outcome) is None ==> (outcome matches Err(e) && refresh_helper_rule(e)),
{
}

/// The answer to a branch switch that went through: `current_node_id` is
/// current and Codex Desktop was asked to refresh.
pub fn switched_result(current_node_id: String) -> (r: SetCurrentNodeResult)
    ensures
        r.current_node_id == current_node_id,
        r.refresh_triggered,
{
    SetCurrentNodeResult { current_node_id, refresh_triggered: true }
}

} // verus!
