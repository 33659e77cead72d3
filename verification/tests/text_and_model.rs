use codex_chat_tree_overlay::model::{OverlaySnapshot, WindowRect};
use codex_chat_tree_overlay::text::{contains, eq_ignore_ascii_case, starts_with, text_eq, trim};

#[test]
fn window_rect_new_caches_size() {
    let r = WindowRect::new(10, 20, 110, 70);
    assert_eq!((r.left, r.top, r.right, r.bottom), (10, 20, 110, 70));
    assert_eq!(r.width, 100);
    assert_eq!(r.height, 50);
    let inverted = WindowRect::new(5, 5, -5, 0);
    assert_eq!(inverted.width, -10);
    assert_eq!(inverted.height, -5);
}

#[test]
fn default_snapshot_waits_for_codex() {
    let s = OverlaySnapshot::default();
    assert!(!s.visible);
    assert_eq!(s.session_id, None);
    assert_eq!(s.status_message, "Waiting for Codex Desktop...");
    assert!(s.chat_tree.is_none());
    assert!(!s.helper_connected && !s.is_switching && !s.is_codex_focused);
    assert!(s.last_error.is_none() && s.switching_node_id.is_none());
    assert!(s.codex_window_rect.is_none() && s.overlay_rect.is_none());
}

#[test]
fn trim_matches_std_trim() {
    for s in ["", "  ", "abc", "  abc  ", "\t\n x y \r\n", "\u{3000}id\u{2009}", "\u{85}a\u{a0}", "é "] {
        assert_eq!(trim(s), s.trim(), "trimming {s:?}");
    }
}

#[test]
fn trim_twice_is_trim_once() {
    let once = trim("  \u{2028} session-1 \u{205f}");
    assert_eq!(trim(&once), once);
    assert_eq!(once, "session-1");
}

#[test]
fn contains_matches_std_contains() {
    let cases = [
        ("app-server error: unknown node x", "unknown node"),
        ("abc", ""),
        ("", "a"),
        ("aaab", "aab"),
        ("short", "longer text"),
        ("héllo", "él"),
    ];
    for (s, p) in cases {
        assert_eq!(contains(s, p), s.contains(p), "{s:?} contains {p:?}");
    }
}

#[test]
fn starts_with_and_case_folding() {
    assert!(starts_with("Codex - chat", "Codex "));
    assert!(!starts_with("Codex", "Codex "));
    assert!(eq_ignore_ascii_case("CODEX.EXE", "codex.exe"));
    assert!(eq_ignore_ascii_case("Codex.exe", "Codex.exe"));
    assert!(!eq_ignore_ascii_case("Codex.exe", "Codex.ex"));
    assert!(!eq_ignore_ascii_case("Ä", "ä"));
    assert!(text_eq("same", "same"));
    assert!(!text_eq("same", "Same"));
}
