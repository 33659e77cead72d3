use vstd::prelude::*;

use crate::model::WindowRect;
use crate::text::{contains, contains_text, eq_ignore_ascii_case, eq_ignoring_ascii_case, occurs_at,
    starts_with, text_eq};

verus! {

/// The foreground window that was found to be Codex Desktop.
#[derive(Debug, Clone)]
pub struct WindowMatch {
    pub hwnd: isize,
    pub rect: WindowRect,
    pub title: String,
    pub process_name: String,
}

/// What the foreground window is, as far as the overlay cares.
#[derive(Debug, Clone, Copy, PartialEq, Eq, Structural)]
pub enum ForegroundKind {
    Codex,
    Overlay,
    Other,
}

/// The rule by which a window is taken for Codex Desktop: a shown, not
/// minimised window whose process is `Codex.exe`, or, unless the process is
/// `codex-monitor.exe`, whose title is `Codex` or starts with `Codex ` and
/// does not mention `Monitor` (process names compared ignoring ASCII case).
pub open spec fn codex_window_rule(
    is_null: bool,
    visible: bool,
    iconic: bool,
    process_name: Seq<char>,
    title: Seq<char>,
) -> bool {
    if is_null || !visible || iconic {
        false
    } else if eq_ignoring_ascii_case(process_name, "Codex.exe"@) {
        true
    } else if eq_ignoring_ascii_case(process_name, "codex-monitor.exe"@) {
        false
    } else {
        title == "Codex"@ || (occurs_at(title, "Codex "@, 0) && !contains_text(title, "Monitor"@))
    }
}

/// What is taken for Codex Desktop: nothing null, hidden or minimised; every
/// shown window of a `Codex.exe` process; no window of `codex-monitor.exe`;
/// and, for any other process, only a window titled exactly `Codex` or whose
/// first six characters are `Codex ` (and that does not mention `Monitor`) —
/// never a title that merely contains `Codex` later on.
pub proof fn codex_window_needs_codex_title(
    visible: bool,
    iconic: bool,
    process_name: Seq<char>,
    title: Seq<char>,
)
    ensures
        !codex_window_rule(true, visible, iconic, process_name, title),
        !codex_window_rule(false, false, iconic, process_name, title),
        !codex_window_rule(false, visible, true, process_name, title),
        eq_ignoring_ascii_case(process_name, "Codex.exe"@) ==> codex_window_rule(
            false,
            true,
            false,
            process_name,
            title,
        ),
        codex_window_rule(false, true, false, process_name, title) && !eq_ignoring_ascii_case(
            process_name,
            "Codex.exe"@,
        ) ==> title == "Codex"@ || (title.len() >= 6 && title.subrange(0, 6) == "Codex "@),
        !eq_ignoring_ascii_case(process_name, "Codex.exe"@) && !eq_ignoring_ascii_case(
            process_name,
            "codex-monitor.exe"@,
        ) ==> codex_window_rule(false, true, false, process_name, "Codex"@),
        !eq_ignoring_ascii_case(process_name, "Codex.exe"@) && !("Codex"@).is_prefix_of(title)
            ==> !codex_window_rule(false, true, false, process_name, title),
{
    reveal_strlit("Codex ");
    reveal_strlit("Codex");
    assert(("Codex "@).len() == 6);
    assert(("Codex"@).len() == 5);
    if codex_window_rule(false, true, false, process_name, title) && !eq_ignoring_ascii_case(
        process_name,
        "Codex.exe"@,
    ) && title != "Codex"@ {
        assert(occurs_at(title, "Codex "@, 0));
    }
    if !eq_ignoring_ascii_case(process_name, "Codex.exe"@) && occurs_at(title, "Codex "@, 0) {
        assert forall|i: int| 0 <= i < 5 implies ("Codex"@)[i] == title[i] by {
            assert(title.subrange(0, 6)[i] == ("Codex "@)[i]);
        }
        assert(("Codex"@).is_prefix_of(title));
    }
    if title == "Codex"@ {
        assert(("Codex"@).is_prefix_of(title));
    }
}

/// Decides whether a window is Codex Desktop from what Windows reports of it:
/// whether the handle is null, whether it is visible, whether it is
/// minimised, its process's executable name and its title.
pub fn is_codex_window(
    is_null: bool,
    visible: bool,
    iconic: bool,
    process_name: &str,
    title: &str,
) -> (r: bool)
    ensures
        r == codex_window_rule(is_null, visible, iconic, process_name@, title@),
{
    if is_null {
        return false;
    }
    if !visible || iconic {
        return false;
    }
    if eq_ignore_ascii_case(process_name, "Codex.exe") {
        return true;
    }
    if eq_ignore_ascii_case(process_name, "codex-monitor.exe") {
        return false;
    }
    text_eq(title, "Codex") || (starts_with(title, "Codex ") && !contains(title, "Monitor"))
}

/// The rule by which the foreground window is classified: none when the
/// handle is null; the overlay when it belongs to this process and its title
/// contains the overlay's title; Codex when it is Codex Desktop.
pub open spec fn foreground_rule(
    is_null: bool,
    own_process: bool,
    title: Seq<char>,
    overlay_title: Seq<char>,
    is_codex: bool,
) -> ForegroundKind {
    if is_null {
        ForegroundKind::Other
    } else if own_process && contains_text(title, overlay_title) {
        ForegroundKind::Overlay
    } else if is_codex {
        ForegroundKind::Codex
    } else {
        ForegroundKind::Other
    }
}

/// The overlay's own window is never taken for Codex Desktop: a foreground
/// window of this process whose title holds the overlay's title anywhere is
/// the overlay, whether or not the Codex rule would also accept it. A null
/// handle is nothing, and a window of another process is Codex exactly when
/// the Codex rule accepts it.
pub proof fn own_overlay_is_never_codex(
    a: Seq<char>,
    b: Seq<char>,
    overlay_title: Seq<char>,
    title: Seq<char>,
    own_process: bool,
    is_codex: bool,
)
    ensures
        foreground_rule(false, true, a + overlay_title + b, overlay_title, is_codex)
            == ForegroundKind::Overlay,
        foreground_rule(true, own_process, title, overlay_title, is_codex) == ForegroundKind::Other,
        foreground_rule(false, false, title, overlay_title, is_codex) == if is_codex {
            ForegroundKind::Codex
        } else {
            ForegroundKind::Other
        },
        foreground_rule(false, own_process, title, overlay_title, is_codex) == ForegroundKind::Codex
            ==> is_codex,
{
    let t = a + overlay_title + b;
    assert(t.subrange(a.len() as int, (a.len() + overlay_title.len()) as int) =~= overlay_title);
    assert(occurs_at(t, overlay_title, a.len() as int));
}

/// Classifies the foreground window from whether its handle is null, whether
/// its process is this one, its title, the overlay's title and whether it is
/// Codex Desktop.
pub fn classify_foreground(
    is_null: bool,
    own_process: bool,
    title: &str,
    overlay_title: &str,
    is_codex: bool,
) -> (r: ForegroundKind)
    ensures
        r == foreground_rule(is_null, own_process, title@, overlay_title@, is_codex),
{
    if is_null {
        return ForegroundKind::Other;
    }
    if own_process && contains(title, overlay_title) {
        return ForegroundKind::Overlay;
    }
    if is_codex {
        ForegroundKind::Codex
    } else {
        ForegroundKind::Other
    }
}

/// The length of the executable name held in a fixed, NUL-padded UTF-16
/// buffer: the index of the first NUL, or the whole buffer when there is none.
pub fn exe_name_len(buffer: &[u16]) -> (r: usize)
    ensures
        r <= buffer@.len(),
        forall|i: int| 0 <= i < r ==> buffer@[i] != 0,
        r < buffer@.len() ==> buffer@[r as int] == 0,
{
    let n = buffer.len();
    let mut i: usize = 0;
    while i < n
        invariant
            n == buffer@.len(),
            i <= n,
            forall|j: int| 0 <= j < i ==> buffer@[j] != 0,
        decreases n - i,
    {
        if buffer[i] == 0 {
            return i;
        }
        i = i + 1;
    }
    n
}

} // verus!
