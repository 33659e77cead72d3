# codex_chat_tree_overlay

The verified core of a Windows sidecar overlay for Codex Desktop. The overlay
docks a narrow panel beside the focused Codex window, shows the chat tree of
the active session read from a helper `codex app-server`, and switches the
session's current node on request.

- `src/` is the library, checked by Verus:
  - `model.rs`: window rectangles, chat trees, the overlay snapshot.
  - `text.rs`: trimming, substring search, prefix and case-insensitive
    comparison, each against its specification.
  - `json.rs`: the JSON values exchanged with the helper and their lookups.
  - `bridge.rs`: the helper protocol (messages, responses, chat-tree parsing)
    and the helper's binary and search-path resolution.
  - `window_probe.rs`: which window is Codex Desktop, what is in front.
  - `runtime.rs`: the overlay's decisions per poll and per branch switch, and
    the docking geometry.
  - `cli.rs`: the command-line entry points.
- `app/` is the executable around it: tauri windows and tray, Win32 queries,
  the helper process and its pipes, files and environment.
- `tests/` runs the library on concrete values.
