use vstd::prelude::*;

use crate::text::text_eq;

verus! {

/// What the overlay executable is asked to do by its first argument.
#[derive(Debug, Clone, PartialEq, Eq)]
pub enum CliCommand {
    /// No argument: nothing to do.
    Nothing,
    /// `trigger-refresh`: write Codex Desktop's refresh signal.
    TriggerRefresh,
    /// `window-probe`: print how the foreground window is classified.
    WindowProbe,
    /// `chat-tree-dump`: print a session's chat tree.
    ChatTreeDump,
    /// `set-current-node`: switch a session's current node.
    SetCurrentNode,
    /// Any other word, kept for the error message.
    Unknown(String),
}

/// `i` is the first index of `args` that holds `flag`.
pub open spec fn is_first_flag(args: Seq<String>, flag: Seq<char>, i: int) -> bool {
    &&& 0 <= i < args.len()
    &&& args[i]@ == flag
    &&& forall|j: int| 0 <= j < i ==> (#[trigger] args[j])@ != flag
}

/// The argument that follows the first occurrence of `flag`, if any.
pub open spec fn value_after_flag(args: Seq<String>, flag: Seq<char>) -> Option<Seq<char>> {
    if exists|i: int| is_first_flag(args, flag, i) {
        let i = choose|i: int| is_first_flag(args, flag, i);
        if i + 1 < args.len() {
            Some(args[i + 1]@)
        } else {
            None
        }
    } else {
        None
    }
}

/// Some argument is `flag`.
pub open spec fn has_flag_spec(args: Seq<String>, flag: Seq<char>) -> bool {
    exists|i: int| 0 <= i < args.len() && (#[trigger] args[i])@ == flag
}

/// The argument after the first `flag`, as in `--thread <id>`.
pub fn value_after(args: &[String], flag: &str) -> (r: Option<String>)
    ensures
        match r {
            Some(v) => value_after_flag(args@, flag@) == Some(v@),
            None => value_after_flag(args@, flag@) is None,
        },
{
    let n = args.len();
    let mut i: usize = 0;
    while i < n
        invariant
            n == args@.len(),
            i <= n,
            forall|j: int| 0 <= j < i ==> (#[trigger] args@[j])@ != flag@,
        decreases n - i,
    {
        if text_eq(args[i].as_str(), flag) {
            assert(is_first_flag(args@, flag@, i as int));
            proof {
                let k = choose|k: int| is_first_flag(args@, flag@, k);
                if k < i {
                    assert(args@[k]@ != flag@);
                } else if k > i {
                    assert(args@[i as int]@ != flag@);
                }
            }
            if i + 1 < n {
                return Some(args[i + 1].clone());
            } else {
                return None;
            }
        }
        i = i + 1;
    }
    assert(!exists|k: int| is_first_flag(args@, flag@, k)) by {
        assert forall|k: int| !is_first_flag(args@, flag@, k) by {
            if 0 <= k < n {
                assert(args@[k]@ != flag@);
            }
        }
    }
    None
}

/// Whether some argument is exactly `flag`, as `--refresh`.
pub fn has_flag(args: &[String], flag: &str) -> (r: bool)
    ensures
        r == has_flag_spec(args@, flag@),
{
    let n = args.len();
    let mut i: usize = 0;
    while i < n
        invariant
            n == args@.len(),
            i <= n,
            forall|j: int| 0 <= j < i ==> (#[trigger] args@[j])@ != flag@,
        decreases n - i,
    {
        if text_eq(args[i].as_str(), flag) {
            assert(args@[i as int]@ == flag@);
            return true;
        }
        i = i + 1;
    }
    false
}

/// The argument after `flag`, or the error `<flag> <id> is required`.
pub fn required_value_after(args: &[String], flag: &str) -> (r: Result<String, String>)
    ensures
        match r {
            Ok(v) => value_after_flag(args@, flag@) == Some(v@),
            Err(e) => value_after_flag(args@, flag@) is None && e@ == flag@ + " <id> is required"@,
        },
{
    match value_after(args, flag) {
        Some(v) => Ok(v),
        None => {
            let mut m = String::from_str(flag);
            m.append(" <id> is required");
            Err(m)
        },
    }
}

/// Reads the command from the first argument (the arguments after the
/// program's name).
pub fn cli_command(args: &[String]) -> (r: CliCommand)
    ensures
        args@.len() == 0 <==> r == CliCommand::Nothing,
        args@.len() > 0 ==> (args@[0]@ == "trigger-refresh"@ <==> r == CliCommand::TriggerRefresh),
        args@.len() > 0 ==> (args@[0]@ == "window-probe"@ <==> r == CliCommand::WindowProbe),
        args@.len() > 0 ==> (args@[0]@ == "chat-tree-dump"@ <==> r == CliCommand::ChatTreeDump),
        args@.len() > 0 ==> (args@[0]@ == "set-current-node"@ <==> r == CliCommand::SetCurrentNode),
        r matches CliCommand::Unknown(w) ==> args@.len() > 0 && w@ == args@[0]@,
{
    proof {
        reveal_strlit("trigger-refresh");
        reveal_strlit("window-probe");
        reveal_strlit("chat-tree-dump");
        reveal_strlit("set-current-node");
        assert("trigger-refresh"@.len() == 15);
        assert("window-probe"@.len() == 12);
        assert("chat-tree-dump"@.len() == 14);
        assert("set-current-node"@.len() == 16);
    }
    if args.len() == 0 {
        return CliCommand::Nothing;
    }
    let first = args[0].as_str();
    if text_eq(first, "trigger-refresh") {
        CliCommand::TriggerRefresh
    } else if text_eq(first, "window-probe") {
        CliCommand::WindowProbe
    } else if text_eq(first, "chat-tree-dump") {
        CliCommand::ChatTreeDump
    } else if text_eq(first, "set-current-node") {
        CliCommand::SetCurrentNode
    } else {
        CliCommand::Unknown(String::from_str(first))
    }
}

/// What the executable does for its arguments, once they have been checked:
/// the commands that talk to the helper carry the session named by
/// `--thread`.
#[derive(Debug, Clone, PartialEq, Eq)]
pub enum CliPlan {
    Nothing,
    TriggerRefresh,
    WindowProbe,
    DumpChatTree(String),
    SetCurrentNode(String),
}

/// Checks the arguments before anything is started: an unknown command is
/// refused, and a command that needs the helper is refused unless `--thread`
/// is followed by a session id, so that no helper is spawned for it.
pub fn plan_cli(args: &[String]) -> (r: Result<CliPlan, String>)
    ensures
        args@.len() == 0 ==> r == Ok::<CliPlan, String>(CliPlan::Nothing),
        args@.len() > 0 ==> (args@[0]@ == "trigger-refresh"@ <==> r == Ok::<CliPlan, String>(
            CliPlan::TriggerRefresh,
        )),
        args@.len() > 0 ==> (args@[0]@ == "window-probe"@ <==> r == Ok::<CliPlan, String>(
            CliPlan::WindowProbe,
        )),
        args@.len() > 0 && (args@[0]@ == "chat-tree-dump"@ || args@[0]@ == "set-current-node"@)
            ==> match value_after_flag(args@, "--thread"@) {
            Some(t) => match r {
                Ok(CliPlan::DumpChatTree(id)) => args@[0]@ == "chat-tree-dump"@ && id@ == t,
                Ok(CliPlan::SetCurrentNode(id)) => args@[0]@ == "set-current-node"@ && id@ == t,
                _ => false,
            },
            None => r matches Err(e) && e@ == "--thread"@ + " <id> is required"@,
        },
        args@.len() > 0 && !(args@[0]@ == "chat-tree-dump"@ || args@[0]@ == "set-current-node"@)
            ==> match r {
            Err(e) => e@ == "Unknown command: "@ + args@[0]@,
            Ok(_) => args@[0]@ == "trigger-refresh"@ || args@[0]@ == "window-probe"@,
        },
        r is Err ==> args@.len() > 0 && args@[0]@ != "trigger-refresh"@ && args@[0]@
            != "window-probe"@,
{
    proof {
        reveal_strlit("trigger-refresh");
        reveal_strlit("window-probe");
        reveal_strlit("chat-tree-dump");
        reveal_strlit("set-current-node");
        assert("trigger-refresh"@.len() == 15);
        assert("window-probe"@.len() == 12);
        assert("chat-tree-dump"@.len() == 14);
        assert("set-current-node"@.len() == 16);
    }
    match cli_command(args) {
        CliCommand::Nothing => Ok(CliPlan::Nothing),
        CliCommand::TriggerRefresh => Ok(CliPlan::TriggerRefresh),
        CliCommand::WindowProbe => Ok(CliPlan::WindowProbe),
        CliCommand::ChatTreeDump => match required_value_after(args, "--thread") {
            Ok(t) => Ok(CliPlan::DumpChatTree(t)),
            Err(e) => Err(e),
        },
        CliCommand::SetCurrentNode => match required_value_after(args, "--thread") {
            Ok(t) => Ok(CliPlan::SetCurrentNode(t)),
            Err(e) => Err(e),
        },
        CliCommand::Unknown(word) => Err(unknown_command_message(word.as_str())),
    }
}

/// The error for an unknown command word.
pub fn unknown_command_message(word: &str) -> (r: String)
    ensures
        r@ == "Unknown command: "@ + word@,
{
    let mut m = String::from_str("Unknown command: ");
    m.append(word);
    m
}

} // verus!
