//! The command line: which operation the arguments ask for, and on which
//! workspaces.
use vstd::prelude::*;

use crate::error::HyprwsError;
use crate::session::{Operation, Session, SessionModel};
use crate::workspace::{arg_text, valid_workspaces, workspace_arg, workspace_pair};

verus! {

/// What the command line asks for.
pub enum Command {
    /// Print the usage text.
    Help,
    /// The first argument, if there is one, is no known option: report it,
    /// then print the usage text.
    Unrecognized(Option<String>),
    /// Run this operation.
    Run(Session),
}

/// `--help` or `-h`.
pub open spec fn is_help(a: Seq<char>) -> bool {
    a == "--help"@ || a == "-h"@
}

/// `--swap` or `-s`.
pub open spec fn is_swap(a: Seq<char>) -> bool {
    a == "--swap"@ || a == "-s"@
}

/// `--dump` or `-d`.
pub open spec fn is_dump(a: Seq<char>) -> bool {
    a == "--dump"@ || a == "-d"@
}

/// `--kill` or `-k`.
pub open spec fn is_kill(a: Seq<char>) -> bool {
    a == "--kill"@ || a == "-k"@
}

/// An option that names an operation.
pub open spec fn is_operation(a: Seq<char>) -> bool {
    is_swap(a) || is_dump(a) || is_kill(a)
}

/// The argument at `i`, if there is one.
pub open spec fn arg(args: Seq<String>, i: int) -> Option<Seq<char>> {
    if 0 <= i < args.len() {
        Some(args[i]@)
    } else {
        None
    }
}

/// The kill operation that `target` asks for, if it is a valid workspace.
pub open spec fn kill_request(target: Option<Seq<char>>) -> Option<Operation> {
    match workspace_arg(target) {
        Some(t) => Some(Operation::Kill { target: t }),
        None => None,
    }
}

/// The dump operation that `start` and `end` ask for, if both are valid
/// workspaces.
pub open spec fn dump_request(start: Option<Seq<char>>, end: Option<Seq<char>>) -> Option<Operation> {
    match workspace_pair(start, end) {
        Some((s, e)) => Some(Operation::Dump { start: s, end: e }),
        None => None,
    }
}

/// The swap operation that `start` and `end` ask for, if both are valid
/// workspaces.
pub open spec fn swap_request(start: Option<Seq<char>>, end: Option<Seq<char>>) -> Option<Operation> {
    match workspace_pair(start, end) {
        Some((s, e)) => Some(Operation::Swap { start: s, end: e }),
        None => None,
    }
}

/// A session of `op` where `op` is given, `InvalidWorkspaceId` where not.
pub open spec fn begins(r: Result<Session, HyprwsError>, op: Option<Operation>) -> bool {
    match (r, op) {
        (Ok(s), Some(o)) => s.wf() && s@ == SessionModel::start(o),
        (Err(e), None) => e == HyprwsError::InvalidWorkspaceId,
        _ => false,
    }
}

/// The operation that the arguments ask for, where the option names one and
/// its workspaces are valid.
pub open spec fn requested(args: Seq<String>) -> Option<Operation> {
    if args.len() < 2 {
        None
    } else if is_swap(args[1]@) {
        swap_request(arg(args, 2), arg(args, 3))
    } else if is_dump(args[1]@) {
        dump_request(arg(args, 2), arg(args, 3))
    } else if is_kill(args[1]@) {
        kill_request(arg(args, 2))
    } else {
        None
    }
}

/// Starts closing every window of workspace `target` that is not pinned.
/// Fails with `InvalidWorkspaceId`, before anything is asked of the
/// compositor, unless `target` is a valid workspace.
pub fn kill_workspace(target: Option<&String>) -> (r: Result<Session, HyprwsError>)
    ensures
        begins(r, kill_request(arg_text(target))),
{
    match valid_workspaces(target, target) {
        Ok((t, _)) => Ok(Session::new(Operation::Kill { target: t })),
        Err(e) => Err(e),
    }
}

/// Starts moving every window of workspace `start` that is not pinned to
/// workspace `end`. Fails with `InvalidWorkspaceId`, before anything is
/// asked of the compositor, unless both are valid workspaces.
pub fn dump_windows(start: Option<&String>, end: Option<&String>) -> (r: Result<Session, HyprwsError>)
    ensures
        begins(r, dump_request(arg_text(start), arg_text(end))),
{
    match valid_workspaces(start, end) {
        Ok((s, e)) => Ok(Session::new(Operation::Dump { start: s, end: e })),
        Err(e) => Err(e),
    }
}

/// Starts exchanging the windows of workspaces `start` and `end` that are
/// not pinned. Fails with `InvalidWorkspaceId`, before anything is asked of
/// the compositor, unless both are valid workspaces.
pub fn swap_windows(start: Option<&String>, end: Option<&String>) -> (r: Result<Session, HyprwsError>)
    ensures
        begins(r, swap_request(arg_text(start), arg_text(end))),
{
    match valid_workspaces(start, end) {
        Ok((s, e)) => Ok(Session::new(Operation::Swap { start: s, end: e })),
        Err(e) => Err(e),
    }
}

/// Whether `a` is `long` or `short`.
fn is_flag(a: &String, long: &str, short: &str) -> (r: bool)
    ensures
        r == (a@ == long@ || a@ == short@),
{
    *a == long.to_owned() || *a == short.to_owned()
}

/// The argument at `i`, if there is one.
fn arg_at(args: &Vec<String>, i: usize) -> (r: Option<&String>)
    ensures
        arg_text(r) == arg(args@, i as int),
{
    if i < args.len() {
        Some(&args[i])
    } else {
        None
    }
}

/// Reads the command line `args` (the program's name first). The first
/// option decides: help; an operation, on the workspaces that follow it,
/// which fails with `InvalidWorkspaceId` where they are missing or invalid;
/// or, where there is no option or no known one, `Unrecognized`.
pub fn parse_command(args: &Vec<String>) -> (r: Result<Command, HyprwsError>)
    ensures
        match r {
            Ok(Command::Help) => args@.len() >= 2 && is_help(args@[1]@),
            Ok(Command::Unrecognized(a)) => if args@.len() < 2 {
                a is None
            } else {
                a == Some(args@[1]) && !is_help(args@[1]@) && !is_operation(args@[1]@)
            },
            Ok(Command::Run(s)) => requested(args@) == Some(s@.op) && s.wf() && s@
                == SessionModel::start(s@.op),
            Err(e) => e == HyprwsError::InvalidWorkspaceId && args@.len() >= 2 && !is_help(
                args@[1]@,
            ) && is_operation(args@[1]@) && requested(args@) is None,
        },
{
    if args.len() < 2 {
        return Ok(Command::Unrecognized(None));
    }
    let option = &args[1];
    proof {
        reveal_strlit("--help");
        reveal_strlit("-h");
        reveal_strlit("--swap");
        reveal_strlit("-s");
        reveal_strlit("--dump");
        reveal_strlit("-d");
        reveal_strlit("--kill");
        reveal_strlit("-k");
    }
    let started = if is_flag(option, "--help", "-h") {
        return Ok(Command::Help);
    } else if is_flag(option, "--swap", "-s") {
        swap_windows(arg_at(args, 2), arg_at(args, 3))
    } else if is_flag(option, "--dump", "-d") {
        dump_windows(arg_at(args, 2), arg_at(args, 3))
    } else if is_flag(option, "--kill", "-k") {
        kill_workspace(arg_at(args, 2))
    } else {
        return Ok(Command::Unrecognized(Some(option.clone())));
    };
    match started {
        Ok(s) => Ok(Command::Run(s)),
        Err(e) => Err(e),
    }
}

} // verus!
