//! The commands that a user asks to be run before a game starts and after
//! it has ended.

use vstd::prelude::*;
use vstd::string::*;
use crate::text::views;

verus! {

/// The shell that runs a hook.
pub const HOOK_SHELL: &'static str = "sh";

/// The shell's option that takes the command.
pub const HOOK_FLAG: &'static str = "-c";

/// The command line that hands `cmd` to the shell.
pub open spec fn shell_line(cmd: Seq<char>) -> Seq<Seq<char>> {
    seq![HOOK_SHELL@, HOOK_FLAG@, cmd]
}

/// The command line for an optional hook.
pub open spec fn hook_line(hook: Option<&str>) -> Option<Seq<Seq<char>>> {
    match hook {
        Some(cmd) => Some(shell_line(cmd@)),
        None => None,
    }
}

/// View of an optional command line.
pub open spec fn opt_line(line: Option<Vec<String>>) -> Option<Seq<Seq<char>>> {
    match line {
        Some(words) => Some(views(words@)),
        None => None,
    }
}

/// Decides what to run for a hook.
pub struct HookRunner;

impl HookRunner {
    /// The command line that runs `cmd`.
    pub fn execute_hook(cmd: &str) -> (line: Vec<String>)
        ensures
            views(line@) == shell_line(cmd@),
    {
        let mut line: Vec<String> = Vec::new();
        line.push(String::from_str(HOOK_SHELL));
        line.push(String::from_str(HOOK_FLAG));
        line.push(String::from_str(cmd));
        line
    }

    /// The command line to run before the game starts, if a hook is set.
    pub fn run_init(hook: Option<&str>) -> (line: Option<Vec<String>>)
        ensures
            opt_line(line) == hook_line(hook),
    {
        match hook {
            Some(cmd) => Some(HookRunner::execute_hook(cmd)),
            None => None,
        }
    }

    /// The command line to run after the game has ended, if a hook is set.
    pub fn run_shutdown(hook: Option<&str>) -> (line: Option<Vec<String>>)
        ensures
            opt_line(line) == hook_line(hook),
    {
        match hook {
            Some(cmd) => Some(HookRunner::execute_hook(cmd)),
            None => None,
        }
    }

    /// Whether a hook that ended with `status` did what it was run for. A
    /// hook that failed is reported, and the session goes on.
    pub fn succeeded(status: Option<i32>) -> (ok: bool)
        ensures
            ok == (status == Some(0i32)),
    {
        match status {
            Some(code) => code == 0,
            None => false,
        }
    }
}

} // verus!
