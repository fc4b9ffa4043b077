//! Starting the game: which argument names it, what its settings are filed
//! under, and what is handed to the operating system.

use vstd::prelude::*;
use vstd::string::*;
use crate::config::{opt_text, Config};
use crate::env::{lookup, merged_opt, with_game, with_gpu, env_defaults, EnvBuilder};
use crate::text::{
    ends_with,
    file_stem,
    file_stem_of,
    has_suffix,
    lowercase_of,
    str_eq,
    to_lowercase,
    views,
};
use crate::textmap::TextMap;

verus! {

/// The word after which the compatibility layer names the program to run.
pub const RUN_MARKER: &'static str = "waitforexitandrun";

/// The ending of a Windows executable's name.
pub const EXE_SUFFIX: &'static str = ".exe";

/// The name that stands for a path without a file name.
pub const UNKNOWN_NAME: &'static str = "unknown";

/// The name that a game's settings are filed under, given the stem of its
/// executable's path: the stem in lower case, or `unknown` without one.
pub open spec fn name_of_stem(stem: Option<Seq<char>>) -> Seq<char> {
    match stem {
        Some(s) => lowercase_of(s),
        None => UNKNOWN_NAME@,
    }
}

/// The name that the settings of the game at `path` are filed under.
pub open spec fn stem_name(path: Seq<char>) -> Seq<char> {
    name_of_stem(file_stem_of(path))
}

/// `arg` names a Windows executable.
pub open spec fn is_exe(arg: Seq<char>) -> bool {
    has_suffix(arg, EXE_SUFFIX@)
}

/// `i` is where the run marker first stands in `args`.
pub open spec fn is_first_marker(args: Seq<Seq<char>>, i: int) -> bool {
    &&& 0 <= i < args.len()
    &&& args[i] == RUN_MARKER@
    &&& forall|k: int| 0 <= k < i ==> #[trigger] args[k] != RUN_MARKER@
}

/// `j` is where the first executable after position `i` stands in `args`.
pub open spec fn is_first_exe_after(args: Seq<Seq<char>>, i: int, j: int) -> bool {
    &&& i < j < args.len()
    &&& is_exe(args[j])
    &&& forall|k: int| i < k < j ==> !is_exe(#[trigger] args[k])
}

/// `j` is where the last executable stands in `args`.
pub open spec fn is_last_exe(args: Seq<Seq<char>>, j: int) -> bool {
    &&& 0 <= j < args.len()
    &&& is_exe(args[j])
    &&& forall|k: int| j < k < args.len() ==> !is_exe(#[trigger] args[k])
}

/// The run marker stands in `args` and an executable follows it.
pub open spec fn has_marked_exe(args: Seq<Seq<char>>) -> bool {
    exists|i: int, j: int| is_first_marker(args, i) && is_first_exe_after(args, i, j)
}

/// `j` is the position of the argument that names the game: the first
/// executable after the run marker; without one, the last executable of
/// all; without any, the first argument.
pub open spec fn is_game_arg(args: Seq<Seq<char>>, j: int) -> bool {
    if has_marked_exe(args) {
        exists|i: int| is_first_marker(args, i) && is_first_exe_after(args, i, j)
    } else if exists|k: int| 0 <= k < args.len() && is_exe(#[trigger] args[k]) {
        is_last_exe(args, j)
    } else {
        j == 0
    }
}

/// The name for a stem that has been taken off a path already.
pub fn name_from_stem(stem: Option<String>) -> (name: String)
    ensures
        name@ == name_of_stem(opt_text(stem)),
{
    match stem {
        Some(s) => to_lowercase(s.as_str()),
        None => String::from_str(UNKNOWN_NAME),
    }
}

/// The name that the settings of the game at `path` are filed under.
pub fn extract_stem(path: &str) -> (name: String)
    ensures
        name@ == stem_name(path@),
{
    name_from_stem(file_stem(path))
}

/// The name of an executable, given its path and the stem that was taken
/// off it: the stem as it is written, or the whole path without one.
pub fn name_or_path(stem: Option<String>, path: &str) -> (name: String)
    ensures
        name@ == (match stem {
            Some(s) => s@,
            None => path@,
        }),
{
    match stem {
        Some(s) => s,
        None => String::from_str(path),
    }
}

/// The name of the executable at `path`: its stem as it is written, or the
/// whole path where it has no file name.
pub fn get_executable_name(path: &str) -> (name: String)
    ensures
        name@ == (match file_stem_of(path@) {
            Some(stem) => stem,
            None => path@,
        }),
{
    name_or_path(file_stem(path), path)
}

/// Where the run marker first stands in `args`, if it does.
fn find_marker(args: &[String]) -> (at: Option<usize>)
    ensures
        match at {
            Some(i) => is_first_marker(views(args@), i as int) && i < usize::MAX,
            None => forall|k: int| 0 <= k < args@.len() ==> #[trigger] views(args@)[k] != RUN_MARKER@,
        },
{
    let mut i: usize = 0;
    while i < args.len()
        invariant
            0 <= i <= args@.len(),
            forall|k: int| 0 <= k < i ==> #[trigger] views(args@)[k] != RUN_MARKER@,
        decreases args.len() - i,
    {
        if str_eq(args[i].as_str(), RUN_MARKER) {
            return Some(i);
        }
        i = i + 1;
    }
    None
}

/// Where the first executable from position `from` on stands, if any does.
fn find_exe_from(args: &[String], from: usize) -> (at: Option<usize>)
    ensures
        match at {
            Some(j) => from <= j < args@.len() && is_exe(views(args@)[j as int]) && forall|k: int|
                from <= k < j ==> !is_exe(#[trigger] views(args@)[k]),
            None => forall|k: int| from <= k < args@.len() ==> !is_exe(#[trigger] views(args@)[k]),
        },
{
    let mut j: usize = from;
    while j < args.len()
        invariant
            from <= j,
            forall|k: int| from <= k < j && k < args@.len() ==> !is_exe(#[trigger] views(args@)[k]),
        decreases args.len() - j,
    {
        if ends_with(args[j].as_str(), EXE_SUFFIX) {
            return Some(j);
        }
        j = j + 1;
    }
    None
}

/// Where the last executable stands, if any does.
fn find_last_exe(args: &[String]) -> (at: Option<usize>)
    ensures
        match at {
            Some(j) => is_last_exe(views(args@), j as int),
            None => forall|k: int| 0 <= k < args@.len() ==> !is_exe(#[trigger] views(args@)[k]),
        },
{
    let mut j: usize = args.len();
    while j > 0
        invariant
            0 <= j <= args@.len(),
            forall|k: int| j <= k < args@.len() ==> !is_exe(#[trigger] views(args@)[k]),
        decreases j,
    {
        j = j - 1;
        if ends_with(args[j].as_str(), EXE_SUFFIX) {
            return Some(j);
        }
    }
    None
}

/// Where the first executable after the run marker stands, if the marker
/// stands in `args` and an executable follows it.
fn find_marked_exe(args: &[String]) -> (at: Option<usize>)
    ensures
        match at {
            Some(j) => exists|i: int|
                is_first_marker(views(args@), i) && is_first_exe_after(views(args@), i, j as int),
            None => !has_marked_exe(views(args@)),
        },
{
    match find_marker(args) {
        Some(i) => find_exe_from(args, i + 1),
        None => None,
    }
}

/// The position of the argument that names the game.
pub fn game_arg_index(args: &[String]) -> (at: usize)
    requires
        args@.len() > 0,
    ensures
        at < args@.len(),
        is_game_arg(views(args@), at as int),
{
    match find_marked_exe(args) {
        Some(j) => j,
        None => match find_last_exe(args) {
            Some(j) => j,
            None => 0,
        },
    }
}

/// The name that the settings of the game started by `args` are filed
/// under.
pub fn detect_game_exec(args: &[String]) -> (name: String)
    requires
        args@.len() > 0,
    ensures
        exists|j: int|
            0 <= j < args@.len() && is_game_arg(views(args@), j) && name@ == stem_name(
                views(args@)[j],
            ),
{
    let at = game_arg_index(args);
    extract_stem(args[at].as_str())
}

/// The game's process: what to start, with which arguments and in which
/// environment, and the process once it runs.
pub struct Launcher {
    pub program: String,
    pub args: Vec<String>,
    pub vars: TextMap<String>,
    /// The running process, by its identifier.
    pub child: Option<u32>,
}

/// What is reported of a wait without a process.
pub open spec fn no_process() -> Seq<char> {
    "No running process to wait for"@
}

impl Launcher {
    /// A launcher for the command line `args`: its first word is the
    /// program, the rest are the program's arguments, and the environment is
    /// the one the configuration gives for the game that the line names.
    pub fn new(args: Vec<String>, config: &Config) -> (launcher: Self)
        requires
            args@.len() > 0,
        ensures
            launcher.program@ == args@[0]@,
            views(launcher.args@) == views(args@).drop_first(),
            launcher.child is None,
            exists|j: int|
                0 <= j < args@.len() && is_game_arg(views(args@), j) && launcher.vars@
                    == merged_opt(
                    with_game(
                        with_gpu(env_defaults(), opt_text(config.gpu.gpu_name)),
                        lookup(config.game@, stem_name(views(args@)[j])),
                    ),
                    lookup(config.env@, stem_name(views(args@)[j])),
                ),
    {
        let game_exec = detect_game_exec(args.as_slice());
        let vars = EnvBuilder::new().with_config(config, &game_exec);
        let program = args[0].clone();
        let mut rest: Vec<String> = Vec::new();
        let mut i: usize = 1;
        while i < args.len()
            invariant
                1 <= i <= args@.len(),
                rest@.len() == i - 1,
                forall|k: int| 0 <= k < i - 1 ==> (#[trigger] rest@[k])@ == args@[k + 1]@,
            decreases args.len() - i,
        {
            rest.push(args[i].clone());
            i = i + 1;
        }
        Launcher { program, args: rest, vars, child: None }
    }

    /// Takes in what starting the process gave: its identifier, which is
    /// kept, or the reason why it did not start.
    pub fn spawn(&mut self, started: Result<u32, String>) -> (result: Result<u32, String>)
        ensures
            result == started,
            final(self).child == (match started {
                Ok(pid) => Some(pid),
                Err(_) => old(self).child,
            }),
            final(self).program == old(self).program,
            final(self).args == old(self).args,
            final(self).vars == old(self).vars,
    {
        match &started {
            Ok(pid) => {
                self.child = Some(*pid);
            },
            Err(_) => {},
        }
        started
    }

    /// Takes in what waiting for the process gave: the exit code, if the
    /// process ended with one, or the reason why waiting failed. Without a
    /// process there is nothing to wait for, which is an error. A process
    /// that ended without an exit code counts as ended with -1.
    pub fn wait(&self, status: Result<Option<i32>, String>) -> (result: Result<i32, String>)
        ensures
            match (self.child, status) {
                (None, _) => result matches Err(e) && e@ == no_process(),
                (Some(_), Ok(Some(code))) => result == Ok::<i32, String>(code),
                (Some(_), Ok(None)) => result == Ok::<i32, String>(-1i32),
                (Some(_), Err(reason)) => result == Err::<i32, String>(reason),
            },
    {
        if self.child.is_none() {
            return Err(String::from_str("No running process to wait for"));
        }
        match status {
            Ok(Some(code)) => Ok(code),
            Ok(None) => Ok(-1),
            Err(reason) => Err(reason),
        }
    }
}

/// A process of the stand-alone launcher: what to start, with which arguments
/// and in which environment.
pub struct ProcessLauncher {
    pub executable: String,
    pub args: Vec<String>,
    pub env_vars: TextMap<String>,
}

impl ProcessLauncher {
    /// A launcher for `executable` with an empty environment.
    pub fn new(executable: String, args: Vec<String>) -> (launcher: Self)
        ensures
            launcher.executable == executable,
            launcher.args == args,
            launcher.env_vars@ == Map::<Seq<char>, Seq<char>>::empty(),
    {
        ProcessLauncher { executable, args, env_vars: TextMap::new() }
    }

    /// The launcher with `env_vars` as its environment.
    pub fn with_env(self, env_vars: TextMap<String>) -> (launcher: Self)
        ensures
            launcher.executable == self.executable,
            launcher.args == self.args,
            launcher.env_vars == env_vars,
    {
        ProcessLauncher { executable: self.executable, args: self.args, env_vars }
    }

    /// The exit code to pass on, given the one the process ended with: a
    /// process that ended without an exit code counts as ended with 1.
    pub fn exit_code(status: Option<i32>) -> (code: i32)
        ensures
            code == (match status {
                Some(c) => c,
                None => 1,
            }),
    {
        match status {
            Some(c) => c,
            None => 1,
        }
    }
}

} // verus!
