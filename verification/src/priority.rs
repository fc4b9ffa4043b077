//! Process priority: the nice value that a setting stands for, and the
//! command that applies it.

use vstd::prelude::*;
use vstd::string::*;
use crate::text::{decimal, i64_to_string, signed_decimal, u64_to_string, views};

verus! {

/// The program that changes a running process's priority.
pub const RENICE: &'static str = "renice";

/// The option of that program which takes the process.
pub const RENICE_PID_FLAG: &'static str = "-p";

/// The nice value for a priority setting: the setting's size, negated, so
/// that a larger setting means a more favoured process.
pub open spec fn nice_value(priority: i32) -> int {
    if priority > 0 {
        -priority
    } else {
        priority as int
    }
}

/// The path whose existence shows that the process `pid` is running.
pub open spec fn proc_path(pid: u32) -> Seq<char> {
    "/proc/"@ + decimal(pid as nat)
}

/// Builds the path whose existence shows that the process `pid` is running.
pub fn liveness_path(pid: u32) -> (path: String)
    ensures
        path@ == proc_path(pid),
{
    let mut path = String::from_str("/proc/");
    let digits = u64_to_string(pid as u64);
    path.append(digits.as_str());
    path
}

/// Sets the priority of a process.
pub struct PriorityManager;

impl PriorityManager {
    /// The nice value that `priority` stands for.
    pub fn nice_of(priority: i32) -> (nice: i32)
        ensures
            nice == nice_value(priority),
            nice <= 0,
    {
        if priority > 0 {
            -priority
        } else {
            priority
        }
    }

    /// The command line that gives the process `pid` the nice value that
    /// `priority` stands for.
    pub fn set_priority(pid: u32, priority: i32) -> (line: Vec<String>)
        ensures
            views(line@) == seq![
                RENICE@,
                signed_decimal(nice_value(priority)),
                RENICE_PID_FLAG@,
                decimal(pid as nat),
            ],
    {
        let nice = PriorityManager::nice_of(priority);
        let mut line: Vec<String> = Vec::new();
        line.push(String::from_str(RENICE));
        line.push(i64_to_string(nice as i64));
        line.push(String::from_str(RENICE_PID_FLAG));
        line.push(u64_to_string(pid as u64));
        line
    }

    /// Whether the command did what it was run for.
    pub fn succeeded(status: Option<i32>) -> (ok: bool)
        ensures
            ok == (status == Some(0i32)),
    {
        match status {
            Some(code) => code == 0,
            None => false,
        }
    }
}

} // verus!
