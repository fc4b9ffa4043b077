//! The liveness monitor of one tracked process, as the decisions it takes
//! between two probes. Sleeping and probing are the caller's part; the
//! caller never holds the state's lock while it sleeps.

use vstd::prelude::*;
use crate::daemon::DaemonState;
use crate::priority::liveness_path;

verus! {

/// What a monitor does next.
#[derive(Debug, Clone, Copy, PartialEq, Eq, Structural)]
pub enum WatchdogAction {
    /// Sleep this many seconds, then probe the process.
    Sleep { seconds: u64 },
    /// The process is gone: clean up after it, then end.
    Cleanup { pid: u32 },
    /// The monitor has ended.
    Stop,
}

/// The monitor of one process.
#[derive(Debug, Clone, Copy, PartialEq, Eq, Structural)]
pub struct WatchdogTask {
    /// The process watched.
    pub pid: u32,
    /// Seconds between two probes.
    pub interval_sec: u64,
    /// Whether the monitor has asked for the cleanup already.
    pub finished: bool,
}

impl WatchdogTask {
    /// The monitor after a probe that found the process alive or not.
    pub open spec fn after_probe(self, alive: bool) -> WatchdogTask {
        if self.finished || alive {
            self
        } else {
            WatchdogTask { finished: true, ..self }
        }
    }

    /// What the monitor does after a probe: nothing more once it has ended,
    /// another round while the process lives, the cleanup when it is gone.
    pub open spec fn action_after(self, alive: bool) -> WatchdogAction {
        if self.finished {
            WatchdogAction::Stop
        } else if alive {
            WatchdogAction::Sleep { seconds: self.interval_sec }
        } else {
            WatchdogAction::Cleanup { pid: self.pid }
        }
    }

    /// What the monitor does before its first probe.
    pub fn first_action(&self) -> (action: WatchdogAction)
        ensures
            action == self.action_after(true),
    {
        if self.finished {
            WatchdogAction::Stop
        } else {
            WatchdogAction::Sleep { seconds: self.interval_sec }
        }
    }

    /// Takes in the result of a probe and says what to do next.
    pub fn on_probe(&mut self, alive: bool) -> (action: WatchdogAction)
        ensures
            action == old(self).action_after(alive),
            *final(self) == old(self).after_probe(alive),
    {
        if self.finished {
            WatchdogAction::Stop
        } else if alive {
            WatchdogAction::Sleep { seconds: self.interval_sec }
        } else {
            self.finished = true;
            WatchdogAction::Cleanup { pid: self.pid }
        }
    }
}

/// A monitor for `pid` that probes every `interval_sec` seconds.
pub fn start_pid_watchdog(pid: u32, interval_sec: u64) -> (task: WatchdogTask)
    ensures
        task == (WatchdogTask { pid, interval_sec, finished: false }),
{
    WatchdogTask { pid, interval_sec, finished: false }
}

/// The actions that a monitor takes over a series of probes, one for each.
pub open spec fn actions_over(task: WatchdogTask, probes: Seq<bool>) -> Seq<WatchdogAction>
    decreases probes.len(),
{
    if probes.len() == 0 {
        Seq::empty()
    } else {
        seq![task.action_after(probes[0])] + actions_over(
            task.after_probe(probes[0]),
            probes.drop_first(),
        )
    }
}

/// Over any series of probes a monitor takes one action for each. It asks
/// for the cleanup at the first probe that finds the process gone and at no
/// other; before that it goes on sleeping, after that it has ended.
pub proof fn monitor_cleans_up_once(task: WatchdogTask, probes: Seq<bool>)
    ensures
        actions_over(task, probes).len() == probes.len(),
        forall|i: int|
            0 <= i < probes.len() ==> #[trigger] actions_over(task, probes)[i] == (if task.finished
                || exists|j: int| 0 <= j < i && !probes[j] {
                WatchdogAction::Stop
            } else if probes[i] {
                WatchdogAction::Sleep { seconds: task.interval_sec }
            } else {
                WatchdogAction::Cleanup { pid: task.pid }
            }),
    decreases probes.len(),
{
    if probes.len() > 0 {
        let next = task.after_probe(probes[0]);
        let rest = probes.drop_first();
        monitor_cleans_up_once(next, rest);
        assert forall|i: int| 0 <= i < probes.len() implies #[trigger] actions_over(task, probes)[i]
            == (if task.finished || exists|j: int| 0 <= j < i && !probes[j] {
            WatchdogAction::Stop
        } else if probes[i] {
            WatchdogAction::Sleep { seconds: task.interval_sec }
        } else {
            WatchdogAction::Cleanup { pid: task.pid }
        }) by {
            if i > 0 {
                assert(actions_over(task, probes)[i] == actions_over(next, rest)[i - 1]);
                assert(rest[i - 1] == probes[i]);
                if exists|j: int| 0 <= j < i - 1 && !rest[j] {
                    let j = choose|j: int| 0 <= j < i - 1 && !rest[j];
                    assert(!probes[j + 1]);
                }
                if exists|j: int| 0 <= j < i && !probes[j] {
                    let j = choose|j: int| 0 <= j < i && !probes[j];
                    if j > 0 {
                        assert(!rest[j - 1]);
                    }
                }
            }
        }
    }
}

/// `Path::exists` of the standard library: whether anything is found under
/// a path. The answer is the file system's, so nothing is claimed of it.
#[verifier::external_body]
fn path_exists(path: &str) -> (found: bool) {
    std::path::Path::new(path).exists()
}

impl DaemonState {
    /// Whether the process `pid` is in the process table at this moment.
    pub fn is_pid_alive(pid: u32) -> (alive: bool) {
        let path = liveness_path(pid);
        path_exists(path.as_str())
    }
}

impl WatchdogTask {
    /// Probes the process and says what to do next: what follows a probe
    /// that found the process alive, or what follows one that found it gone.
    pub fn poll(&mut self) -> (action: WatchdogAction)
        ensures
            exists|alive: bool|
                action == old(self).action_after(alive) && *final(self) == old(self).after_probe(
                    alive,
                ),
    {
        let alive = DaemonState::is_pid_alive(self.pid);
        let action = self.on_probe(alive);
        assert(action == old(self).action_after(alive) && *self == old(self).after_probe(alive));
        action
    }
}

} // verus!
