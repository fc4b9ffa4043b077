//! What holds of the lifecycle whatever the adapters answer.
//!
//! Each statement is about whole operations: the adapter requests that an
//! operation hands out from its first turn to its last, the state it leaves
//! behind and what it reports.

use vstd::prelude::*;
use crate::daemon::{Adapter, DaemonModel, TuningErrorView};
use crate::service::{
    apply_run,
    cleanup_run,
    follow_apply,
    follow_restore,
    reset_run,
    shutdown_run,
    restore_pass,
    Answers,
    AppliedView,
    RestoreReportView,
    TuningRequestView,
};

verus! {

/// Every tuning request ends within its three further turns, and every
/// restoring operation within its two.
pub proof fn operations_end(
    s: DaemonModel,
    request: Result<TuningRequestView, Seq<char>>,
    pid: u32,
    answers: Answers,
)
    ensures
        apply_run(s, request, answers).outcome is Some,
        apply_run(s, request, answers).calls.len() <= 3,
        reset_run(s, answers).report is Some,
        reset_run(s, answers).calls.len() <= 2,
        cleanup_run(s, pid, answers).report is Some,
        cleanup_run(s, pid, answers).calls.len() <= 2,
{
    reveal_with_fuel(follow_apply, 4);
    reveal_with_fuel(follow_restore, 3);
}

/// A reset with nothing tracked hands out no adapter request, leaves the
/// state as it is and reports success.
pub proof fn reset_when_idle_is_silent(
    s: DaemonModel,
    answers: Answers,
)
    requires
        !s.is_active(),
    ensures
        reset_run(s, answers).calls =~= Seq::empty(),
        reset_run(s, answers).state == s,
        reset_run(s, answers).report == Some(RestoreReportView::untouched()),
        RestoreReportView::untouched().outcome() is Ok,
{
    reveal_with_fuel(follow_restore, 3);
}

/// The cleanup after a death with nothing tracked hands out no adapter
/// request, leaves the state as it is and has nothing to report.
pub proof fn cleanup_when_idle_is_silent(
    s: DaemonModel,
    pid: u32,
    answers: Answers,
)
    requires
        !s.is_active(),
    ensures
        cleanup_run(s, pid, answers).calls =~= Seq::empty(),
        cleanup_run(s, pid, answers).state == s,
        cleanup_run(s, pid, answers).report == Some(RestoreReportView::untouched()),
{
    reveal_with_fuel(follow_restore, 3);
    assert(s.active =~= Set::empty());
    assert(s.without_pid(pid).active =~= s.active);
}

/// A reset always leaves nothing tracked, whatever the adapters answer and
/// whatever it reports.
pub proof fn reset_clears_tracking(
    s: DaemonModel,
    answers: Answers,
)
    ensures
        !reset_run(s, answers).state.is_active(),
        reset_run(s, answers).state.gpu == s.gpu,
        reset_run(s, answers).state.baseline_power_limit == s.baseline_power_limit,
        reset_run(s, answers).state.baseline_epp == s.baseline_epp,
{
    reveal_with_fuel(follow_restore, 3);
}

/// Resetting twice in a row: the second reset hands out no adapter request
/// and reports success, however the first one went.
pub proof fn reset_is_idempotent(
    s: DaemonModel,
    first: Answers,
    second: Answers,
)
    ensures
        reset_run(reset_run(s, first).state, second).calls =~= Seq::empty(),
        reset_run(reset_run(s, first).state, second).state == reset_run(s, first).state,
        reset_run(reset_run(s, first).state, second).report matches Some(report)
            && report.outcome() is Ok,
{
    reset_clears_tracking(s, first);
    reset_when_idle_is_silent(reset_run(s, first).state, second);
}

/// Cleaning up twice after the death of one process: the second cleanup
/// hands out no adapter request and leaves the state as it is.
pub proof fn cleanup_is_idempotent(
    s: DaemonModel,
    pid: u32,
    first: Answers,
    second: Answers,
)
    ensures
        cleanup_run(cleanup_run(s, pid, first).state, pid, second).calls =~= Seq::empty(),
        cleanup_run(cleanup_run(s, pid, first).state, pid, second).state == cleanup_run(
            s,
            pid,
            first,
        ).state,
        cleanup_run(cleanup_run(s, pid, first).state, pid, second).report == Some(
            RestoreReportView::untouched(),
        ),
{
    reveal_with_fuel(follow_restore, 3);
    let after = cleanup_run(s, pid, first).state;
    assert(after == s.without_pid(pid));
    assert(!after.active.contains(pid));
    assert(after.without_pid(pid).active =~= after.active);
}

/// A tuning request tracks its process exactly when it succeeds: a request
/// that ends in an error leaves the tracked set as it was. In either case
/// the opened GPU and the recorded power baseline stay as they were, and a
/// recorded CPU baseline is never replaced.
pub proof fn apply_tracks_only_on_success(
    s: DaemonModel,
    req: TuningRequestView,
    answers: Answers,
)
    ensures
        apply_run(s, Ok(req), answers).outcome matches Some(Ok(applied)) ==> {
            &&& apply_run(s, Ok(req), answers).state.active == s.active.insert(req.pid)
            &&& applied.pid == req.pid
            &&& applied.watchdog_interval_sec == req.sys_config.watchdog_interval_sec
        },
        apply_run(s, Ok(req), answers).outcome matches Some(Err(_)) ==> apply_run(
            s,
            Ok(req),
            answers,
        ).state.active == s.active,
        apply_run(s, Ok(req), answers).state.gpu == s.gpu,
        apply_run(s, Ok(req), answers).state.baseline_power_limit == s.baseline_power_limit,
        s.baseline_epp is Some ==> apply_run(s, Ok(req), answers).state.baseline_epp
            == s.baseline_epp,
{
    reveal_with_fuel(follow_apply, 4);
}

/// A payload that could not be decoded is answered with a configuration
/// error: no adapter request is handed out and the state stays as it is.
pub proof fn undecodable_request_changes_nothing(
    s: DaemonModel,
    message: Seq<char>,
    answers: Answers,
)
    ensures
        apply_run(s, Err(message), answers).calls =~= Seq::empty(),
        apply_run(s, Err(message), answers).state == s,
        apply_run(s, Err(message), answers).outcome == Some(
            Err::<AppliedView, TuningErrorView>(TuningErrorView::Config { message }),
        ),
{
    reveal_with_fuel(follow_apply, 4);
}

/// Two processes are tuned one after the other while nothing else is
/// tracked, then the first dies, then the second. The first death hands out
/// no adapter request and makes no restore pass; the second makes one; and
/// nothing is tracked afterwards. This holds however the adapters answer in
/// any of the four operations.
pub proof fn last_death_restores_once(
    s: DaemonModel,
    first: TuningRequestView,
    second: TuningRequestView,
    at_first: Answers,
    at_second: Answers,
    at_first_death: Answers,
    at_second_death: Answers,
)
    requires
        !s.is_active(),
        first.pid != second.pid,
        apply_run(s, Ok(first), at_first).outcome matches Some(Ok(_)),
        apply_run(apply_run(s, Ok(first), at_first).state, Ok(second), at_second).outcome matches Some(
            Ok(_),
        ),
    ensures
        ({
            let tuned = apply_run(
                apply_run(s, Ok(first), at_first).state,
                Ok(second),
                at_second,
            ).state;
            let one_left = cleanup_run(tuned, first.pid, at_first_death);
            let none_left = cleanup_run(one_left.state, second.pid, at_second_death);
            &&& one_left.calls =~= Seq::empty()
            &&& one_left.report == Some(RestoreReportView::untouched())
            &&& one_left.state.active =~= set![second.pid]
            &&& none_left.report matches Some(report) && report.restored
            &&& none_left.calls =~= follow_restore(
                restore_pass(none_left.state),
                at_second_death,
                2,
            ).calls
            &&& !none_left.state.is_active()
        }),
{
    reveal_with_fuel(follow_restore, 3);
    let after_first = apply_run(s, Ok(first), at_first).state;
    apply_tracks_only_on_success(s, first, at_first);
    apply_tracks_only_on_success(after_first, second, at_second);
    let tuned = apply_run(after_first, Ok(second), at_second).state;
    assert(s.active =~= Set::empty());
    assert(tuned.active =~= set![first.pid, second.pid]);
    assert(tuned.without_pid(first.pid).active =~= set![second.pid]);
    assert(set![second.pid].contains(second.pid));
    let one_left = cleanup_run(tuned, first.pid, at_first_death);
    assert(one_left.state == tuned.without_pid(first.pid));
    assert(one_left.state.without_pid(second.pid).active =~= Set::empty());
}

/// The cleanup after the death of `pid` makes a restore pass exactly when
/// `pid` was the only process tracked. So a process that came to be tracked
/// before the cleanup looked at the set keeps its tuning: no adapter request
/// is handed out, and that process is still tracked afterwards.
pub proof fn cleanup_spares_other_processes(
    s: DaemonModel,
    pid: u32,
    answers: Answers,
)
    ensures
        cleanup_run(s, pid, answers).report matches Some(report) && (report.restored <==> s.active
            =~= set![pid]),
        !(s.active =~= set![pid]) ==> cleanup_run(s, pid, answers).calls =~= Seq::empty(),
        cleanup_run(s, pid, answers).state.active =~= s.active.remove(pid),
        forall|other: u32|
            other != pid && s.active.contains(other) ==> cleanup_run(
                s,
                pid,
                answers,
            ).state.active.contains(other),
{
    reveal_with_fuel(follow_restore, 3);
    if s.active.contains(pid) && !s.without_pid(pid).is_active() {
        assert(s.active.remove(pid) =~= Set::empty());
        assert forall|x: u32| s.active.contains(x) implies x == pid by {
            if x != pid {
                assert(s.active.remove(pid).contains(x));
            }
        }
        assert(s.active =~= set![pid]);
    } else {
        if s.active =~= set![pid] {
            assert(set![pid].contains(pid));
            assert(s.active.remove(pid) =~= Set::empty());
        }
    }
}

/// A newcomer tuned between a death and its cleanup is spared: when the
/// request for another process has gone through, the cleanup for the dead
/// one hands out no adapter request and makes no restore pass.
pub proof fn newcomer_survives_cleanup(
    s: DaemonModel,
    dead: u32,
    newcomer: TuningRequestView,
    at_request: Answers,
    at_cleanup: Answers,
)
    requires
        newcomer.pid != dead,
        apply_run(s, Ok(newcomer), at_request).outcome matches Some(Ok(_)),
    ensures
        ({
            let run = cleanup_run(
                apply_run(s, Ok(newcomer), at_request).state,
                dead,
                at_cleanup,
            );
            &&& run.calls =~= Seq::empty()
            &&& run.report == Some(RestoreReportView::untouched())
            &&& run.state.active.contains(newcomer.pid)
        }),
{
    reveal_with_fuel(follow_restore, 3);
    apply_tracks_only_on_success(s, newcomer, at_request);
    let tuned = apply_run(s, Ok(newcomer), at_request).state;
    assert(tuned.active.contains(newcomer.pid));
    assert(tuned.without_pid(dead).active.contains(newcomer.pid));
}

/// A request whose GPU section is off hands out no request to the GPU
/// adapter, and one whose CPU section is off none to the CPU adapter,
/// whatever the state and whatever the adapters answer.
pub proof fn disabled_sections_call_no_adapter(
    s: DaemonModel,
    req: TuningRequestView,
    answers: Answers,
)
    ensures
        !req.gpu_config.enabled ==> forall|i: int|
            0 <= i < apply_run(s, Ok(req), answers).calls.len() ==> (#[trigger] apply_run(
                s,
                Ok(req),
                answers,
            ).calls[i]).adapter() != Adapter::Gpu,
        !req.cpu_config.enabled ==> forall|i: int|
            0 <= i < apply_run(s, Ok(req), answers).calls.len() ==> (#[trigger] apply_run(
                s,
                Ok(req),
                answers,
            ).calls[i]).adapter() != Adapter::Cpu,
        !req.sys_config.enabled ==> forall|i: int|
            0 <= i < apply_run(s, Ok(req), answers).calls.len() ==> (#[trigger] apply_run(
                s,
                Ok(req),
                answers,
            ).calls[i]).adapter() != Adapter::Priority,
{
    reveal_with_fuel(follow_apply, 4);
}

/// The power baseline is the default that the GPU adapter reported when the
/// device was opened, and it is on record before any power limit is set: a
/// state without an opened GPU hands out no request to the GPU adapter, the
/// opening records the reported default, and no operation changes it.
pub proof fn power_baseline_is_reported_default(
    s: DaemonModel,
    uuid: Option<Seq<char>>,
    default_limit: u32,
    req: TuningRequestView,
    pid: u32,
    answers: Answers,
)
    requires
        s.wf(),
    ensures
        s.gpu is None ==> forall|i: int|
            0 <= i < apply_run(s, Ok(req), answers).calls.len() ==> (#[trigger] apply_run(
                s,
                Ok(req),
                answers,
            ).calls[i]).adapter() != Adapter::Gpu,
        s.baseline_power_limit is None ==> s.after_gpu_init(
            uuid,
            Ok(default_limit),
        ).baseline_power_limit == Some(default_limit),
        s.baseline_power_limit is Some ==> s.after_gpu_init(
            uuid,
            Ok(default_limit),
        ).baseline_power_limit == s.baseline_power_limit,
        s.after_gpu_init(uuid, Ok(default_limit)).wf(),
        apply_run(s, Ok(req), answers).state.baseline_power_limit == s.baseline_power_limit,
        reset_run(s, answers).state.baseline_power_limit == s.baseline_power_limit,
        cleanup_run(s, pid, answers).state.baseline_power_limit == s.baseline_power_limit,
        apply_run(s, Ok(req), answers).state.wf(),
        reset_run(s, answers).state.wf(),
        cleanup_run(s, pid, answers).state.wf(),
{
    reveal_with_fuel(follow_apply, 4);
    reveal_with_fuel(follow_restore, 3);
}

/// A reset whose GPU step fails and whose CPU step succeeds reports a
/// partial restore that names the GPU alone, and nothing is tracked
/// afterwards. In general the report names exactly the steps that failed.
pub proof fn failed_restore_still_clears(
    s: DaemonModel,
    answers: Answers,
)
    requires
        s.is_active(),
    ensures
        !reset_run(s, answers).state.is_active(),
        reset_run(s, answers).report matches Some(report) && {
            &&& report.restored
            &&& report.gpu_error is Some <==> (s.gpu is Some && answers.gpu is Err)
            &&& report.cpu_error is Some <==> (s.baseline_epp is Some && answers.cpu is Err)
            &&& report.outcome() == (if report.gpu_error is None && report.cpu_error is None {
                Ok::<(), TuningErrorView>(())
            } else {
                Err::<(), TuningErrorView>(
                    TuningErrorView::PartialRestore {
                        gpu_failed: report.gpu_error is Some,
                        cpu_failed: report.cpu_error is Some,
                    },
                )
            })
        },
{
    reveal_with_fuel(follow_restore, 3);
}

/// What is once on record stays on record: no operation forgets the opened
/// GPU, and none changes a baseline that has been captured.
pub proof fn baselines_are_set_once(
    s: DaemonModel,
    request: Result<TuningRequestView, Seq<char>>,
    pid: u32,
    answers: Answers,
)
    ensures
        apply_run(s, request, answers).state.gpu == s.gpu,
        reset_run(s, answers).state.gpu == s.gpu,
        cleanup_run(s, pid, answers).state.gpu == s.gpu,
        shutdown_run(s, answers).state.gpu == s.gpu,
        apply_run(s, request, answers).state.baseline_power_limit == s.baseline_power_limit,
        reset_run(s, answers).state.baseline_power_limit == s.baseline_power_limit,
        cleanup_run(s, pid, answers).state.baseline_power_limit == s.baseline_power_limit,
        shutdown_run(s, answers).state.baseline_power_limit == s.baseline_power_limit,
        s.baseline_epp is Some ==> apply_run(s, request, answers).state.baseline_epp
            == s.baseline_epp,
        reset_run(s, answers).state.baseline_epp == s.baseline_epp,
        cleanup_run(s, pid, answers).state.baseline_epp == s.baseline_epp,
        shutdown_run(s, answers).state.baseline_epp == s.baseline_epp,
{
    reveal_with_fuel(follow_apply, 4);
    reveal_with_fuel(follow_restore, 3);
}

/// The first request that tunes the CPU supplies the baseline profile: with
/// none on record, a request whose CPU section is on and that gets as far as
/// the CPU leaves its declared baseline on record.
pub proof fn first_cpu_request_sets_baseline(
    s: DaemonModel,
    req: TuningRequestView,
    answers: Answers,
)
    requires
        s.baseline_epp is None,
        req.cpu_config.enabled,
        apply_run(s, Ok(req), answers).outcome matches Some(Ok(_)),
    ensures
        apply_run(s, Ok(req), answers).state.baseline_epp == Some(req.cpu_config.amd_epp_base),
{
    reveal_with_fuel(follow_apply, 4);
}

/// The shutdown makes a restore pass whatever is tracked, and leaves
/// nothing tracked.
pub proof fn shutdown_always_restores(s: DaemonModel, answers: Answers)
    ensures
        shutdown_run(s, answers).report matches Some(report) && report.restored,
        !shutdown_run(s, answers).state.is_active(),
{
    reveal_with_fuel(follow_restore, 3);
}

} // verus!
