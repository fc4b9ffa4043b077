//! The three operations offered to clients, and the cleanup that follows a
//! tracked process's death.
//!
//! An operation runs as a sequence of turns. Each turn either asks for one
//! adapter request to be carried out, handing back what is needed to go on
//! once the adapter has answered, or ends the operation. The caller holds
//! the state's lock from the first turn of an operation to its last, and
//! carries out exactly the requests it is handed.

use vstd::prelude::*;
use vstd::string::*;
use crate::config::{opt_text, CpuTune, CpuTuneView, GpuTune, GpuTuneView, SysTune};
use crate::daemon::{
    Adapter,
    AdapterCall,
    AdapterCallView,
    DaemonModel,
    DaemonState,
    TuningError,
    TuningErrorView,
};
use crate::protocol::CURRENT_VERSION;

verus! {

/// A tuning request as it arrives from a client.
#[derive(Debug, PartialEq, Eq)]
pub struct TuningRequest {
    /// The process to tune and to watch.
    pub pid: u32,
    pub cpu_config: CpuTune,
    pub gpu_config: GpuTune,
    pub sys_config: SysTune,
    /// The protocol version the client speaks.
    pub protocol_version: u8,
}

/// Mathematical value of a [`TuningRequest`].
pub struct TuningRequestView {
    pub pid: u32,
    pub cpu_config: CpuTuneView,
    pub gpu_config: GpuTuneView,
    pub sys_config: SysTune,
    pub protocol_version: u8,
}

impl View for TuningRequest {
    type V = TuningRequestView;

    open spec fn view(&self) -> TuningRequestView {
        TuningRequestView {
            pid: self.pid,
            cpu_config: self.cpu_config@,
            gpu_config: self.gpu_config@,
            sys_config: self.sys_config,
            protocol_version: self.protocol_version,
        }
    }
}

impl TuningRequest {
    /// A request in the current protocol version.
    pub fn new(pid: u32, cpu_config: CpuTune, gpu_config: GpuTune, sys_config: SysTune) -> (request:
        Self)
        ensures
            request@ == (TuningRequestView {
                pid,
                cpu_config: cpu_config@,
                gpu_config: gpu_config@,
                sys_config,
                protocol_version: CURRENT_VERSION,
            }),
    {
        TuningRequest { pid, cpu_config, gpu_config, sys_config, protocol_version: CURRENT_VERSION }
    }
}

/// What an adapter said of one request: done, or why not.
pub open spec fn answer_view(answer: Result<(), String>) -> Result<(), Seq<char>> {
    match answer {
        Ok(_) => Ok(()),
        Err(message) => Err(message@),
    }
}

/// The failure in an adapter's answer, if it is one.
pub open spec fn failure_of(answer: Result<(), Seq<char>>) -> Option<Seq<char>> {
    match answer {
        Ok(_) => None,
        Err(message) => Some(message),
    }
}

/// The adapter whose answer an unfinished request is waiting for.
#[derive(Debug, Clone, Copy, PartialEq, Eq, Structural)]
pub enum Awaiting {
    Gpu,
    Cpu,
    Priority,
}

/// A tuning request between two turns.
#[derive(Debug, PartialEq, Eq)]
pub struct PendingApply {
    pub request: TuningRequest,
    pub awaiting: Awaiting,
    /// The CPU adapter's failure, kept for the final report.
    pub cpu_warning: Option<String>,
}

/// Mathematical value of a [`PendingApply`].
pub struct PendingApplyView {
    pub request: TuningRequestView,
    pub awaiting: Awaiting,
    pub cpu_warning: Option<Seq<char>>,
}

impl View for PendingApply {
    type V = PendingApplyView;

    open spec fn view(&self) -> PendingApplyView {
        PendingApplyView {
            request: self.request@,
            awaiting: self.awaiting,
            cpu_warning: opt_text(self.cpu_warning),
        }
    }
}

/// What a successful tuning request leaves to be done outside the lock.
#[derive(Debug, PartialEq, Eq)]
pub struct Applied {
    /// The process now tracked, for which a watchdog is to be started.
    pub pid: u32,
    /// Seconds between two liveness probes of that watchdog.
    pub watchdog_interval_sec: u64,
    /// The CPU adapter's failure, to be logged; it does not fail the request.
    pub cpu_warning: Option<String>,
}

/// Mathematical value of an [`Applied`].
pub struct AppliedView {
    pub pid: u32,
    pub watchdog_interval_sec: u64,
    pub cpu_warning: Option<Seq<char>>,
}

impl View for Applied {
    type V = AppliedView;

    open spec fn view(&self) -> AppliedView {
        AppliedView {
            pid: self.pid,
            watchdog_interval_sec: self.watchdog_interval_sec,
            cpu_warning: opt_text(self.cpu_warning),
        }
    }
}

/// One turn of a tuning request.
#[derive(Debug, PartialEq, Eq)]
pub enum ApplyStep {
    /// Carry out `call`, then resume with `pending` and the adapter's answer.
    Invoke { call: AdapterCall, pending: PendingApply },
    /// The request has ended.
    Done { outcome: Result<Applied, TuningError> },
}

/// Mathematical value of an [`ApplyStep`].
pub enum ApplyStepView {
    Invoke { call: AdapterCallView, pending: PendingApplyView },
    Done { outcome: Result<AppliedView, TuningErrorView> },
}

impl View for ApplyStep {
    type V = ApplyStepView;

    open spec fn view(&self) -> ApplyStepView {
        match self {
            ApplyStep::Invoke { call, pending } => ApplyStepView::Invoke {
                call: call@,
                pending: pending@,
            },
            ApplyStep::Done { outcome } => ApplyStepView::Done {
                outcome: match outcome {
                    Ok(applied) => Ok(applied@),
                    Err(error) => Err(error@),
                },
            },
        }
    }
}

/// The state and the step that a turn of a tuning request ends in.
pub struct ApplyTurn {
    pub state: DaemonModel,
    pub step: ApplyStepView,
}

/// What is reported of a request in a protocol version other than the
/// current one.
pub open spec fn unsupported_version() -> TuningErrorView {
    TuningErrorView::Config { message: "Unsupported protocol version"@ }
}

/// The end of a request that went through: the process is tracked.
pub open spec fn commit(s: DaemonModel, req: TuningRequestView, warning: Option<Seq<char>>)
    -> ApplyTurn {
    ApplyTurn {
        state: s.with_pid(req.pid),
        step: ApplyStepView::Done {
            outcome: Ok(
                AppliedView {
                    pid: req.pid,
                    watchdog_interval_sec: req.sys_config.watchdog_interval_sec,
                    cpu_warning: warning,
                },
            ),
        },
    }
}

/// The turn that starts at the process section.
pub open spec fn enter_priority(s: DaemonModel, req: TuningRequestView, warning: Option<Seq<char>>)
    -> ApplyTurn {
    match DaemonModel::process_priority(req.pid, req.sys_config) {
        Some(call) => ApplyTurn {
            state: s,
            step: ApplyStepView::Invoke {
                call,
                pending: PendingApplyView {
                    request: req,
                    awaiting: Awaiting::Priority,
                    cpu_warning: warning,
                },
            },
        },
        None => commit(s, req, warning),
    }
}

/// The turn that starts at the CPU section.
pub open spec fn enter_cpu(s: DaemonModel, req: TuningRequestView) -> ApplyTurn {
    match DaemonModel::cpu_tuning(req.cpu_config) {
        Some(call) => ApplyTurn {
            state: s.after_cpu_tuning(req.cpu_config),
            step: ApplyStepView::Invoke {
                call,
                pending: PendingApplyView {
                    request: req,
                    awaiting: Awaiting::Cpu,
                    cpu_warning: None,
                },
            },
        },
        None => enter_priority(s, req, None),
    }
}

/// The turn that starts at the GPU section.
pub open spec fn enter_gpu(s: DaemonModel, req: TuningRequestView) -> ApplyTurn {
    match s.gpu_tuning(req.gpu_config) {
        Err(error) => ApplyTurn { state: s, step: ApplyStepView::Done { outcome: Err(error) } },
        Ok(Some(call)) => ApplyTurn {
            state: s,
            step: ApplyStepView::Invoke {
                call,
                pending: PendingApplyView {
                    request: req,
                    awaiting: Awaiting::Gpu,
                    cpu_warning: None,
                },
            },
        },
        Ok(None) => enter_cpu(s, req),
    }
}

/// The first turn of a tuning request. A payload that could not be decoded,
/// or a version other than the current one, ends the request at once with
/// the state untouched. Otherwise the sections are taken in the order GPU,
/// CPU, process, each skipped when it asks for nothing.
pub open spec fn apply_begin(s: DaemonModel, request: Result<TuningRequestView, Seq<char>>)
    -> ApplyTurn {
    match request {
        Err(message) => ApplyTurn {
            state: s,
            step: ApplyStepView::Done { outcome: Err(TuningErrorView::Config { message }) },
        },
        Ok(req) => if req.protocol_version != CURRENT_VERSION {
            ApplyTurn {
                state: s,
                step: ApplyStepView::Done { outcome: Err(unsupported_version()) },
            }
        } else {
            enter_gpu(s, req)
        },
    }
}

/// The turn that follows an adapter's answer. A failure of the GPU or of the
/// priority adapter ends the request with the process untracked. A failure
/// of the CPU adapter is kept as a warning and the request goes on.
pub open spec fn apply_resume(s: DaemonModel, pending: PendingApplyView, answer: Result<
    (),
    Seq<char>,
>) -> ApplyTurn {
    match pending.awaiting {
        Awaiting::Gpu => match answer {
            Ok(_) => enter_cpu(s, pending.request),
            Err(message) => ApplyTurn {
                state: s,
                step: ApplyStepView::Done {
                    outcome: Err(TuningErrorView::Hardware { adapter: Adapter::Gpu, message }),
                },
            },
        },
        Awaiting::Cpu => enter_priority(s, pending.request, failure_of(answer)),
        Awaiting::Priority => match answer {
            Ok(_) => commit(s, pending.request, pending.cpu_warning),
            Err(message) => ApplyTurn {
                state: s,
                step: ApplyStepView::Done {
                    outcome: Err(
                        TuningErrorView::Hardware { adapter: Adapter::Priority, message },
                    ),
                },
            },
        },
    }
}

/// The adapter whose answer an unfinished restore is waiting for.
#[derive(Debug, Clone, Copy, PartialEq, Eq, Structural)]
pub enum RestoreAwaiting {
    Gpu,
    Cpu,
}

/// A restore pass between two turns.
#[derive(Debug, PartialEq, Eq)]
pub struct PendingRestore {
    pub awaiting: RestoreAwaiting,
    /// The GPU adapter's failure, kept for the final report.
    pub gpu_error: Option<String>,
}

/// Mathematical value of a [`PendingRestore`].
pub struct PendingRestoreView {
    pub awaiting: RestoreAwaiting,
    pub gpu_error: Option<Seq<char>>,
}

impl View for PendingRestore {
    type V = PendingRestoreView;

    open spec fn view(&self) -> PendingRestoreView {
        PendingRestoreView { awaiting: self.awaiting, gpu_error: opt_text(self.gpu_error) }
    }
}

/// How an operation that may restore the baselines has ended.
#[derive(Debug, PartialEq, Eq)]
pub struct RestoreReport {
    /// Whether a restore pass was made at all.
    pub restored: bool,
    /// Why the GPU could not be put back, if it could not.
    pub gpu_error: Option<String>,
    /// Why the CPU could not be put back, if it could not.
    pub cpu_error: Option<String>,
}

/// Mathematical value of a [`RestoreReport`].
pub struct RestoreReportView {
    pub restored: bool,
    pub gpu_error: Option<Seq<char>>,
    pub cpu_error: Option<Seq<char>>,
}

impl RestoreReportView {
    /// The report of an operation that had nothing to restore.
    pub open spec fn untouched() -> RestoreReportView {
        RestoreReportView { restored: false, gpu_error: None, cpu_error: None }
    }

    /// What the client is told: success when nothing failed, else which
    /// parts failed.
    pub open spec fn outcome(self) -> Result<(), TuningErrorView> {
        if self.gpu_error is None && self.cpu_error is None {
            Ok(())
        } else {
            Err(
                TuningErrorView::PartialRestore {
                    gpu_failed: self.gpu_error is Some,
                    cpu_failed: self.cpu_error is Some,
                },
            )
        }
    }
}

impl View for RestoreReport {
    type V = RestoreReportView;

    open spec fn view(&self) -> RestoreReportView {
        RestoreReportView {
            restored: self.restored,
            gpu_error: opt_text(self.gpu_error),
            cpu_error: opt_text(self.cpu_error),
        }
    }
}

impl RestoreReport {
    /// What the client is told of this report.
    pub fn outcome(&self) -> (result: Result<(), TuningError>)
        ensures
            match self@.outcome() {
                Ok(_) => result is Ok,
                Err(expected) => result matches Err(e) && e@ == expected,
            },
    {
        let gpu_failed = self.gpu_error.is_some();
        let cpu_failed = self.cpu_error.is_some();
        if !gpu_failed && !cpu_failed {
            Ok(())
        } else {
            Err(TuningError::PartialRestore { gpu_failed, cpu_failed })
        }
    }
}

/// One turn of an operation that may restore the baselines.
#[derive(Debug, PartialEq, Eq)]
pub enum RestoreStep {
    /// Carry out `call`, then resume with `pending` and the adapter's answer.
    Invoke { call: AdapterCall, pending: PendingRestore },
    /// The operation has ended.
    Done { report: RestoreReport },
}

/// Mathematical value of a [`RestoreStep`].
pub enum RestoreStepView {
    Invoke { call: AdapterCallView, pending: PendingRestoreView },
    Done { report: RestoreReportView },
}

impl View for RestoreStep {
    type V = RestoreStepView;

    open spec fn view(&self) -> RestoreStepView {
        match self {
            RestoreStep::Invoke { call, pending } => RestoreStepView::Invoke {
                call: call@,
                pending: pending@,
            },
            RestoreStep::Done { report } => RestoreStepView::Done { report: report@ },
        }
    }
}

/// The state and the step that a turn of a restoring operation ends in.
pub struct RestoreTurn {
    pub state: DaemonModel,
    pub step: RestoreStepView,
}

/// The turn of a restore pass that starts at the CPU.
pub open spec fn restore_cpu_stage(s: DaemonModel, gpu_error: Option<Seq<char>>) -> RestoreTurn {
    match s.cpu_restore() {
        Some(call) => RestoreTurn {
            state: s,
            step: RestoreStepView::Invoke {
                call,
                pending: PendingRestoreView { awaiting: RestoreAwaiting::Cpu, gpu_error },
            },
        },
        None => RestoreTurn {
            state: s,
            step: RestoreStepView::Done {
                report: RestoreReportView { restored: true, gpu_error, cpu_error: None },
            },
        },
    }
}

/// The first turn of a restore pass: the GPU is put back if one was opened,
/// then the CPU if a baseline was recorded.
pub open spec fn restore_pass(s: DaemonModel) -> RestoreTurn {
    match s.gpu_restore() {
        Some(call) => RestoreTurn {
            state: s,
            step: RestoreStepView::Invoke {
                call,
                pending: PendingRestoreView { awaiting: RestoreAwaiting::Gpu, gpu_error: None },
            },
        },
        None => restore_cpu_stage(s, None),
    }
}

/// A turn that ends the operation without a restore pass.
pub open spec fn nothing_to_restore(s: DaemonModel) -> RestoreTurn {
    RestoreTurn {
        state: s,
        step: RestoreStepView::Done { report: RestoreReportView::untouched() },
    }
}

/// The first turn of an explicit reset. With nothing tracked it ends at
/// once. Otherwise tracking is cleared first, whatever the restore pass
/// that follows will come to.
pub open spec fn reset_begin(s: DaemonModel) -> RestoreTurn {
    if s.is_active() {
        restore_pass(s.cleared())
    } else {
        nothing_to_restore(s)
    }
}

/// The first turn of the cleanup after the death of `pid`. The process is
/// no longer tracked afterwards. A restore pass follows only if it was
/// tracked and nothing else is.
pub open spec fn cleanup_begin(s: DaemonModel, pid: u32) -> RestoreTurn {
    if s.active.contains(pid) && !s.without_pid(pid).is_active() {
        restore_pass(s.without_pid(pid))
    } else {
        nothing_to_restore(s.without_pid(pid))
    }
}

/// The first turn of the daemon's shutdown: a restore pass in any case.
pub open spec fn shutdown_begin(s: DaemonModel) -> RestoreTurn {
    restore_pass(s.cleared())
}

/// The turn of a restore pass that follows an adapter's answer. A failure
/// is recorded and the pass goes on.
pub open spec fn restore_resume(s: DaemonModel, pending: PendingRestoreView, answer: Result<
    (),
    Seq<char>,
>) -> RestoreTurn {
    match pending.awaiting {
        RestoreAwaiting::Gpu => restore_cpu_stage(s, failure_of(answer)),
        RestoreAwaiting::Cpu => RestoreTurn {
            state: s,
            step: RestoreStepView::Done {
                report: RestoreReportView {
                    restored: true,
                    gpu_error: pending.gpu_error,
                    cpu_error: failure_of(answer),
                },
            },
        },
    }
}

/// How each adapter answers when it is asked. Within one operation an
/// adapter is asked at most once.
pub struct Answers {
    pub gpu: Result<(), Seq<char>>,
    pub cpu: Result<(), Seq<char>>,
    pub priority: Result<(), Seq<char>>,
}

impl Answers {
    /// The answers with that of one adapter replaced.
    pub open spec fn with(self, adapter: Adapter, answer: Result<(), Seq<char>>) -> Answers {
        match adapter {
            Adapter::Gpu => Answers { gpu: answer, ..self },
            Adapter::Cpu => Answers { cpu: answer, ..self },
            Adapter::Priority => Answers { priority: answer, ..self },
        }
    }

    /// The answer of one adapter.
    pub open spec fn of(self, adapter: Adapter) -> Result<(), Seq<char>> {
        match adapter {
            Adapter::Gpu => self.gpu,
            Adapter::Cpu => self.cpu,
            Adapter::Priority => self.priority,
        }
    }
}

/// What a whole tuning request comes to, given how the adapters answer.
pub struct ApplyRun {
    /// The state that the request leaves behind.
    pub state: DaemonModel,
    /// The adapter requests that were handed out, in order.
    pub calls: Seq<AdapterCallView>,
    /// How the request ended, once it has.
    pub outcome: Option<Result<AppliedView, TuningErrorView>>,
}

/// Follows a tuning request from `turn` on for at most `turns` further
/// turns, each adapter answering as `answers` tells.
pub open spec fn follow_apply(
    turn: ApplyTurn,
    answers: Answers,
    turns: nat,
) -> ApplyRun
    decreases turns,
{
    match turn.step {
        ApplyStepView::Done { outcome } => ApplyRun {
            state: turn.state,
            calls: Seq::empty(),
            outcome: Some(outcome),
        },
        ApplyStepView::Invoke { call, pending } => if turns == 0 {
            ApplyRun { state: turn.state, calls: seq![call], outcome: None }
        } else {
            let rest = follow_apply(
                apply_resume(turn.state, pending, answers.of(call.adapter())),
                answers,
                (turns - 1) as nat,
            );
            ApplyRun { state: rest.state, calls: seq![call] + rest.calls, outcome: rest.outcome }
        },
    }
}

/// A tuning request from its first turn to its last. Three further turns
/// are enough, one for each adapter.
pub open spec fn apply_run(
    s: DaemonModel,
    request: Result<TuningRequestView, Seq<char>>,
    answers: Answers,
) -> ApplyRun {
    follow_apply(apply_begin(s, request), answers, 3)
}

/// What a whole restoring operation comes to, given how the adapters answer.
pub struct RestoreRun {
    /// The state that the operation leaves behind.
    pub state: DaemonModel,
    /// The adapter requests that were handed out, in order.
    pub calls: Seq<AdapterCallView>,
    /// How the operation ended, once it has.
    pub report: Option<RestoreReportView>,
}

/// Follows a restoring operation from `turn` on for at most `turns` further
/// turns, each adapter answering as `answers` tells.
pub open spec fn follow_restore(
    turn: RestoreTurn,
    answers: Answers,
    turns: nat,
) -> RestoreRun
    decreases turns,
{
    match turn.step {
        RestoreStepView::Done { report } => RestoreRun {
            state: turn.state,
            calls: Seq::empty(),
            report: Some(report),
        },
        RestoreStepView::Invoke { call, pending } => if turns == 0 {
            RestoreRun { state: turn.state, calls: seq![call], report: None }
        } else {
            let rest = follow_restore(
                restore_resume(turn.state, pending, answers.of(call.adapter())),
                answers,
                (turns - 1) as nat,
            );
            RestoreRun { state: rest.state, calls: seq![call] + rest.calls, report: rest.report }
        },
    }
}

/// An explicit reset from its first turn to its last.
pub open spec fn reset_run(
    s: DaemonModel,
    answers: Answers,
) -> RestoreRun {
    follow_restore(reset_begin(s), answers, 2)
}

/// The cleanup after the death of `pid` from its first turn to its last.
pub open spec fn cleanup_run(
    s: DaemonModel,
    pid: u32,
    answers: Answers,
) -> RestoreRun {
    follow_restore(cleanup_begin(s, pid), answers, 2)
}

/// The daemon's shutdown from its first turn to its last.
pub open spec fn shutdown_run(s: DaemonModel, answers: Answers) -> RestoreRun {
    follow_restore(shutdown_begin(s), answers, 2)
}

/// View of a tuning request, or of the reason why there is none.
pub open spec fn request_view(request: Result<TuningRequest, String>) -> Result<
    TuningRequestView,
    Seq<char>,
> {
    match request {
        Ok(req) => Ok(req@),
        Err(message) => Err(message@),
    }
}

/// View of the outcome of a tuning request.
pub open spec fn outcome_view(outcome: Result<Applied, TuningError>) -> Result<
    AppliedView,
    TuningErrorView,
> {
    match outcome {
        Ok(applied) => Ok(applied@),
        Err(error) => Err(error@),
    }
}

/// `answer` is an answer that `perform` can give to the request `call`.
pub open spec fn given_by<F: Fn(&AdapterCall) -> Result<(), String>>(
    perform: F,
    call: AdapterCallView,
    answer: Result<(), Seq<char>>,
) -> bool {
    exists|c: AdapterCall, a: Result<(), String>|
        c@ == call && #[trigger] call_ensures(perform, (&c,), a) && answer_view(a) == answer
}

/// The message in an adapter's answer, if it is a failure.
fn into_failure(answer: Result<(), String>) -> (failure: Option<String>)
    ensures
        opt_text(failure) == failure_of(answer_view(answer)),
{
    match answer {
        Ok(_) => None,
        Err(message) => Some(message),
    }
}

/// The service that clients talk to. It owns the daemon's state; whoever
/// shares the service shares it behind one lock.
pub struct NvPrimeService {
    pub state: DaemonState,
}

impl NvPrimeService {
    /// A service over `state`.
    pub fn new(state: DaemonState) -> (service: Self)
        ensures
            service.state@ == state@,
    {
        NvPrimeService { state }
    }

    /// Ends a request that went through.
    fn commit(&mut self, request: TuningRequest, cpu_warning: Option<String>) -> (step: ApplyStep)
        ensures
            final(self).state@ == commit(
                old(self).state@,
                request@,
                opt_text(cpu_warning),
            ).state,
            step@ == commit(old(self).state@, request@, opt_text(cpu_warning)).step,
    {
        self.state.add_active_pid(request.pid);
        ApplyStep::Done {
            outcome: Ok(
                Applied {
                    pid: request.pid,
                    watchdog_interval_sec: request.sys_config.watchdog_interval_sec,
                    cpu_warning,
                },
            ),
        }
    }

    /// Takes a request on from its process section.
    fn enter_priority(&mut self, request: TuningRequest, cpu_warning: Option<String>) -> (step:
        ApplyStep)
        ensures
            final(self).state@ == enter_priority(
                old(self).state@,
                request@,
                opt_text(cpu_warning),
            ).state,
            step@ == enter_priority(old(self).state@, request@, opt_text(cpu_warning)).step,
    {
        match self.state.apply_process_priority(request.pid, &request.sys_config) {
            Some(call) => ApplyStep::Invoke {
                call,
                pending: PendingApply { request, awaiting: Awaiting::Priority, cpu_warning },
            },
            None => self.commit(request, cpu_warning),
        }
    }

    /// Takes a request on from its CPU section.
    fn enter_cpu(&mut self, request: TuningRequest) -> (step: ApplyStep)
        ensures
            final(self).state@ == enter_cpu(old(self).state@, request@).state,
            step@ == enter_cpu(old(self).state@, request@).step,
    {
        match self.state.apply_cpu_tuning(&request.cpu_config) {
            Some(call) => ApplyStep::Invoke {
                call,
                pending: PendingApply { request, awaiting: Awaiting::Cpu, cpu_warning: None },
            },
            None => self.enter_priority(request, None),
        }
    }

    /// Starts a tuning request. `request` is the decoded payload, or the
    /// reason why it could not be decoded.
    pub fn apply_tuning(&mut self, request: Result<TuningRequest, String>) -> (step: ApplyStep)
        ensures
            final(self).state@ == apply_begin(
                old(self).state@,
                match request {
                    Ok(req) => Ok(req@),
                    Err(message) => Err(message@),
                },
            ).state,
            step@ == apply_begin(
                old(self).state@,
                match request {
                    Ok(req) => Ok(req@),
                    Err(message) => Err(message@),
                },
            ).step,
    {
        match request {
            Err(message) => ApplyStep::Done { outcome: Err(TuningError::Config { message }) },
            Ok(req) => {
                if req.protocol_version != CURRENT_VERSION {
                    return ApplyStep::Done {
                        outcome: Err(
                            TuningError::Config {
                                message: String::from_str("Unsupported protocol version"),
                            },
                        ),
                    };
                }
                match self.state.apply_gpu_tuning(&req.gpu_config) {
                    Err(error) => ApplyStep::Done { outcome: Err(error) },
                    Ok(Some(call)) => ApplyStep::Invoke {
                        call,
                        pending: PendingApply {
                            request: req,
                            awaiting: Awaiting::Gpu,
                            cpu_warning: None,
                        },
                    },
                    Ok(None) => self.enter_cpu(req),
                }
            },
        }
    }

    /// Goes on with a tuning request once the adapter has answered the
    /// request handed out in the turn before.
    pub fn resume_apply(&mut self, pending: PendingApply, answer: Result<(), String>) -> (step:
        ApplyStep)
        ensures
            final(self).state@ == apply_resume(
                old(self).state@,
                pending@,
                answer_view(answer),
            ).state,
            step@ == apply_resume(old(self).state@, pending@, answer_view(answer)).step,
    {
        match pending.awaiting {
            Awaiting::Gpu => match answer {
                Ok(_) => self.enter_cpu(pending.request),
                Err(message) => ApplyStep::Done {
                    outcome: Err(TuningError::Hardware { adapter: Adapter::Gpu, message }),
                },
            },
            Awaiting::Cpu => {
                let warning = into_failure(answer);
                self.enter_priority(pending.request, warning)
            },
            Awaiting::Priority => match answer {
                Ok(_) => self.commit(pending.request, pending.cpu_warning),
                Err(message) => ApplyStep::Done {
                    outcome: Err(TuningError::Hardware { adapter: Adapter::Priority, message }),
                },
            },
        }
    }

    /// Takes a restore pass on from the CPU.
    fn restore_cpu_stage(&self, gpu_error: Option<String>) -> (step: RestoreStep)
        ensures
            step@ == restore_cpu_stage(self.state@, opt_text(gpu_error)).step,
    {
        match self.state.restore_cpu_defaults() {
            Some(call) => RestoreStep::Invoke {
                call,
                pending: PendingRestore { awaiting: RestoreAwaiting::Cpu, gpu_error },
            },
            None => RestoreStep::Done {
                report: RestoreReport { restored: true, gpu_error, cpu_error: None },
            },
        }
    }

    /// Starts a restore pass.
    fn restore_pass(&self) -> (step: RestoreStep)
        ensures
            step@ == restore_pass(self.state@).step,
    {
        match self.state.restore_gpu_defaults() {
            Some(call) => RestoreStep::Invoke {
                call,
                pending: PendingRestore { awaiting: RestoreAwaiting::Gpu, gpu_error: None },
            },
            None => self.restore_cpu_stage(None),
        }
    }

    /// Starts an explicit reset.
    pub fn reset_tuning(&mut self) -> (step: RestoreStep)
        ensures
            final(self).state@ == reset_begin(old(self).state@).state,
            step@ == reset_begin(old(self).state@).step,
    {
        if !self.state.is_active() {
            return RestoreStep::Done {
                report: RestoreReport { restored: false, gpu_error: None, cpu_error: None },
            };
        }
        self.state.clear_active_pids();
        self.restore_pass()
    }

    /// Starts the cleanup after the death of `pid`.
    pub fn remove_pid_and_maybe_restore(&mut self, pid: u32) -> (step: RestoreStep)
        ensures
            final(self).state@ == cleanup_begin(old(self).state@, pid).state,
            step@ == cleanup_begin(old(self).state@, pid).step,
    {
        let was_present = self.state.remove_active_pid(pid);
        if was_present && !self.state.is_active() {
            self.restore_pass()
        } else {
            RestoreStep::Done {
                report: RestoreReport { restored: false, gpu_error: None, cpu_error: None },
            }
        }
    }

    /// Starts the restore pass made when the daemon is told to stop.
    pub fn shutdown(&mut self) -> (step: RestoreStep)
        ensures
            final(self).state@ == shutdown_begin(old(self).state@).state,
            step@ == shutdown_begin(old(self).state@).step,
    {
        self.state.clear_active_pids();
        self.restore_pass()
    }

    /// Goes on with a restore pass once the adapter has answered the request
    /// handed out in the turn before.
    pub fn resume_restore(&mut self, pending: PendingRestore, answer: Result<(), String>) -> (step:
        RestoreStep)
        ensures
            final(self).state@ == restore_resume(
                old(self).state@,
                pending@,
                answer_view(answer),
            ).state,
            step@ == restore_resume(old(self).state@, pending@, answer_view(answer)).step,
    {
        match pending.awaiting {
            RestoreAwaiting::Gpu => {
                let gpu_error = into_failure(answer);
                self.restore_cpu_stage(gpu_error)
            },
            RestoreAwaiting::Cpu => {
                let cpu_error = into_failure(answer);
                RestoreStep::Done {
                    report: RestoreReport {
                        restored: true,
                        gpu_error: pending.gpu_error,
                        cpu_error,
                    },
                }
            },
        }
    }

    /// Takes a tuning request one turn on: has the adapter request carried
    /// out, if the step hands one out, and resumes with the answer.
    fn turn_apply<F: Fn(&AdapterCall) -> Result<(), String>>(
        &mut self,
        step: ApplyStep,
        perform: &F,
        Ghost(answers): Ghost<Answers>,
    ) -> (next: (ApplyStep, Ghost<Answers>))
        requires
            forall|call: &AdapterCall| call_requires(*perform, (call,)),
        ensures
            match step@ {
                ApplyStepView::Done { .. } => {
                    &&& next.0@ == step@
                    &&& next.1@ == answers
                    &&& final(self).state@ == old(self).state@
                },
                ApplyStepView::Invoke { call, pending } => {
                    &&& given_by(*perform, call, next.1@.of(call.adapter()))
                    &&& next.1@ == answers.with(call.adapter(), next.1@.of(call.adapter()))
                    &&& final(self).state@ == apply_resume(
                        old(self).state@,
                        pending,
                        next.1@.of(call.adapter()),
                    ).state
                    &&& next.0@ == apply_resume(
                        old(self).state@,
                        pending,
                        next.1@.of(call.adapter()),
                    ).step
                },
            },
    {
        match step {
            ApplyStep::Done { outcome } => (ApplyStep::Done { outcome }, Ghost(answers)),
            ApplyStep::Invoke { call, pending } => {
                let answer = perform(&call);
                let ghost given = answers.with(call@.adapter(), answer_view(answer));
                (self.resume_apply(pending, answer), Ghost(given))
            },
        }
    }

    /// Carries a tuning request through all its turns, `perform` carrying
    /// out each adapter request that is handed out. The state and the
    /// outcome are those of the whole request under the answers that
    /// `perform` gave.
    pub fn run_apply<F: Fn(&AdapterCall) -> Result<(), String>>(
        &mut self,
        request: Result<TuningRequest, String>,
        perform: F,
    ) -> (outcome: Result<Applied, TuningError>)
        requires
            forall|call: &AdapterCall| call_requires(perform, (call,)),
        ensures
            exists|answers: Answers|
                {
                    let run = #[trigger] apply_run(
                        old(self).state@,
                        request_view(request),
                        answers,
                    );
                    &&& final(self).state@ == run.state
                    &&& run.outcome == Some(outcome_view(outcome))
                    &&& forall|i: int|
                        0 <= i < run.calls.len() ==> given_by(
                            perform,
                            #[trigger] run.calls[i],
                            answers.of(run.calls[i].adapter()),
                        )
                },
    {
        let ghost unasked = Answers { gpu: Ok(()), cpu: Ok(()), priority: Ok(()) };
        let first = self.apply_tuning(request);
        let (second, Ghost(one)) = self.turn_apply(first, &perform, Ghost(unasked));
        let (third, Ghost(two)) = self.turn_apply(second, &perform, Ghost(one));
        let (last, Ghost(three)) = self.turn_apply(third, &perform, Ghost(two));
        proof {
            reveal_with_fuel(follow_apply, 4);
            let run = apply_run(old(self).state@, request_view(request), three);
            assert(self.state@ == run.state);
            assert(last@ matches ApplyStepView::Done { outcome } && run.outcome == Some(outcome));
        }
        match last {
            ApplyStep::Done { outcome } => outcome,
            ApplyStep::Invoke { .. } => unreached(),
        }
    }

    /// Takes a restoring operation one turn on: has the adapter request
    /// carried out, if the step hands one out, and resumes with the answer.
    fn turn_restore<F: Fn(&AdapterCall) -> Result<(), String>>(
        &mut self,
        step: RestoreStep,
        perform: &F,
        Ghost(answers): Ghost<Answers>,
    ) -> (next: (RestoreStep, Ghost<Answers>))
        requires
            forall|call: &AdapterCall| call_requires(*perform, (call,)),
        ensures
            match step@ {
                RestoreStepView::Done { .. } => {
                    &&& next.0@ == step@
                    &&& next.1@ == answers
                    &&& final(self).state@ == old(self).state@
                },
                RestoreStepView::Invoke { call, pending } => {
                    &&& given_by(*perform, call, next.1@.of(call.adapter()))
                    &&& next.1@ == answers.with(call.adapter(), next.1@.of(call.adapter()))
                    &&& final(self).state@ == restore_resume(
                        old(self).state@,
                        pending,
                        next.1@.of(call.adapter()),
                    ).state
                    &&& next.0@ == restore_resume(
                        old(self).state@,
                        pending,
                        next.1@.of(call.adapter()),
                    ).step
                },
            },
    {
        match step {
            RestoreStep::Done { report } => (RestoreStep::Done { report }, Ghost(answers)),
            RestoreStep::Invoke { call, pending } => {
                let answer = perform(&call);
                let ghost given = answers.with(call@.adapter(), answer_view(answer));
                (self.resume_restore(pending, answer), Ghost(given))
            },
        }
    }

    /// Carries a restoring operation from its first step to its end.
    fn finish_restore<F: Fn(&AdapterCall) -> Result<(), String>>(
        &mut self,
        first: RestoreStep,
        perform: &F,
    ) -> (report: RestoreReport)
        requires
            forall|call: &AdapterCall| call_requires(*perform, (call,)),
            first@ == restore_pass(old(self).state@).step || first@ == nothing_to_restore(
                old(self).state@,
            ).step,
        ensures
            exists|answers: Answers|
                {
                    let run = #[trigger] follow_restore(
                        RestoreTurn { state: old(self).state@, step: first@ },
                        answers,
                        2,
                    );
                    &&& final(self).state@ == run.state
                    &&& run.report == Some(report@)
                    &&& forall|i: int|
                        0 <= i < run.calls.len() ==> given_by(
                            *perform,
                            #[trigger] run.calls[i],
                            answers.of(run.calls[i].adapter()),
                        )
                },
    {
        let ghost unasked = Answers { gpu: Ok(()), cpu: Ok(()), priority: Ok(()) };
        let (second, Ghost(one)) = self.turn_restore(first, perform, Ghost(unasked));
        let (last, Ghost(two)) = self.turn_restore(second, perform, Ghost(one));
        proof {
            reveal_with_fuel(follow_restore, 3);
            let run = follow_restore(
                RestoreTurn { state: old(self).state@, step: first@ },
                two,
                2,
            );
            assert(self.state@ == run.state);
            assert(last@ matches RestoreStepView::Done { report } && run.report == Some(report));
        }
        match last {
            RestoreStep::Done { report } => report,
            RestoreStep::Invoke { .. } => unreached(),
        }
    }

    /// Carries an explicit reset through all its turns, `perform` carrying
    /// out each adapter request that is handed out.
    pub fn run_reset<F: Fn(&AdapterCall) -> Result<(), String>>(&mut self, perform: F) -> (report:
        RestoreReport)
        requires
            forall|call: &AdapterCall| call_requires(perform, (call,)),
        ensures
            exists|answers: Answers|
                {
                    let run = #[trigger] reset_run(old(self).state@, answers);
                    &&& final(self).state@ == run.state
                    &&& run.report == Some(report@)
                    &&& forall|i: int|
                        0 <= i < run.calls.len() ==> given_by(
                            perform,
                            #[trigger] run.calls[i],
                            answers.of(run.calls[i].adapter()),
                        )
                },
    {
        let first = self.reset_tuning();
        let ghost begun = RestoreTurn { state: self.state@, step: first@ };
        let report = self.finish_restore(first, &perform);
        proof {
            let answers = choose|answers: Answers|
                {
                    let run = #[trigger] follow_restore(begun, answers, 2);
                    &&& self.state@ == run.state
                    &&& run.report == Some(report@)
                    &&& forall|i: int|
                        0 <= i < run.calls.len() ==> given_by(
                            perform,
                            #[trigger] run.calls[i],
                            answers.of(run.calls[i].adapter()),
                        )
                };
            assert(begun == reset_begin(old(self).state@));
            assert(reset_run(old(self).state@, answers) == follow_restore(begun, answers, 2));
        }
        report
    }

    /// Carries the cleanup after the death of `pid` through all its turns,
    /// `perform` carrying out each adapter request that is handed out.
    pub fn run_cleanup<F: Fn(&AdapterCall) -> Result<(), String>>(
        &mut self,
        pid: u32,
        perform: F,
    ) -> (report: RestoreReport)
        requires
            forall|call: &AdapterCall| call_requires(perform, (call,)),
        ensures
            exists|answers: Answers|
                {
                    let run = #[trigger] cleanup_run(old(self).state@, pid, answers);
                    &&& final(self).state@ == run.state
                    &&& run.report == Some(report@)
                    &&& forall|i: int|
                        0 <= i < run.calls.len() ==> given_by(
                            perform,
                            #[trigger] run.calls[i],
                            answers.of(run.calls[i].adapter()),
                        )
                },
    {
        let first = self.remove_pid_and_maybe_restore(pid);
        let ghost begun = RestoreTurn { state: self.state@, step: first@ };
        let report = self.finish_restore(first, &perform);
        proof {
            let answers = choose|answers: Answers|
                {
                    let run = #[trigger] follow_restore(begun, answers, 2);
                    &&& self.state@ == run.state
                    &&& run.report == Some(report@)
                    &&& forall|i: int|
                        0 <= i < run.calls.len() ==> given_by(
                            perform,
                            #[trigger] run.calls[i],
                            answers.of(run.calls[i].adapter()),
                        )
                };
            assert(begun == cleanup_begin(old(self).state@, pid));
            assert(cleanup_run(old(self).state@, pid, answers) == follow_restore(begun, answers, 2));
        }
        report
    }

    /// Carries the daemon's shutdown through all its turns, `perform`
    /// carrying out each adapter request that is handed out.
    pub fn run_shutdown<F: Fn(&AdapterCall) -> Result<(), String>>(&mut self, perform: F) -> (report:
        RestoreReport)
        requires
            forall|call: &AdapterCall| call_requires(perform, (call,)),
        ensures
            exists|answers: Answers|
                {
                    let run = #[trigger] shutdown_run(old(self).state@, answers);
                    &&& final(self).state@ == run.state
                    &&& run.report == Some(report@)
                    &&& forall|i: int|
                        0 <= i < run.calls.len() ==> given_by(
                            perform,
                            #[trigger] run.calls[i],
                            answers.of(run.calls[i].adapter()),
                        )
                },
    {
        let first = self.shutdown();
        let ghost begun = RestoreTurn { state: self.state@, step: first@ };
        let report = self.finish_restore(first, &perform);
        proof {
            let answers = choose|answers: Answers|
                {
                    let run = #[trigger] follow_restore(begun, answers, 2);
                    &&& self.state@ == run.state
                    &&& run.report == Some(report@)
                    &&& forall|i: int|
                        0 <= i < run.calls.len() ==> given_by(
                            perform,
                            #[trigger] run.calls[i],
                            answers.of(run.calls[i].adapter()),
                        )
                };
            assert(begun == shutdown_begin(old(self).state@));
            assert(shutdown_run(old(self).state@, answers) == follow_restore(begun, answers, 2));
        }
        report
    }

    /// Answers a liveness check of the service itself.
    pub fn ping(&self) -> (reply: String)
        ensures
            reply@ == "pong"@,
    {
        String::from_str("pong")
    }
}

} // verus!
