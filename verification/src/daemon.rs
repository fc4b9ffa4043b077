//! The daemon's state and the decisions taken on it.
//!
//! The state is the set of tracked processes together with the baselines
//! captured before the first change. Tuning counts as active exactly while
//! the set is non-empty. Every operation here takes the state by exclusive
//! reference, so a caller that shares the state holds its lock for the whole
//! of the operation. No operation touches hardware itself: each one answers
//! with the request to hand to an adapter, if any.

use vstd::prelude::*;
use vstd::string::*;
use std::collections::HashSet;
use crate::config::{opt_text, CpuTune, CpuTuneView, GpuTune, GpuTuneView, SysTune};
use crate::gpu::{GpuIdView, NvGpu, PowerTarget};

verus! {

broadcast use vstd::std_specs::hash::group_hash_axioms;

/// The three pieces of host state that tuning touches.
#[derive(Debug, Clone, Copy, PartialEq, Eq, Structural)]
pub enum Adapter {
    Gpu,
    Cpu,
    Priority,
}

/// One request to an adapter.
#[derive(Debug, PartialEq, Eq)]
pub enum AdapterCall {
    /// Set the GPU power limit.
    SetPowerLimit { target: PowerTarget },
    /// Put the GPU power limit back to the device's default.
    RestoreGpuDefault,
    /// Write an energy-performance preference to every core.
    SetEpp { profile: String },
    /// Give a process a nice value.
    SetPriority { pid: u32, nice: i32 },
}

/// Mathematical value of an [`AdapterCall`].
pub enum AdapterCallView {
    SetPowerLimit { target: PowerTarget },
    RestoreGpuDefault,
    SetEpp { profile: Seq<char> },
    SetPriority { pid: u32, nice: i32 },
}

impl AdapterCallView {
    /// The adapter that the request goes to.
    pub open spec fn adapter(self) -> Adapter {
        match self {
            AdapterCallView::SetPowerLimit { .. } => Adapter::Gpu,
            AdapterCallView::RestoreGpuDefault => Adapter::Gpu,
            AdapterCallView::SetEpp { .. } => Adapter::Cpu,
            AdapterCallView::SetPriority { .. } => Adapter::Priority,
        }
    }
}

impl View for AdapterCall {
    type V = AdapterCallView;

    open spec fn view(&self) -> AdapterCallView {
        match self {
            AdapterCall::SetPowerLimit { target } => AdapterCallView::SetPowerLimit {
                target: *target,
            },
            AdapterCall::RestoreGpuDefault => AdapterCallView::RestoreGpuDefault,
            AdapterCall::SetEpp { profile } => AdapterCallView::SetEpp { profile: profile@ },
            AdapterCall::SetPriority { pid, nice } => AdapterCallView::SetPriority {
                pid: *pid,
                nice: *nice,
            },
        }
    }
}

impl Clone for AdapterCall {
    fn clone(&self) -> (copy: Self)
        ensures
            copy@ == self@,
    {
        match self {
            AdapterCall::SetPowerLimit { target } => AdapterCall::SetPowerLimit { target: *target },
            AdapterCall::RestoreGpuDefault => AdapterCall::RestoreGpuDefault,
            AdapterCall::SetEpp { profile } => AdapterCall::SetEpp { profile: profile.clone() },
            AdapterCall::SetPriority { pid, nice } => AdapterCall::SetPriority {
                pid: *pid,
                nice: *nice,
            },
        }
    }
}

impl AdapterCall {
    /// The adapter that the request goes to.
    pub fn adapter(&self) -> (which: Adapter)
        ensures
            which == self@.adapter(),
    {
        match self {
            AdapterCall::SetPowerLimit { .. } => Adapter::Gpu,
            AdapterCall::RestoreGpuDefault => Adapter::Gpu,
            AdapterCall::SetEpp { .. } => Adapter::Cpu,
            AdapterCall::SetPriority { .. } => Adapter::Priority,
        }
    }
}

/// Why a request was not carried out in full.
#[derive(Debug, PartialEq, Eq)]
pub enum TuningError {
    /// The request could not be understood; nothing was changed.
    Config { message: String },
    /// An adapter refused or failed; the requested tuning is not in effect.
    Hardware { adapter: Adapter, message: String },
    /// Going back to the baselines failed on the named parts; tracking was
    /// cleared all the same.
    PartialRestore { gpu_failed: bool, cpu_failed: bool },
}

/// Mathematical value of a [`TuningError`].
pub enum TuningErrorView {
    Config { message: Seq<char> },
    Hardware { adapter: Adapter, message: Seq<char> },
    PartialRestore { gpu_failed: bool, cpu_failed: bool },
}

impl View for TuningError {
    type V = TuningErrorView;

    open spec fn view(&self) -> TuningErrorView {
        match self {
            TuningError::Config { message } => TuningErrorView::Config { message: message@ },
            TuningError::Hardware { adapter, message } => TuningErrorView::Hardware {
                adapter: *adapter,
                message: message@,
            },
            TuningError::PartialRestore { gpu_failed, cpu_failed } => {
                TuningErrorView::PartialRestore { gpu_failed: *gpu_failed, cpu_failed: *cpu_failed }
            },
        }
    }
}

impl TuningErrorView {
    /// The error in words, as the client reads it.
    pub open spec fn described(self) -> Seq<char> {
        match self {
            TuningErrorView::Config { message } => "Invalid config JSON: "@ + message,
            TuningErrorView::Hardware { adapter, message } => match adapter {
                Adapter::Gpu => "GPU tuning failed: "@ + message,
                Adapter::Cpu => "CPU tuning failed: "@ + message,
                Adapter::Priority => "Process priority failed: "@ + message,
            },
            TuningErrorView::PartialRestore { .. } => "Failed to fully reset tuning"@,
        }
    }
}

impl TuningError {
    /// The error in words, as the client reads it.
    pub fn to_string(&self) -> (text: String)
        ensures
            text@ == self@.described(),
    {
        match self {
            TuningError::Config { message } => {
                let mut text = String::from_str("Invalid config JSON: ");
                text.append(message.as_str());
                text
            },
            TuningError::Hardware { adapter, message } => {
                let mut text = match adapter {
                    Adapter::Gpu => String::from_str("GPU tuning failed: "),
                    Adapter::Cpu => String::from_str("CPU tuning failed: "),
                    Adapter::Priority => String::from_str("Process priority failed: "),
                };
                text.append(message.as_str());
                text
            },
            TuningError::PartialRestore { .. } => String::from_str("Failed to fully reset tuning"),
        }
    }
}

/// What is reported of a GPU that was never opened.
pub open spec fn gpu_missing() -> TuningErrorView {
    TuningErrorView::Hardware { adapter: Adapter::Gpu, message: "GPU not initialized"@ }
}

/// The aggregate that owns the activation lifecycle.
pub struct DaemonState {
    /// The opened GPU; absent when GPU tuning is off or opening failed.
    pub gpu: Option<NvGpu>,
    /// The processes currently under tuning.
    pub active_pids: HashSet<u32>,
    /// The GPU's default power limit, read before any change.
    pub baseline_power_limit: Option<u32>,
    /// The profile to go back to, taken from the first request that tuned
    /// the CPU.
    pub baseline_epp: Option<String>,
}

/// Mathematical value of a [`DaemonState`].
pub struct DaemonModel {
    pub gpu: Option<GpuIdView>,
    pub active: Set<u32>,
    pub baseline_power_limit: Option<u32>,
    pub baseline_epp: Option<Seq<char>>,
}

impl DaemonModel {
    /// The state of a daemon that has just started.
    pub open spec fn fresh() -> DaemonModel {
        DaemonModel {
            gpu: None,
            active: Set::empty(),
            baseline_power_limit: None,
            baseline_epp: None,
        }
    }

    /// Tuning is active exactly while some process is tracked.
    pub open spec fn is_active(self) -> bool {
        !(self.active =~= Set::empty())
    }

    /// An opened GPU always comes with its recorded default limit.
    pub open spec fn wf(self) -> bool {
        self.gpu is Some ==> self.baseline_power_limit is Some
    }

    /// The state after the GPU adapter has answered the opening of the
    /// device selected by `uuid`: on success the device is recorded, and its
    /// default limit becomes the baseline unless one is recorded already.
    pub open spec fn after_gpu_init(self, uuid: Option<Seq<char>>, probe: Result<u32, Seq<char>>)
        -> DaemonModel {
        match probe {
            Ok(default_limit) => DaemonModel {
                gpu: Some(
                    NvGpu::device_for(
                        match uuid {
                            Some(u) => u,
                            None => Seq::empty(),
                        },
                    ),
                ),
                baseline_power_limit: match self.baseline_power_limit {
                    Some(limit) => Some(limit),
                    None => Some(default_limit),
                },
                ..self
            },
            Err(_) => self,
        }
    }

    /// The answer to a GPU section: nothing to do when it is off, an error
    /// when no GPU was opened, else the power limit to set.
    pub open spec fn gpu_tuning(self, gpu: GpuTuneView) -> Result<
        Option<AdapterCallView>,
        TuningErrorView,
    > {
        if !gpu.enabled {
            Ok(None)
        } else if self.gpu is None {
            Err(gpu_missing())
        } else {
            Ok(
                Some(
                    AdapterCallView::SetPowerLimit {
                        target: PowerTarget::of(gpu.pwr_limit_tune, Some(gpu.set_max_pwr)),
                    },
                ),
            )
        }
    }

    /// The state after a CPU section was looked at: an enabled section
    /// supplies the baseline profile if none is recorded yet.
    pub open spec fn after_cpu_tuning(self, cpu: CpuTuneView) -> DaemonModel {
        if cpu.enabled && self.baseline_epp is None {
            DaemonModel { baseline_epp: Some(cpu.amd_epp_base), ..self }
        } else {
            self
        }
    }

    /// The answer to a CPU section: the profile to write when it is on.
    pub open spec fn cpu_tuning(cpu: CpuTuneView) -> Option<AdapterCallView> {
        if cpu.enabled {
            Some(AdapterCallView::SetEpp { profile: cpu.amd_epp_tune })
        } else {
            None
        }
    }

    /// The answer to a process section: the nice value to give when the
    /// section is on and names one other than 0.
    pub open spec fn process_priority(pid: u32, sys: SysTune) -> Option<AdapterCallView> {
        if sys.enabled && sys.proc_renice != 0 {
            Some(AdapterCallView::SetPriority { pid, nice: sys.proc_renice })
        } else {
            None
        }
    }

    /// The request that puts the GPU back, if a GPU was opened.
    pub open spec fn gpu_restore(self) -> Option<AdapterCallView> {
        if self.gpu is Some {
            Some(AdapterCallView::RestoreGpuDefault)
        } else {
            None
        }
    }

    /// The request that puts the CPU back, if a baseline was recorded.
    pub open spec fn cpu_restore(self) -> Option<AdapterCallView> {
        match self.baseline_epp {
            Some(profile) => Some(AdapterCallView::SetEpp { profile }),
            None => None,
        }
    }

    /// The state with `pid` tracked.
    pub open spec fn with_pid(self, pid: u32) -> DaemonModel {
        DaemonModel { active: self.active.insert(pid), ..self }
    }

    /// The state with `pid` no longer tracked.
    pub open spec fn without_pid(self, pid: u32) -> DaemonModel {
        DaemonModel { active: self.active.remove(pid), ..self }
    }

    /// The state with nothing tracked.
    pub open spec fn cleared(self) -> DaemonModel {
        DaemonModel { active: Set::empty(), ..self }
    }
}

/// View of an optional adapter request.
pub open spec fn opt_call(call: Option<AdapterCall>) -> Option<AdapterCallView> {
    match call {
        Some(c) => Some(c@),
        None => None,
    }
}

impl View for DaemonState {
    type V = DaemonModel;

    open spec fn view(&self) -> DaemonModel {
        DaemonModel {
            gpu: match self.gpu {
                Some(gpu) => Some(gpu@),
                None => None,
            },
            active: self.active_pids@,
            baseline_power_limit: self.baseline_power_limit,
            baseline_epp: opt_text(self.baseline_epp),
        }
    }
}

impl DaemonState {
    /// A state with no GPU, no baseline and nothing tracked.
    pub fn new() -> (state: Self)
        ensures
            state@ == DaemonModel::fresh(),
            state@.wf(),
            !state@.is_active(),
    {
        DaemonState {
            gpu: None,
            active_pids: HashSet::new(),
            baseline_power_limit: None,
            baseline_epp: None,
        }
    }

    /// Whether any process is tracked.
    pub fn is_active(&self) -> (active: bool)
        ensures
            active == self@.is_active(),
    {
        !self.active_pids.is_empty()
    }

    /// Whether `pid` is tracked.
    pub fn has_pid(&self, pid: u32) -> (present: bool)
        ensures
            present == self@.active.contains(pid),
    {
        self.active_pids.contains(&pid)
    }

    /// Takes in the GPU adapter's answer to opening the device selected by
    /// `gpu_uuid` and asking for its default power limit. On success the
    /// device and the baseline are recorded; on failure the state stays as it
    /// is, GPU tuning stays unavailable, and the failure is returned.
    pub fn record_gpu(&mut self, gpu_uuid: Option<String>, probe: Result<u32, String>) -> (result:
        Result<(), TuningError>)
        ensures
            final(self)@ == old(self)@.after_gpu_init(
                opt_text(gpu_uuid),
                match probe {
                    Ok(limit) => Ok(limit),
                    Err(message) => Err(message@),
                },
            ),
            match probe {
                Ok(_) => result is Ok,
                Err(message) => result matches Err(e) && e@ == (TuningErrorView::Hardware {
                    adapter: Adapter::Gpu,
                    message: message@,
                }),
            },
            old(self)@.wf() ==> final(self)@.wf(),
    {
        match probe {
            Ok(default_limit) => {
                let uuid = match gpu_uuid {
                    Some(u) => u,
                    None => String::new(),
                };
                self.gpu = Some(NvGpu::init(uuid));
                if self.baseline_power_limit.is_none() {
                    self.baseline_power_limit = Some(default_limit);
                }
                Ok(())
            },
            Err(message) => Err(TuningError::Hardware { adapter: Adapter::Gpu, message }),
        }
    }

    /// Decides what a CPU section asks of the CPU adapter, and records the
    /// section's baseline profile if none is recorded yet.
    pub fn apply_cpu_tuning(&mut self, cpu_config: &CpuTune) -> (call: Option<AdapterCall>)
        ensures
            final(self)@ == old(self)@.after_cpu_tuning(cpu_config@),
            opt_call(call) == DaemonModel::cpu_tuning(cpu_config@),
    {
        if !cpu_config.enabled {
            return None;
        }
        if self.baseline_epp.is_none() {
            self.baseline_epp = Some(cpu_config.amd_epp_base.clone());
        }
        Some(AdapterCall::SetEpp { profile: cpu_config.amd_epp_tune.clone() })
    }

    /// Decides what a GPU section asks of the GPU adapter.
    pub fn apply_gpu_tuning(&self, gpu_config: &GpuTune) -> (result: Result<
        Option<AdapterCall>,
        TuningError,
    >)
        ensures
            match self@.gpu_tuning(gpu_config@) {
                Ok(expected) => result matches Ok(call) && opt_call(call) == expected,
                Err(expected) => result matches Err(e) && e@ == expected,
            },
    {
        if !gpu_config.enabled {
            return Ok(None);
        }
        if self.gpu.is_none() {
            return Err(
                TuningError::Hardware {
                    adapter: Adapter::Gpu,
                    message: String::from_str("GPU not initialized"),
                },
            );
        }
        Ok(
            Some(
                AdapterCall::SetPowerLimit {
                    target: PowerTarget::from_settings(
                        gpu_config.pwr_limit_tune,
                        Some(gpu_config.set_max_pwr),
                    ),
                },
            ),
        )
    }

    /// Decides what a process section asks of the priority adapter.
    pub fn apply_process_priority(&self, pid: u32, sys_config: &SysTune) -> (call: Option<
        AdapterCall,
    >)
        ensures
            opt_call(call) == DaemonModel::process_priority(pid, *sys_config),
    {
        if sys_config.enabled && sys_config.proc_renice != 0 {
            Some(AdapterCall::SetPriority { pid, nice: sys_config.proc_renice })
        } else {
            None
        }
    }

    /// The request that puts the GPU back to its default, if a GPU was opened.
    pub fn restore_gpu_defaults(&self) -> (call: Option<AdapterCall>)
        ensures
            opt_call(call) == self@.gpu_restore(),
    {
        if self.gpu.is_some() {
            Some(AdapterCall::RestoreGpuDefault)
        } else {
            None
        }
    }

    /// The request that puts the CPU back to the baseline profile, if one
    /// was recorded.
    pub fn restore_cpu_defaults(&self) -> (call: Option<AdapterCall>)
        ensures
            opt_call(call) == self@.cpu_restore(),
    {
        match &self.baseline_epp {
            Some(profile) => Some(AdapterCall::SetEpp { profile: profile.clone() }),
            None => None,
        }
    }

    /// Tracks `pid`; tracking it again changes nothing.
    pub fn add_active_pid(&mut self, pid: u32)
        ensures
            final(self)@ == old(self)@.with_pid(pid),
            final(self)@.is_active(),
    {
        self.active_pids.insert(pid);
        assert(self.active_pids@.contains(pid));
    }

    /// Stops tracking `pid` and tells whether it was tracked.
    pub fn remove_active_pid(&mut self, pid: u32) -> (was_present: bool)
        ensures
            final(self)@ == old(self)@.without_pid(pid),
            was_present == old(self)@.active.contains(pid),
    {
        self.active_pids.remove(&pid)
    }

    /// Stops tracking every process.
    pub fn clear_active_pids(&mut self)
        ensures
            final(self)@ == old(self)@.cleared(),
            !final(self)@.is_active(),
    {
        self.active_pids.clear();
    }
}

impl Default for DaemonState {
    fn default() -> (state: Self)
        ensures
            state@ == DaemonModel::fresh(),
    {
        DaemonState::new()
    }
}

} // verus!
