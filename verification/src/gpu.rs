//! What the daemon knows of the GPU it tunes: which device is meant, and
//! which power limit a request comes down to once the device's bounds are
//! known.

use vstd::prelude::*;
use crate::config::{opt_text, NvGpuConfig};

verus! {

/// How the tuned device is found among those installed.
#[derive(Debug, PartialEq, Eq)]
pub enum GpuId {
    /// By position in the driver's enumeration.
    Index(u32),
    /// By the identifier the driver reports for it.
    Uuid(String),
}

/// Mathematical value of a [`GpuId`].
pub enum GpuIdView {
    Index(u32),
    Uuid(Seq<char>),
}

impl View for GpuId {
    type V = GpuIdView;

    open spec fn view(&self) -> GpuIdView {
        match self {
            GpuId::Index(i) => GpuIdView::Index(*i),
            GpuId::Uuid(u) => GpuIdView::Uuid(u@),
        }
    }
}

impl Clone for GpuId {
    fn clone(&self) -> (copy: Self)
        ensures
            copy@ == self@,
    {
        match self {
            GpuId::Index(i) => GpuId::Index(*i),
            GpuId::Uuid(u) => GpuId::Uuid(u.clone()),
        }
    }
}

/// What a tuning request asks of the power limit.
#[derive(Debug, Clone, Copy, PartialEq, Eq, Structural)]
pub enum PowerTarget {
    /// The highest limit the device allows.
    Maximum,
    /// This many milliwatts, brought into the device's bounds.
    Milliwatts(u32),
    /// No change.
    Keep,
}

/// `value` brought into `low..=high`.
pub open spec fn clamped(value: u32, low: u32, high: u32) -> u32 {
    if value < low {
        low
    } else if value > high {
        high
    } else {
        value
    }
}

impl PowerTarget {
    /// The target that a pair of settings stands for: the maximum when it is
    /// asked for, else the given limit, else no change.
    pub open spec fn of(power_limit: Option<u32>, set_max_pwr: Option<bool>) -> PowerTarget {
        if set_max_pwr == Some(true) {
            PowerTarget::Maximum
        } else {
            match power_limit {
                Some(limit) => PowerTarget::Milliwatts(limit),
                None => PowerTarget::Keep,
            }
        }
    }

    /// The limit to write on a device whose bounds are `min_limit` and
    /// `max_limit`, if any is to be written.
    pub open spec fn limit_within(self, min_limit: u32, max_limit: u32) -> Option<u32> {
        match self {
            PowerTarget::Maximum => Some(max_limit),
            PowerTarget::Milliwatts(limit) => Some(clamped(limit, min_limit, max_limit)),
            PowerTarget::Keep => None,
        }
    }

    /// Reads the target off a pair of settings.
    pub fn from_settings(power_limit: Option<u32>, set_max_pwr: Option<bool>) -> (target: PowerTarget)
        ensures
            target == PowerTarget::of(power_limit, set_max_pwr),
    {
        let want_max = match set_max_pwr {
            Some(flag) => flag,
            None => false,
        };
        if want_max {
            PowerTarget::Maximum
        } else {
            match power_limit {
                Some(limit) => PowerTarget::Milliwatts(limit),
                None => PowerTarget::Keep,
            }
        }
    }

    /// Resolves the target against the device's bounds. A limit in
    /// milliwatts can only be brought into bounds that are in order.
    pub fn resolve(self, min_limit: u32, max_limit: u32) -> (limit: Option<u32>)
        requires
            self is Milliwatts ==> min_limit <= max_limit,
        ensures
            limit == self.limit_within(min_limit, max_limit),
            min_limit <= max_limit ==> (limit matches Some(l) ==> min_limit <= l <= max_limit),
    {
        match self {
            PowerTarget::Maximum => Some(max_limit),
            PowerTarget::Milliwatts(limit) => {
                if limit < min_limit {
                    Some(min_limit)
                } else if limit > max_limit {
                    Some(max_limit)
                } else {
                    Some(limit)
                }
            },
            PowerTarget::Keep => None,
        }
    }

    /// Whether resolving changed the limit that was asked for.
    pub fn is_out_of_range(self, min_limit: u32, max_limit: u32) -> (out: bool)
        ensures
            out == (self matches PowerTarget::Milliwatts(l) && clamped(l, min_limit, max_limit)
                != l),
    {
        match self {
            PowerTarget::Milliwatts(limit) => limit < min_limit || limit > max_limit,
            _ => false,
        }
    }
}

/// The daemon's record of the device it has opened.
#[derive(Debug, PartialEq, Eq)]
pub struct NvGpu {
    /// The device that every call is directed at.
    pub gpu_id: GpuId,
}

impl View for NvGpu {
    type V = GpuIdView;

    open spec fn view(&self) -> GpuIdView {
        self.gpu_id@
    }
}

impl NvGpu {
    /// The device meant by an identifier: the first one when the identifier
    /// is empty.
    pub open spec fn device_for(uuid: Seq<char>) -> GpuIdView {
        if uuid.len() == 0 {
            GpuIdView::Index(0)
        } else {
            GpuIdView::Uuid(uuid)
        }
    }

    /// Records which device `uuid` selects.
    pub fn init(uuid: String) -> (gpu: Self)
        ensures
            gpu@ == NvGpu::device_for(uuid@),
    {
        if uuid.as_str().is_empty() {
            NvGpu { gpu_id: GpuId::Index(0) }
        } else {
            NvGpu { gpu_id: GpuId::Uuid(uuid) }
        }
    }

    /// The device that calls are directed at.
    pub fn get_device(&self) -> (id: &GpuId)
        ensures
            id@ == self@,
    {
        &self.gpu_id
    }
}

/// The stand-alone launcher's tuner: a device and the settings to apply to it.
#[derive(Debug, PartialEq, Eq)]
pub struct NvTuner {
    pub config: NvGpuConfig,
    pub device_identifier: GpuId,
}

impl NvTuner {
    /// Whether the settings ask for tuning at all.
    pub open spec fn wanted(config: NvGpuConfig) -> bool {
        config.enabled == Some(true)
    }

    /// The device that the settings name: the first one unless an identifier
    /// is given.
    pub open spec fn device_of(config: NvGpuConfig) -> GpuIdView {
        match config.device_uuid {
            Some(uuid) => GpuIdView::Uuid(uuid@),
            None => GpuIdView::Index(0),
        }
    }

    /// Builds a tuner when the settings enable tuning, and none otherwise.
    pub fn from_config(config: NvGpuConfig) -> (tuner: Option<Self>)
        ensures
            tuner is Some <==> NvTuner::wanted(config),
            tuner matches Some(t) ==> {
                &&& t.device_identifier@ == NvTuner::device_of(config)
                &&& t.config.enabled == config.enabled
                &&& t.config.set_max == config.set_max
                &&& t.config.power_limit == config.power_limit
                &&& opt_text(t.config.device_uuid) == opt_text(config.device_uuid)
            },
    {
        let enabled = match config.enabled {
            Some(flag) => flag,
            None => false,
        };
        if !enabled {
            return None;
        }
        let device_identifier = match &config.device_uuid {
            Some(uuid) => GpuId::Uuid(uuid.clone()),
            None => GpuId::Index(0),
        };
        Some(NvTuner { config, device_identifier })
    }

    /// The device that calls are directed at.
    pub fn get_device(&self) -> (id: &GpuId)
        ensures
            *id == self.device_identifier,
    {
        &self.device_identifier
    }
}

} // verus!
