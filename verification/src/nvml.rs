//! The GPU adapter: carries out the daemon's requests to the GPU through
//! the vendor's management library.
//!
//! What the device reports is the device's affair, and nothing is assumed
//! of it. What is proved is what the adapter makes of those reports: which
//! limit it writes for which request.

use vstd::prelude::*;
use vstd::string::*;
use nvml_wrapper::enum_wrappers::device::TemperatureSensor;
use nvml_wrapper::error::NvmlError;
use nvml_wrapper::{Device, Nvml};
use crate::config::opt_text;
use crate::daemon::{Adapter, AdapterCall, DaemonState, TuningError};
use crate::gpu::{GpuId, NvGpu, NvTuner, PowerTarget};

verus! {

#[verifier::external_type_specification]
#[verifier::external_body]
pub struct ExNvml(Nvml);

#[verifier::external_type_specification]
#[verifier::external_body]
pub struct ExNvmlError(NvmlError);

#[verifier::external_type_specification]
#[verifier::external_body]
pub struct ExDevice<'nvml>(Device<'nvml>);

/// `Nvml::init`: loads the management library and starts it. It fails
/// where the driver is absent or refuses.
#[verifier::external_body]
fn nvml_init() -> (result: Result<Nvml, NvmlError>) {
    Nvml::init()
}

/// `Nvml::device_by_index`: the device at a position of the driver's
/// enumeration, if there is one.
#[verifier::external_body]
fn nvml_device_by_index<'a>(nvml: &'a Nvml, index: u32) -> (result: Result<Device<'a>, NvmlError>) {
    nvml.device_by_index(index)
}

/// `Nvml::device_by_uuid`: the device with the given identifier, if there
/// is one.
#[verifier::external_body]
fn nvml_device_by_uuid<'a>(nvml: &'a Nvml, uuid: &str) -> (result: Result<Device<'a>, NvmlError>) {
    nvml.device_by_uuid(uuid)
}

/// `Device::name`: the product name that the device reports.
#[verifier::external_body]
fn device_name(device: &Device<'_>) -> (result: Result<String, NvmlError>) {
    device.name()
}

/// `Device::power_management_limit_constraints`: the lowest and the highest
/// power limit, in milliwatts, that the device reports to accept, in that
/// order.
#[verifier::external_body]
fn device_power_constraints(device: &Device<'_>) -> (result: Result<(u32, u32), NvmlError>) {
    device.power_management_limit_constraints().map(|c| (c.min_limit, c.max_limit))
}

/// `Device::set_power_management_limit`: asks the device to take a power
/// limit in milliwatts.
#[verifier::external_body]
fn device_set_power_limit(device: &mut Device<'_>, limit: u32) -> (result: Result<(), NvmlError>) {
    device.set_power_management_limit(limit)
}

/// `Device::power_management_limit_default`: the power limit, in
/// milliwatts, that the device reports as its default.
#[verifier::external_body]
fn device_default_power_limit(device: &Device<'_>) -> (result: Result<u32, NvmlError>) {
    device.power_management_limit_default()
}

/// `Device::enforced_power_limit`: the power limit, in milliwatts, that the
/// device reports to be in force.
#[verifier::external_body]
fn device_enforced_power_limit(device: &Device<'_>) -> (result: Result<u32, NvmlError>) {
    device.enforced_power_limit()
}

/// `Device::temperature` for the sensor on the GPU die: the temperature in
/// degrees Celsius that the device reports.
#[verifier::external_body]
fn device_temperature(device: &Device<'_>) -> (result: Result<u32, NvmlError>) {
    device.temperature(TemperatureSensor::Gpu)
}

/// The `Display` text of an `NvmlError`.
#[verifier::external_body]
fn error_text(error: &NvmlError) -> (text: String) {
    format!("{}", error)
}

/// What is reported of a device whose lowest limit lies above its highest.
pub open spec fn inverted_bounds() -> Seq<char> {
    "Device reports a minimum power limit above its maximum"@
}

/// What setting the power limit came to.
#[derive(Debug, Clone, Copy, PartialEq, Eq, Structural)]
pub struct PowerChange {
    /// The lowest limit the device accepts, as it reported.
    pub min_limit: u32,
    /// The highest limit the device accepts, as it reported.
    pub max_limit: u32,
    /// The limit that was written, if one was.
    pub written: Option<u32>,
}

/// The limit to write for `target` on a device that reports the bounds
/// `min_limit` and `max_limit`. A limit in milliwatts cannot be brought into
/// bounds of which the lower lies above the upper: that is an error.
pub open spec fn planned_change(target: PowerTarget, min_limit: u32, max_limit: u32) -> Result<
    PowerChange,
    Seq<char>,
> {
    if target is Milliwatts && min_limit > max_limit {
        Err(inverted_bounds())
    } else {
        Ok(PowerChange { min_limit, max_limit, written: target.limit_within(min_limit, max_limit) })
    }
}

/// Decides which limit to write, given the bounds that the device reported.
pub fn plan_power_change(target: PowerTarget, min_limit: u32, max_limit: u32) -> (plan: Result<
    PowerChange,
    String,
>)
    ensures
        match planned_change(target, min_limit, max_limit) {
            Ok(change) => plan == Ok::<PowerChange, String>(change),
            Err(reason) => plan matches Err(e) && e@ == reason,
        },
{
    match target {
        PowerTarget::Maximum => Ok(PowerChange { min_limit, max_limit, written: Some(max_limit) }),
        PowerTarget::Keep => Ok(PowerChange { min_limit, max_limit, written: None }),
        PowerTarget::Milliwatts(_) => {
            if min_limit > max_limit {
                Err(String::from_str("Device reports a minimum power limit above its maximum"))
            } else {
                Ok(
                    PowerChange {
                        min_limit,
                        max_limit,
                        written: target.resolve(min_limit, max_limit),
                    },
                )
            }
        },
    }
}

/// The started management library.
pub struct GpuDriver {
    nvml: Nvml,
}

impl GpuDriver {
    /// Starts the management library.
    pub fn open() -> (result: Result<Self, String>) {
        match nvml_init() {
            Ok(nvml) => Ok(GpuDriver { nvml }),
            Err(error) => Err(error_text(&error)),
        }
    }

    /// Looks the device up.
    fn device<'a>(&'a self, id: &GpuId) -> (result: Result<Device<'a>, NvmlError>) {
        match id {
            GpuId::Index(index) => nvml_device_by_index(&self.nvml, *index),
            GpuId::Uuid(uuid) => nvml_device_by_uuid(&self.nvml, uuid.as_str()),
        }
    }

    /// Checks that the device is there and answers, and asks it for its
    /// default power limit in milliwatts.
    pub fn probe(&self, id: &GpuId) -> (result: Result<u32, String>) {
        let device = match self.device(id) {
            Ok(device) => device,
            Err(error) => {
                return Err(error_text(&error));
            },
        };
        match device_name(&device) {
            Ok(_) => {},
            Err(error) => {
                return Err(error_text(&error));
            },
        }
        match device_default_power_limit(&device) {
            Ok(limit) => Ok(limit),
            Err(error) => Err(error_text(&error)),
        }
    }

    /// Sets the power limit that `target` asks for. The device is asked for
    /// its bounds first; the limit written is the target resolved against
    /// them, and none is written where the target asks for no change.
    /// Afterwards the device is asked for the limit in force and for its
    /// temperature, and a failure there fails the whole.
    pub fn set_power_limit(&self, id: &GpuId, target: PowerTarget) -> (result: Result<
        PowerChange,
        String,
    >)
        ensures
            result matches Ok(change) ==> planned_change(target, change.min_limit, change.max_limit)
                == Ok::<PowerChange, Seq<char>>(change),
    {
        let mut device = match self.device(id) {
            Ok(device) => device,
            Err(error) => {
                return Err(error_text(&error));
            },
        };
        match device_name(&device) {
            Ok(_) => {},
            Err(error) => {
                return Err(error_text(&error));
            },
        }
        let (min_limit, max_limit) = match device_power_constraints(&device) {
            Ok(bounds) => bounds,
            Err(error) => {
                return Err(error_text(&error));
            },
        };
        let change = match plan_power_change(target, min_limit, max_limit) {
            Ok(change) => change,
            Err(reason) => {
                return Err(reason);
            },
        };
        match change.written {
            Some(limit) => {
                match device_set_power_limit(&mut device, limit) {
                    Ok(_) => {},
                    Err(error) => {
                        return Err(error_text(&error));
                    },
                }
            },
            None => {},
        }
        match device_enforced_power_limit(&device) {
            Ok(_) => {},
            Err(error) => {
                return Err(error_text(&error));
            },
        }
        match device_temperature(&device) {
            Ok(_) => {},
            Err(error) => {
                return Err(error_text(&error));
            },
        }
        Ok(change)
    }

    /// Puts the power limit back to the default that the device reports, and
    /// hands that default back.
    pub fn restore_defaults(&self, id: &GpuId) -> (result: Result<u32, String>) {
        let mut device = match self.device(id) {
            Ok(device) => device,
            Err(error) => {
                return Err(error_text(&error));
            },
        };
        match device_name(&device) {
            Ok(_) => {},
            Err(error) => {
                return Err(error_text(&error));
            },
        }
        let default_limit = match device_default_power_limit(&device) {
            Ok(limit) => limit,
            Err(error) => {
                return Err(error_text(&error));
            },
        };
        match device_set_power_limit(&mut device, default_limit) {
            Ok(_) => Ok(default_limit),
            Err(error) => Err(error_text(&error)),
        }
    }

    /// Carries out a request of the daemon if it is one for the GPU, and
    /// hands back the device's answer. A request for another adapter is left
    /// alone.
    pub fn perform(&self, id: &GpuId, call: &AdapterCall) -> (answer: Option<Result<(), String>>)
        ensures
            answer is Some <==> call@.adapter() == Adapter::Gpu,
    {
        match call {
            AdapterCall::SetPowerLimit { target } => {
                match self.set_power_limit(id, *target) {
                    Ok(_) => Some(Ok(())),
                    Err(reason) => Some(Err(reason)),
                }
            },
            AdapterCall::RestoreGpuDefault => {
                match self.restore_defaults(id) {
                    Ok(_) => Some(Ok(())),
                    Err(reason) => Some(Err(reason)),
                }
            },
            AdapterCall::SetEpp { .. } => None,
            AdapterCall::SetPriority { .. } => None,
        }
    }
}

impl NvGpu {
    /// Sets the power limit of the daemon's device as the settings ask: the
    /// maximum when it is asked for, else the given limit brought into the
    /// device's bounds, else nothing.
    pub fn set_power_limit(
        &self,
        driver: &GpuDriver,
        power_limit: Option<u32>,
        set_max_pwr: Option<bool>,
    ) -> (result: Result<PowerChange, String>)
        ensures
            result matches Ok(change) ==> planned_change(
                PowerTarget::of(power_limit, set_max_pwr),
                change.min_limit,
                change.max_limit,
            ) == Ok::<PowerChange, Seq<char>>(change),
    {
        let target = PowerTarget::from_settings(power_limit, set_max_pwr);
        driver.set_power_limit(&self.gpu_id, target)
    }

    /// Puts the daemon's device back to its default power limit, and hands
    /// that default back.
    pub fn restore_defaults(&self, driver: &GpuDriver) -> (result: Result<u32, String>) {
        driver.restore_defaults(&self.gpu_id)
    }
}

impl NvTuner {
    /// Applies the stored settings to the tuner's device: the maximum when
    /// it is asked for, else the given limit brought into the device's
    /// bounds, else nothing.
    pub fn apply_tuning(&self, driver: &GpuDriver) -> (result: Result<PowerChange, String>)
        ensures
            result matches Ok(change) ==> planned_change(
                PowerTarget::of(self.config.power_limit, self.config.set_max),
                change.min_limit,
                change.max_limit,
            ) == Ok::<PowerChange, Seq<char>>(change),
    {
        let target = PowerTarget::from_settings(self.config.power_limit, self.config.set_max);
        driver.set_power_limit(&self.device_identifier, target)
    }

    /// Puts the tuner's device back to its default power limit, and hands
    /// that default back.
    pub fn restore_defaults(&self, driver: &GpuDriver) -> (result: Result<u32, String>) {
        driver.restore_defaults(&self.device_identifier)
    }
}

impl DaemonState {
    /// Opens the GPU selected by `gpu_uuid`, asks it for its default power
    /// limit and records the device and the baseline. The opened driver is
    /// handed back for the requests to come. On failure the state stays as
    /// it is and GPU tuning stays unavailable.
    pub fn init_gpu(&mut self, gpu_uuid: Option<String>) -> (result: Result<GpuDriver, TuningError>)
        ensures
            match result {
                Ok(_) => exists|default_limit: u32|
                    final(self)@ == old(self)@.after_gpu_init(
                        opt_text(gpu_uuid),
                        Ok(default_limit),
                    ),
                Err(error) => {
                    &&& final(self)@ == old(self)@
                    &&& error@ is Hardware
                    &&& error@->Hardware_adapter == Adapter::Gpu
                },
            },
            old(self)@.wf() ==> final(self)@.wf(),
    {
        let driver = match GpuDriver::open() {
            Ok(driver) => driver,
            Err(reason) => {
                return Err(TuningError::Hardware { adapter: Adapter::Gpu, message: reason });
            },
        };
        let uuid = match &gpu_uuid {
            Some(u) => u.clone(),
            None => String::new(),
        };
        let probe = driver.probe(NvGpu::init(uuid).get_device());
        match self.record_gpu(gpu_uuid, probe) {
            Ok(_) => Ok(driver),
            Err(error) => Err(error),
        }
    }
}

} // verus!
