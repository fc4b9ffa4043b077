//! Tuning sections and the per-game settings that a request or a
//! configuration file carries, each with its defaults.

use vstd::prelude::*;
use vstd::string::*;
use crate::text::{i64_to_string, signed_decimal};
use crate::textmap::TextMap;

verus! {

/// CPU energy-performance-preference section.
#[derive(Debug, PartialEq, Eq)]
pub struct CpuTune {
    /// Whether CPU tuning is requested at all.
    pub enabled: bool,
    /// Profile to switch to while a tracked process runs.
    pub amd_epp_tune: String,
    /// Profile to return to once nothing is tracked any more.
    pub amd_epp_base: String,
}

/// Mathematical value of a [`CpuTune`].
pub struct CpuTuneView {
    pub enabled: bool,
    pub amd_epp_tune: Seq<char>,
    pub amd_epp_base: Seq<char>,
}

impl View for CpuTune {
    type V = CpuTuneView;

    open spec fn view(&self) -> CpuTuneView {
        CpuTuneView {
            enabled: self.enabled,
            amd_epp_tune: self.amd_epp_tune@,
            amd_epp_base: self.amd_epp_base@,
        }
    }
}

impl CpuTune {
    /// The section used when a request or a file leaves it out.
    pub open spec fn spec_default() -> CpuTuneView {
        CpuTuneView {
            enabled: false,
            amd_epp_tune: "performance"@,
            amd_epp_base: "balance_performance"@,
        }
    }
}

impl Default for CpuTune {
    fn default() -> (section: Self)
        ensures
            section@ == CpuTune::spec_default(),
    {
        CpuTune {
            enabled: false,
            amd_epp_tune: String::from_str("performance"),
            amd_epp_base: String::from_str("balance_performance"),
        }
    }
}

impl Clone for CpuTune {
    fn clone(&self) -> (copy: Self)
        ensures
            copy@ == self@,
    {
        CpuTune {
            enabled: self.enabled,
            amd_epp_tune: self.amd_epp_tune.clone(),
            amd_epp_base: self.amd_epp_base.clone(),
        }
    }
}

/// View of an optional string.
pub open spec fn opt_text(s: Option<String>) -> Option<Seq<char>> {
    match s {
        Some(text) => Some(text@),
        None => None,
    }
}

/// Copies an optional string.
pub fn clone_opt_text(s: &Option<String>) -> (copy: Option<String>)
    ensures
        opt_text(copy) == opt_text(*s),
{
    match s {
        Some(text) => Some(text.clone()),
        None => None,
    }
}

/// GPU power section.
#[derive(Debug, PartialEq, Eq)]
pub struct GpuTune {
    /// Whether GPU tuning is requested at all.
    pub enabled: bool,
    /// Device name handed to the graphics translation layers.
    pub gpu_name: Option<String>,
    /// Identifier of the device to tune; the first device when absent.
    pub gpu_uuid: Option<String>,
    /// Path of the Vulkan driver manifest.
    pub gpu_vlk_icd: String,
    /// Raise the power limit to the highest value the device allows.
    pub set_max_pwr: bool,
    /// Power limit in milliwatts to apply when the maximum is not asked for.
    pub pwr_limit_tune: Option<u32>,
}

/// Mathematical value of a [`GpuTune`].
pub struct GpuTuneView {
    pub enabled: bool,
    pub gpu_name: Option<Seq<char>>,
    pub gpu_uuid: Option<Seq<char>>,
    pub gpu_vlk_icd: Seq<char>,
    pub set_max_pwr: bool,
    pub pwr_limit_tune: Option<u32>,
}

impl View for GpuTune {
    type V = GpuTuneView;

    open spec fn view(&self) -> GpuTuneView {
        GpuTuneView {
            enabled: self.enabled,
            gpu_name: opt_text(self.gpu_name),
            gpu_uuid: opt_text(self.gpu_uuid),
            gpu_vlk_icd: self.gpu_vlk_icd@,
            set_max_pwr: self.set_max_pwr,
            pwr_limit_tune: self.pwr_limit_tune,
        }
    }
}

impl GpuTune {
    /// The section used when a request or a file leaves it out.
    pub open spec fn spec_default() -> GpuTuneView {
        GpuTuneView {
            enabled: false,
            gpu_name: None,
            gpu_uuid: None,
            gpu_vlk_icd: "/usr/share/vulkan/icd.d/nvidia_icd.json"@,
            set_max_pwr: false,
            pwr_limit_tune: None,
        }
    }
}

impl Default for GpuTune {
    fn default() -> (section: Self)
        ensures
            section@ == GpuTune::spec_default(),
    {
        GpuTune {
            enabled: false,
            gpu_name: None,
            gpu_uuid: None,
            gpu_vlk_icd: String::from_str("/usr/share/vulkan/icd.d/nvidia_icd.json"),
            set_max_pwr: false,
            pwr_limit_tune: None,
        }
    }
}

impl Clone for GpuTune {
    fn clone(&self) -> (copy: Self)
        ensures
            copy@ == self@,
    {
        GpuTune {
            enabled: self.enabled,
            gpu_name: clone_opt_text(&self.gpu_name),
            gpu_uuid: clone_opt_text(&self.gpu_uuid),
            gpu_vlk_icd: self.gpu_vlk_icd.clone(),
            set_max_pwr: self.set_max_pwr,
            pwr_limit_tune: self.pwr_limit_tune,
        }
    }
}

/// Process scheduling section.
#[derive(Debug, Clone, Copy, PartialEq, Eq, Structural)]
pub struct SysTune {
    /// Whether process tuning is requested at all.
    pub enabled: bool,
    /// I/O priority level, 0 (highest) to 7 (lowest).
    pub proc_ioprio: i32,
    /// Nice value to give the tracked process; 0 leaves it alone.
    pub proc_renice: i32,
    /// Whether the split-lock mitigation workaround is wanted.
    pub splitlock_hack: bool,
    /// Seconds between two liveness probes of a tracked process.
    pub watchdog_interval_sec: u64,
}

impl SysTune {
    /// The section used when a request or a file leaves it out.
    pub open spec fn spec_default() -> SysTune {
        SysTune {
            enabled: false,
            proc_ioprio: 4,
            proc_renice: 0,
            splitlock_hack: false,
            watchdog_interval_sec: 10,
        }
    }
}

impl Default for SysTune {
    fn default() -> (section: Self)
        ensures
            section == SysTune::spec_default(),
    {
        SysTune {
            enabled: false,
            proc_ioprio: 4,
            proc_renice: 0,
            splitlock_hack: false,
            watchdog_interval_sec: 10,
        }
    }
}

/// Commands to run around a game session.
#[derive(Debug, PartialEq, Eq)]
pub struct HooksConfig {
    /// Shell command run before the game starts.
    pub init: Option<String>,
    /// Shell command run after the game has ended.
    pub shutdown: Option<String>,
}

impl Default for HooksConfig {
    fn default() -> (hooks: Self)
        ensures
            hooks.init is None,
            hooks.shutdown is None,
    {
        HooksConfig { init: None, shutdown: None }
    }
}

/// Per-game switches for the overlay and the compatibility layer.
#[derive(Debug, PartialEq, Eq)]
pub struct GameConfig {
    pub mangohud: bool,
    pub mangohud_conf: Option<String>,
    pub proton_log: bool,
    pub proton_ntsync: bool,
    pub proton_wayland: bool,
    pub wine_dll_overrides: Option<String>,
}

impl Default for GameConfig {
    fn default() -> (game: Self)
        ensures
            !game.mangohud,
            game.mangohud_conf is None,
            !game.proton_log,
            !game.proton_ntsync,
            !game.proton_wayland,
            game.wine_dll_overrides is None,
    {
        GameConfig {
            mangohud: false,
            mangohud_conf: None,
            proton_log: false,
            proton_ntsync: false,
            proton_wayland: false,
            wine_dll_overrides: None,
        }
    }
}

impl Clone for GameConfig {
    fn clone(&self) -> (copy: Self)
        ensures
            copy.mangohud == self.mangohud,
            opt_text(copy.mangohud_conf) == opt_text(self.mangohud_conf),
            copy.proton_log == self.proton_log,
            copy.proton_ntsync == self.proton_ntsync,
            copy.proton_wayland == self.proton_wayland,
            opt_text(copy.wine_dll_overrides) == opt_text(self.wine_dll_overrides),
    {
        GameConfig {
            mangohud: self.mangohud,
            mangohud_conf: clone_opt_text(&self.mangohud_conf),
            proton_log: self.proton_log,
            proton_ntsync: self.proton_ntsync,
            proton_wayland: self.proton_wayland,
            wine_dll_overrides: clone_opt_text(&self.wine_dll_overrides),
        }
    }
}

/// Settings shared by every game of the stand-alone launcher.
#[derive(Debug, PartialEq, Eq)]
pub struct CommonConfig {
    pub amd_epp: Option<String>,
    pub gpu_id: Option<String>,
    pub priority: Option<i32>,
}

impl Default for CommonConfig {
    fn default() -> (common: Self)
        ensures
            common.amd_epp is None,
            common.gpu_id is None,
            common.priority is None,
    {
        CommonConfig { amd_epp: None, gpu_id: None, priority: None }
    }
}

/// GPU settings of the stand-alone launcher, every field optional.
#[derive(Debug, PartialEq, Eq)]
pub struct NvGpuConfig {
    pub enabled: Option<bool>,
    pub set_max: Option<bool>,
    pub power_limit: Option<u32>,
    pub device_uuid: Option<String>,
}

impl Default for NvGpuConfig {
    fn default() -> (gpu: Self)
        ensures
            gpu.enabled is None,
            gpu.set_max is None,
            gpu.power_limit is None,
            gpu.device_uuid is None,
    {
        NvGpuConfig { enabled: None, set_max: None, power_limit: None, device_uuid: None }
    }
}

impl Clone for NvGpuConfig {
    fn clone(&self) -> (copy: Self)
        ensures
            copy.enabled == self.enabled,
            copy.set_max == self.set_max,
            copy.power_limit == self.power_limit,
            opt_text(copy.device_uuid) == opt_text(self.device_uuid),
    {
        NvGpuConfig {
            enabled: self.enabled,
            set_max: self.set_max,
            power_limit: self.power_limit,
            device_uuid: clone_opt_text(&self.device_uuid),
        }
    }
}

/// Tuning settings of the stand-alone launcher.
#[derive(Debug, PartialEq, Eq)]
pub struct TuningConfig {
    pub nvidia: NvGpuConfig,
}

impl Default for TuningConfig {
    fn default() -> (tuning: Self)
        ensures
            tuning.nvidia.enabled is None,
            tuning.nvidia.set_max is None,
            tuning.nvidia.power_limit is None,
            tuning.nvidia.device_uuid is None,
    {
        TuningConfig { nvidia: NvGpuConfig::default() }
    }
}

/// Mathematical value of a [`GameConfig`].
pub struct GameConfigView {
    pub mangohud: bool,
    pub mangohud_conf: Option<Seq<char>>,
    pub proton_log: bool,
    pub proton_ntsync: bool,
    pub proton_wayland: bool,
    pub wine_dll_overrides: Option<Seq<char>>,
}

impl View for GameConfig {
    type V = GameConfigView;

    open spec fn view(&self) -> GameConfigView {
        GameConfigView {
            mangohud: self.mangohud,
            mangohud_conf: opt_text(self.mangohud_conf),
            proton_log: self.proton_log,
            proton_ntsync: self.proton_ntsync,
            proton_wayland: self.proton_wayland,
            wine_dll_overrides: opt_text(self.wine_dll_overrides),
        }
    }
}

/// The value of an environment variable as a configuration file gives it.
#[derive(Debug, PartialEq, Eq)]
pub enum EnvValue {
    String(String),
    Integer(i64),
    /// A number with a fraction, kept as its decimal text.
    Float(String),
    Boolean(bool),
}

/// Mathematical value of an [`EnvValue`].
pub enum EnvValueView {
    String(Seq<char>),
    Integer(i64),
    Float(Seq<char>),
    Boolean(bool),
}

/// The text that stands for a switch: `1` when on, `0` when off.
pub open spec fn flag_text(enabled: bool) -> Seq<char> {
    if enabled {
        "1"@
    } else {
        "0"@
    }
}

impl EnvValueView {
    /// The text that the variable is set to: a string as it is, a number in
    /// decimal, a switch as `1` or `0`.
    pub open spec fn rendered(self) -> Seq<char> {
        match self {
            EnvValueView::String(s) => s,
            EnvValueView::Integer(i) => signed_decimal(i as int),
            EnvValueView::Float(text) => text,
            EnvValueView::Boolean(b) => flag_text(b),
        }
    }
}

impl View for EnvValue {
    type V = EnvValueView;

    open spec fn view(&self) -> EnvValueView {
        match self {
            EnvValue::String(s) => EnvValueView::String(s@),
            EnvValue::Integer(i) => EnvValueView::Integer(*i),
            EnvValue::Float(text) => EnvValueView::Float(text@),
            EnvValue::Boolean(b) => EnvValueView::Boolean(*b),
        }
    }
}

impl Clone for EnvValue {
    fn clone(&self) -> (copy: Self)
        ensures
            copy@ == self@,
    {
        match self {
            EnvValue::String(s) => EnvValue::String(s.clone()),
            EnvValue::Integer(i) => EnvValue::Integer(*i),
            EnvValue::Float(text) => EnvValue::Float(text.clone()),
            EnvValue::Boolean(b) => EnvValue::Boolean(*b),
        }
    }
}

impl EnvValue {
    /// The text that the variable is set to.
    pub fn to_string(&self) -> (text: String)
        ensures
            text@ == self@.rendered(),
    {
        match self {
            EnvValue::String(s) => s.clone(),
            EnvValue::Integer(i) => i64_to_string(*i),
            EnvValue::Float(text) => text.clone(),
            EnvValue::Boolean(b) => {
                if *b {
                    String::from_str("1")
                } else {
                    String::from_str("0")
                }
            },
        }
    }
}

/// Environment variables of the stand-alone launcher: those for every game, and
/// those for single executables.
pub struct EnvironmentConfig {
    pub global: TextMap<EnvValue>,
    pub executables: TextMap<TextMap<EnvValue>>,
}

/// Everything a configuration file holds.
pub struct Config {
    pub cpu: CpuTune,
    pub gpu: GpuTune,
    pub sys: SysTune,
    /// Environment variables by executable name.
    pub env: TextMap<TextMap<EnvValue>>,
    /// Game settings by executable name.
    pub game: TextMap<GameConfig>,
    pub hook: HooksConfig,
}

impl Default for Config {
    fn default() -> (config: Self)
        ensures
            config.cpu@ == CpuTune::spec_default(),
            config.gpu@ == GpuTune::spec_default(),
            config.sys == SysTune::spec_default(),
            config.env@ == Map::<Seq<char>, Map<Seq<char>, EnvValueView>>::empty(),
            config.game@ == Map::<Seq<char>, GameConfigView>::empty(),
            config.hook.init is None,
            config.hook.shutdown is None,
    {
        Config {
            cpu: CpuTune::default(),
            gpu: GpuTune::default(),
            sys: SysTune::default(),
            env: TextMap::new(),
            game: TextMap::new(),
            hook: HooksConfig::default(),
        }
    }
}

} // verus!
