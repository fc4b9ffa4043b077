//! The environment that a game is started in: a table of defaults, and on
//! top of it what the configuration says for the GPU, for the game and for
//! the executable.

use vstd::prelude::*;
use vstd::string::*;
use crate::config::{flag_text, opt_text, Config, EnvValue, EnvValueView, GameConfigView};
use crate::textmap::{assoc, TextMap};

verus! {

/// Switches the compatibility layer's log on.
pub const LOG: &'static str = "PROTON_LOG";

/// Switches the overlay on.
pub const HUD: &'static str = "MANGOHUD";

/// Holds the overlay's settings.
pub const HUD_CFG: &'static str = "MANGOHUD_CONFIG";

/// Switches the kernel's synchronisation primitive on.
pub const NTSYNC: &'static str = "PROTON_USE_NTSYNC";

/// Switches the native display protocol on.
pub const WAYLAND: &'static str = "PROTON_ENABLE_WAYLAND";

/// Names the device that one translation layer is to use.
pub const DXVK_GPU: &'static str = "DXVK_FILTER_DEVICE_NAME";

/// Names the device that the other translation layer is to use.
pub const VKD3D_GPU: &'static str = "VKD3D_FILTER_DEVICE_NAME";

/// Holds the library overrides.
pub const WINE_DLLS: &'static str = "WINEDLLOVERRIDES";

/// A table of environment variables.
pub type Vars = Map<Seq<char>, Seq<char>>;

/// The variables that every game starts with.
pub open spec fn env_defaults() -> Vars {
    Map::<Seq<char>, Seq<char>>::empty().insert("MANGOHUD"@, "0"@).insert(
        "MANGOHUD_CONFIG"@,
        "preset=1"@,
    ).insert("PROTON_LOG"@, "0"@).insert("DXVK_LOG_LEVEL"@, "info"@).insert(
        "DXVK_NVAPI_LOG_LEVEL"@,
        "info"@,
    ).insert("DXVK_NVAPI_VKREFLEX_LAYER_LOG_LEVEL"@, "info"@).insert("VKD3D_DEBUG"@, "info"@).insert(
        "VKD3D_SHADER_DEBUG"@,
        "info"@,
    ).insert("WINEDEBUG"@, "+err,+warn,-all"@).insert("PROTON_USE_NTSYNC"@, "0"@).insert(
        "PROTON_ENABLE_WAYLAND"@,
        "0"@,
    ).insert("PROTON_SET_GAME_DRIVE"@, "1"@).insert(
        "DXVK_NVAPI_SET_NGX_DEBUG_OPTIONS"@,
        "DLSSIndicator=0,DLSSGIndicator=0"@,
    ).insert("DXVK_NVAPI_DRS_NGX_DLSS_RR_OVERRIDE"@, "on"@).insert(
        "DXVK_NVAPI_DRS_NGX_DLSS_RR_OVERRIDE_RENDER_PRESET_SELECTION"@,
        "render_preset_latest"@,
    ).insert("DXVK_NVAPI_DRS_NGX_DLSS_SR_OVERRIDE"@, "on"@).insert(
        "DXVK_NVAPI_DRS_NGX_DLSS_SR_OVERRIDE_RENDER_PRESET_SELECTION"@,
        "render_preset_latest"@,
    ).insert("__NV_PRIME_RENDER_OFFLOAD"@, "1"@).insert("__GLX_VENDOR_LIBRARY_NAME"@, "nvidia"@).insert(
        "__VK_LAYER_NV_optimus"@,
        "NVIDIA_only"@,
    ).insert("VK_ICD_FILENAMES"@, "/usr/share/vulkan/icd.d/nvidia_icd.json"@).insert(
        "__GL_ExperimentalPerfStrategy"@,
        "1"@,
    ).insert("__GL_GSYNC_ALLOWED"@, "1"@).insert("__GL_MaxFramesAllowed"@, "1"@).insert(
        "__GL_VRR_ALLOWED"@,
        "1"@,
    ).insert("__GL_YIELD"@, "USLEEP"@)
}

/// The text of every value of a table.
pub open spec fn rendered_values(values: Map<Seq<char>, EnvValueView>) -> Vars {
    values.map_values(|v: EnvValueView| v.rendered())
}

/// `base` with the variables of `values` on top.
pub open spec fn merged(base: Vars, values: Map<Seq<char>, EnvValueView>) -> Vars {
    base.union_prefer_right(rendered_values(values))
}

/// `base` with the variables of `values` on top, if there are any.
pub open spec fn merged_opt(base: Vars, values: Option<Map<Seq<char>, EnvValueView>>) -> Vars {
    match values {
        Some(v) => merged(base, v),
        None => base,
    }
}

/// `base` with both device filters set to the GPU's name, if it has one.
pub open spec fn with_gpu(base: Vars, gpu_name: Option<Seq<char>>) -> Vars {
    match gpu_name {
        Some(name) => base.insert(DXVK_GPU@, name).insert(VKD3D_GPU@, name),
        None => base,
    }
}

/// `base` with the game's switches on top: the four flags always, the
/// overlay's settings and the library overrides where the game gives them.
pub open spec fn with_game(base: Vars, game: Option<GameConfigView>) -> Vars {
    match game {
        Some(g) => {
            let flags = base.insert(HUD@, flag_text(g.mangohud)).insert(
                LOG@,
                flag_text(g.proton_log),
            ).insert(NTSYNC@, flag_text(g.proton_ntsync)).insert(
                WAYLAND@,
                flag_text(g.proton_wayland),
            );
            let hud = match g.mangohud_conf {
                Some(conf) => flags.insert(HUD_CFG@, conf),
                None => flags,
            };
            match g.wine_dll_overrides {
                Some(dlls) => hud.insert(WINE_DLLS@, dlls),
                None => hud,
            }
        },
        None => base,
    }
}

/// The entry of `table` under `key`, if there is one.
pub open spec fn lookup<T>(table: Map<Seq<char>, T>, key: Seq<char>) -> Option<T> {
    if table.contains_key(key) {
        Some(table[key])
    } else {
        None
    }
}

/// Puts every entry of `values` into `vars`, as text.
fn merge_into(vars: &mut TextMap<String>, values: &TextMap<EnvValue>)
    ensures
        final(vars)@ == merged(old(vars)@, values@),
{
    let n = values.len();
    let ghost list = values.listing();
    let mut i: usize = 0;
    assert(merged(old(vars)@, assoc(list.take(0))) =~= old(vars)@);
    while i < n
        invariant
            0 <= i <= n,
            n == list.len(),
            list == values.listing(),
            vars@ == merged(old(vars)@, assoc(list.take(i as int))),
        decreases n - i,
    {
        let key = values.key_at(i).clone();
        let text = values.value_at(i).to_string();
        let ghost before = assoc(list.take(i as int));
        vars.insert(key, text);
        proof {
            let next = list.take(i + 1);
            assert(next.drop_last() =~= list.take(i as int));
            assert(next.last() == list[i as int]);
            assert(assoc(next) == before.insert(list[i as int].0@, list[i as int].1@));
            assert(rendered_values(assoc(next)) =~= rendered_values(before).insert(
                list[i as int].0@,
                list[i as int].1@.rendered(),
            ));
            assert(vars@ =~= merged(old(vars)@, assoc(next)));
        }
        i = i + 1;
    }
    assert(list.take(n as int) =~= list);
}

/// Builds the environment of a game.
pub struct EnvBuilder {
    pub vars: TextMap<String>,
}

impl View for EnvBuilder {
    type V = Vars;

    open spec fn view(&self) -> Vars {
        self.vars@
    }
}

impl EnvBuilder {
    /// A builder that holds the defaults.
    pub fn new() -> (builder: Self)
        ensures
            builder@ == env_defaults(),
    {
        let mut b = EnvBuilder { vars: TextMap::new() };
        b.set_str("MANGOHUD", "0");
        b.set_str("MANGOHUD_CONFIG", "preset=1");
        b.set_str("PROTON_LOG", "0");
        b.set_str("DXVK_LOG_LEVEL", "info");
        b.set_str("DXVK_NVAPI_LOG_LEVEL", "info");
        b.set_str("DXVK_NVAPI_VKREFLEX_LAYER_LOG_LEVEL", "info");
        b.set_str("VKD3D_DEBUG", "info");
        b.set_str("VKD3D_SHADER_DEBUG", "info");
        b.set_str("WINEDEBUG", "+err,+warn,-all");
        b.set_str("PROTON_USE_NTSYNC", "0");
        b.set_str("PROTON_ENABLE_WAYLAND", "0");
        b.set_str("PROTON_SET_GAME_DRIVE", "1");
        b.set_str("DXVK_NVAPI_SET_NGX_DEBUG_OPTIONS", "DLSSIndicator=0,DLSSGIndicator=0");
        b.set_str("DXVK_NVAPI_DRS_NGX_DLSS_RR_OVERRIDE", "on");
        b.set_str(
            "DXVK_NVAPI_DRS_NGX_DLSS_RR_OVERRIDE_RENDER_PRESET_SELECTION",
            "render_preset_latest",
        );
        b.set_str("DXVK_NVAPI_DRS_NGX_DLSS_SR_OVERRIDE", "on");
        b.set_str(
            "DXVK_NVAPI_DRS_NGX_DLSS_SR_OVERRIDE_RENDER_PRESET_SELECTION",
            "render_preset_latest",
        );
        b.set_str("__NV_PRIME_RENDER_OFFLOAD", "1");
        b.set_str("__GLX_VENDOR_LIBRARY_NAME", "nvidia");
        b.set_str("__VK_LAYER_NV_optimus", "NVIDIA_only");
        b.set_str("VK_ICD_FILENAMES", "/usr/share/vulkan/icd.d/nvidia_icd.json");
        b.set_str("__GL_ExperimentalPerfStrategy", "1");
        b.set_str("__GL_GSYNC_ALLOWED", "1");
        b.set_str("__GL_MaxFramesAllowed", "1");
        b.set_str("__GL_VRR_ALLOWED", "1");
        b.set_str("__GL_YIELD", "USLEEP");
        b
    }

    /// Sets `key` to `val`.
    pub fn set_str(&mut self, key: &str, val: &str)
        ensures
            final(self)@ == old(self)@.insert(key@, val@),
    {
        self.vars.insert(String::from_str(key), String::from_str(val));
    }

    /// Sets `key` to `1` or `0`.
    pub fn set_bool(&mut self, key: &str, enabled: bool)
        ensures
            final(self)@ == old(self)@.insert(key@, flag_text(enabled)),
    {
        if enabled {
            self.set_str(key, "1")
        } else {
            self.set_str(key, "0")
        }
    }

    /// The environment for the game `exe_name`: the builder's variables,
    /// then the GPU's name, then the game's switches, then the variables
    /// that the configuration lists for the executable.
    pub fn with_config(self, config: &Config, exe_name: &String) -> (vars: TextMap<String>)
        ensures
            vars@ == merged_opt(
                with_game(
                    with_gpu(self@, opt_text(config.gpu.gpu_name)),
                    lookup(config.game@, exe_name@),
                ),
                lookup(config.env@, exe_name@),
            ),
    {
        let mut b = self;
        match &config.gpu.gpu_name {
            Some(device) => {
                b.set_str(DXVK_GPU, device.as_str());
                b.set_str(VKD3D_GPU, device.as_str());
            },
            None => {},
        }
        match config.game.get(exe_name.as_str()) {
            Some(game) => {
                b.set_bool(HUD, game.mangohud);
                b.set_bool(LOG, game.proton_log);
                b.set_bool(NTSYNC, game.proton_ntsync);
                b.set_bool(WAYLAND, game.proton_wayland);
                match &game.mangohud_conf {
                    Some(conf) => {
                        b.set_str(HUD_CFG, conf.as_str());
                    },
                    None => {},
                }
                match &game.wine_dll_overrides {
                    Some(dlls) => {
                        b.set_str(WINE_DLLS, dlls.as_str());
                    },
                    None => {},
                }
            },
            None => {},
        }
        match config.env.get(exe_name.as_str()) {
            Some(values) => {
                merge_into(&mut b.vars, values);
            },
            None => {},
        }
        b.build()
    }

    /// The builder with `key` set to `val`.
    pub fn with_env(self, key: &str, val: &str) -> (builder: Self)
        ensures
            builder@ == self@.insert(key@, val@),
    {
        let mut b = self;
        b.set_str(key, val);
        b
    }

    /// The builder with `key` set to `1` or `0`.
    pub fn with_bool(self, key: &str, enabled: bool) -> (builder: Self)
        ensures
            builder@ == self@.insert(key@, flag_text(enabled)),
    {
        let mut b = self;
        b.set_bool(key, enabled);
        b
    }

    /// The builder with both device filters set to `device`.
    pub fn with_gpu_name(self, device: &str) -> (builder: Self)
        ensures
            builder@ == with_gpu(self@, Some(device@)),
    {
        self.with_env(DXVK_GPU, device).with_env(VKD3D_GPU, device)
    }

    /// The builder with the overlay switched on or off.
    pub fn with_mangohud(self, enabled: bool) -> (builder: Self)
        ensures
            builder@ == self@.insert(HUD@, flag_text(enabled)),
    {
        self.with_bool(HUD, enabled)
    }

    /// The builder with the compatibility layer's log switched on or off.
    pub fn with_log(self, enabled: bool) -> (builder: Self)
        ensures
            builder@ == self@.insert(LOG@, flag_text(enabled)),
    {
        self.with_bool(LOG, enabled)
    }

    /// The builder with the kernel's synchronisation primitive switched on
    /// or off.
    pub fn with_ntsync(self, enabled: bool) -> (builder: Self)
        ensures
            builder@ == self@.insert(NTSYNC@, flag_text(enabled)),
    {
        self.with_bool(NTSYNC, enabled)
    }

    /// The builder with the native display protocol switched on or off.
    pub fn with_wayland(self, enabled: bool) -> (builder: Self)
        ensures
            builder@ == self@.insert(WAYLAND@, flag_text(enabled)),
    {
        self.with_bool(WAYLAND, enabled)
    }

    /// The builder with the library overrides set to `value`.
    pub fn with_dll_overrides(self, value: &str) -> (builder: Self)
        ensures
            builder@ == self@.insert(WINE_DLLS@, value@),
    {
        self.with_env(WINE_DLLS, value)
    }

    /// The variables gathered so far.
    pub fn build(self) -> (vars: TextMap<String>)
        ensures
            vars@ == self@,
    {
        self.vars
    }

    /// Puts the variables meant for every game on top.
    pub fn merge_global(&mut self, global: &TextMap<EnvValue>)
        ensures
            final(self)@ == merged(old(self)@, global@),
    {
        merge_into(&mut self.vars, global);
    }

    /// Puts the variables meant for the executable on top, if there are any.
    pub fn merge_executable(&mut self, exe_vars: Option<&TextMap<EnvValue>>)
        ensures
            final(self)@ == merged_opt(
                old(self)@,
                match exe_vars {
                    Some(values) => Some(values@),
                    None => None,
                },
            ),
    {
        match exe_vars {
            Some(values) => {
                merge_into(&mut self.vars, values);
            },
            None => {},
        }
    }
}

/// Builds an environment from nothing but the configuration.
pub struct EnvironmentBuilder {
    pub vars: TextMap<String>,
}

impl View for EnvironmentBuilder {
    type V = Vars;

    open spec fn view(&self) -> Vars {
        self.vars@
    }
}

impl EnvironmentBuilder {
    /// A builder without variables.
    pub fn new() -> (builder: Self)
        ensures
            builder@ == Map::<Seq<char>, Seq<char>>::empty(),
    {
        EnvironmentBuilder { vars: TextMap::new() }
    }

    /// Puts the variables meant for every game on top.
    pub fn merge_global(&mut self, global: &TextMap<EnvValue>)
        ensures
            final(self)@ == merged(old(self)@, global@),
    {
        merge_into(&mut self.vars, global);
    }

    /// Puts the variables meant for the executable on top, if there are any.
    pub fn merge_executable(&mut self, exe_vars: Option<&TextMap<EnvValue>>)
        ensures
            final(self)@ == merged_opt(
                old(self)@,
                match exe_vars {
                    Some(values) => Some(values@),
                    None => None,
                },
            ),
    {
        match exe_vars {
            Some(values) => {
                merge_into(&mut self.vars, values);
            },
            None => {},
        }
    }

    /// The variables gathered so far.
    pub fn build(self) -> (vars: TextMap<String>)
        ensures
            vars@ == self@,
    {
        self.vars
    }
}

} // verus!
