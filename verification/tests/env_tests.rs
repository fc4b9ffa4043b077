use nvprime::config::{Config, EnvValue, GameConfig, GpuTune};
use nvprime::env::{
    EnvBuilder, EnvironmentBuilder, DXVK_GPU, HUD, HUD_CFG, LOG, NTSYNC, VKD3D_GPU, WAYLAND,
    WINE_DLLS,
};
use nvprime::textmap::TextMap;

#[test]
fn test_env_builder_new() {
    let builder = EnvBuilder::new();
    assert!(!builder.vars.is_empty());
    assert_eq!(
        builder.vars.get("__NV_PRIME_RENDER_OFFLOAD"),
        Some(&"1".to_string())
    );
    assert_eq!(
        builder.vars.get("__GLX_VENDOR_LIBRARY_NAME"),
        Some(&"nvidia".to_string())
    );
}

#[test]
fn test_env_builder_with_env() {
    let builder = EnvBuilder::new().with_env("TEST_VAR", "test_value");
    let vars = builder.build();
    assert_eq!(vars.get("TEST_VAR"), Some(&"test_value".to_string()));
}

#[test]
fn test_env_builder_with_bool() {
    let builder = EnvBuilder::new()
        .with_bool("ENABLED_FLAG", true)
        .with_bool("DISABLED_FLAG", false);
    let vars = builder.build();
    assert_eq!(vars.get("ENABLED_FLAG"), Some(&"1".to_string()));
    assert_eq!(vars.get("DISABLED_FLAG"), Some(&"0".to_string()));
}

#[test]
fn test_env_builder_with_gpu_name() {
    let builder = EnvBuilder::new().with_gpu_name("NVIDIA RTX 4090");
    let vars = builder.build();
    assert_eq!(vars.get(DXVK_GPU), Some(&"NVIDIA RTX 4090".to_string()));
    assert_eq!(vars.get(VKD3D_GPU), Some(&"NVIDIA RTX 4090".to_string()));
}

#[test]
fn test_env_builder_with_mangohud() {
    let builder = EnvBuilder::new().with_mangohud(true);
    let vars = builder.build();
    assert_eq!(vars.get(HUD), Some(&"1".to_string()));
}

#[test]
fn test_env_builder_with_log() {
    let builder = EnvBuilder::new().with_log(true);
    let vars = builder.build();
    assert_eq!(vars.get(LOG), Some(&"1".to_string()));
}

#[test]
fn test_env_builder_with_ntsync() {
    let builder = EnvBuilder::new().with_ntsync(true);
    let vars = builder.build();
    assert_eq!(vars.get(NTSYNC), Some(&"1".to_string()));
}

#[test]
fn test_env_builder_with_wayland() {
    let builder = EnvBuilder::new().with_wayland(true);
    let vars = builder.build();
    assert_eq!(vars.get(WAYLAND), Some(&"1".to_string()));
}

#[test]
fn test_env_builder_with_dll_overrides() {
    let builder = EnvBuilder::new().with_dll_overrides("dinput8=n,b");
    let vars = builder.build();
    assert_eq!(vars.get(WINE_DLLS), Some(&"dinput8=n,b".to_string()));
}

#[test]
fn test_env_builder_merge_global() {
    let mut builder = EnvBuilder::new();
    let mut global = TextMap::new();
    global.insert(
        "GLOBAL_VAR".to_string(),
        EnvValue::String("global_value".to_string()),
    );
    global.insert("GLOBAL_INT".to_string(), EnvValue::Integer(42));

    builder.merge_global(&global);
    let vars = builder.build();

    assert_eq!(vars.get("GLOBAL_VAR"), Some(&"global_value".to_string()));
    assert_eq!(vars.get("GLOBAL_INT"), Some(&"42".to_string()));
}

#[test]
fn test_env_builder_with_config_minimal() {
    let config = Config {
        cpu: Default::default(),
        gpu: GpuTune::default(),
        sys: Default::default(),
        env: Default::default(),
        game: Default::default(),
        hook: Default::default(),
    };

    let vars = EnvBuilder::new().with_config(&config, &"testgame".to_string());
    assert!(!vars.is_empty());
    assert_eq!(
        vars.get("__NV_PRIME_RENDER_OFFLOAD"),
        Some(&"1".to_string())
    );
}

#[test]
fn test_env_builder_with_config_gpu_name() {
    let mut config = Config {
        cpu: Default::default(),
        gpu: GpuTune::default(),
        sys: Default::default(),
        env: Default::default(),
        game: Default::default(),
        hook: Default::default(),
    };
    config.gpu.gpu_name = Some("Test GPU".to_string());

    let vars = EnvBuilder::new().with_config(&config, &"testgame".to_string());
    assert_eq!(vars.get(DXVK_GPU), Some(&"Test GPU".to_string()));
    assert_eq!(vars.get(VKD3D_GPU), Some(&"Test GPU".to_string()));
}

#[test]
fn test_env_builder_with_config_game_specific() {
    let mut config = Config {
        cpu: Default::default(),
        gpu: GpuTune::default(),
        sys: Default::default(),
        env: Default::default(),
        game: Default::default(),
        hook: Default::default(),
    };

    let game_config = GameConfig {
        mangohud: true,
        mangohud_conf: Some("fps_only=1".to_string()),
        proton_log: true,
        proton_ntsync: true,
        proton_wayland: false,
        wine_dll_overrides: Some("dinput8=n,b".to_string()),
    };
    config.game.insert("testgame".to_string(), game_config);

    let vars = EnvBuilder::new().with_config(&config, &"testgame".to_string());
    assert_eq!(vars.get(HUD), Some(&"1".to_string()));
    assert_eq!(vars.get(HUD_CFG), Some(&"fps_only=1".to_string()));
    assert_eq!(vars.get(LOG), Some(&"1".to_string()));
    assert_eq!(vars.get(NTSYNC), Some(&"1".to_string()));
    assert_eq!(vars.get(WAYLAND), Some(&"0".to_string()));
    assert_eq!(vars.get(WINE_DLLS), Some(&"dinput8=n,b".to_string()));
}

#[test]
fn test_env_defaults_contains_required_vars() {
    let builder = EnvBuilder::new();
    assert!(builder.vars.contains_key("__NV_PRIME_RENDER_OFFLOAD"));
    assert!(builder.vars.contains_key("__GLX_VENDOR_LIBRARY_NAME"));
    assert!(builder.vars.contains_key("VK_ICD_FILENAMES"));
    assert!(builder.vars.contains_key("MANGOHUD"));
    assert!(builder.vars.contains_key("PROTON_LOG"));
}

#[test]
fn test_env_defaults_table_is_complete() {
    let vars = EnvBuilder::new().build();
    assert_eq!(vars.len(), 26);
    assert_eq!(vars.get("MANGOHUD"), Some(&"0".to_string()));
    assert_eq!(vars.get("MANGOHUD_CONFIG"), Some(&"preset=1".to_string()));
    assert_eq!(vars.get("WINEDEBUG"), Some(&"+err,+warn,-all".to_string()));
    assert_eq!(vars.get("__GL_YIELD"), Some(&"USLEEP".to_string()));
    assert_eq!(
        vars.get("DXVK_NVAPI_SET_NGX_DEBUG_OPTIONS"),
        Some(&"DLSSIndicator=0,DLSSGIndicator=0".to_string())
    );
    assert_eq!(
        vars.get("VK_ICD_FILENAMES"),
        Some(&"/usr/share/vulkan/icd.d/nvidia_icd.json".to_string())
    );
    assert_eq!(vars.get("NOT_THERE"), None);
}

#[test]
fn test_env_builder_later_value_wins() {
    let vars = EnvBuilder::new()
        .with_env("K", "first")
        .with_env("K", "second")
        .build();
    assert_eq!(vars.get("K"), Some(&"second".to_string()));
    assert_eq!(vars.len(), 27);
    let off = EnvBuilder::new().with_mangohud(true).with_mangohud(false).build();
    assert_eq!(off.get(HUD), Some(&"0".to_string()));
    assert_eq!(off.len(), 26);
}

#[test]
fn test_env_builder_with_config_executable_vars_come_last() {
    let mut config = Config::default();
    config.gpu.gpu_name = Some("Card".to_string());
    let mut exe_vars = TextMap::new();
    exe_vars.insert(DXVK_GPU.to_string(), EnvValue::String("Other".to_string()));
    exe_vars.insert("FRAMES".to_string(), EnvValue::Integer(-3));
    exe_vars.insert("SYNC".to_string(), EnvValue::Boolean(true));
    exe_vars.insert("SCALE".to_string(), EnvValue::Float("1.5".to_string()));
    config.env.insert("game".to_string(), exe_vars);

    let vars = EnvBuilder::new().with_config(&config, &"game".to_string());
    assert_eq!(vars.get(DXVK_GPU), Some(&"Other".to_string()));
    assert_eq!(vars.get(VKD3D_GPU), Some(&"Card".to_string()));
    assert_eq!(vars.get("FRAMES"), Some(&"-3".to_string()));
    assert_eq!(vars.get("SYNC"), Some(&"1".to_string()));
    assert_eq!(vars.get("SCALE"), Some(&"1.5".to_string()));

    let other = EnvBuilder::new().with_config(&config, &"elsewhere".to_string());
    assert_eq!(other.get("FRAMES"), None);
    assert_eq!(other.get(DXVK_GPU), Some(&"Card".to_string()));
}

#[test]
fn test_env_builder_merge_executable() {
    let mut builder = EnvBuilder::new();
    builder.merge_executable(None);
    assert_eq!(builder.vars.len(), 26);
    let mut exe = TextMap::new();
    exe.insert("MANGOHUD".to_string(), EnvValue::Boolean(true));
    builder.merge_executable(Some(&exe));
    assert_eq!(builder.vars.get("MANGOHUD"), Some(&"1".to_string()));
    assert_eq!(builder.vars.len(), 26);
}

#[test]
fn test_environment_builder_starts_empty_and_merges() {
    let mut builder = EnvironmentBuilder::new();
    assert!(builder.vars.is_empty());
    let mut global = TextMap::new();
    global.insert("A".to_string(), EnvValue::Integer(1));
    global.insert("B".to_string(), EnvValue::String("two".to_string()));
    builder.merge_global(&global);
    let mut exe = TextMap::new();
    exe.insert("B".to_string(), EnvValue::String("three".to_string()));
    builder.merge_executable(Some(&exe));
    builder.merge_executable(None);
    let vars = builder.build();
    assert_eq!(vars.len(), 2);
    assert_eq!(vars.get("A"), Some(&"1".to_string()));
    assert_eq!(vars.get("B"), Some(&"three".to_string()));
}

#[test]
fn test_text_map_basics() {
    let mut map: TextMap<String> = TextMap::new();
    assert!(map.is_empty());
    assert_eq!(map.len(), 0);
    assert!(!map.contains_key("a"));
    map.insert("a".to_string(), "1".to_string());
    map.insert("b".to_string(), "2".to_string());
    map.insert("a".to_string(), "3".to_string());
    assert_eq!(map.len(), 2);
    assert!(map.contains_key("a"));
    assert_eq!(map.get("a"), Some(&"3".to_string()));
    assert_eq!(map.get("b"), Some(&"2".to_string()));
    assert_eq!(map.get("c"), None);
    assert_eq!(map.key_at(0), "a");
    assert_eq!(map.value_at(0), "3");
    assert_eq!(map.key_at(1), "b");
    let map = map.with("c".to_string(), "4".to_string());
    assert_eq!(map.len(), 3);
    assert_eq!(map.get("c"), Some(&"4".to_string()));
}
