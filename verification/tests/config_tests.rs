use nvprime::config::{
    CommonConfig, Config, CpuTune, EnvValue, GameConfig, GpuTune, HooksConfig, NvGpuConfig,
    SysTune, TuningConfig,
};

#[test]
fn test_cpu_tune_defaults() {
    let cpu = CpuTune::default();
    assert!(!cpu.enabled);
    assert_eq!(cpu.amd_epp_tune, "performance");
    assert_eq!(cpu.amd_epp_base, "balance_performance");
}

#[test]
fn test_gpu_tune_defaults() {
    let gpu = GpuTune::default();
    assert!(!gpu.enabled);
    assert!(gpu.gpu_name.is_none());
    assert!(gpu.gpu_uuid.is_none());
    assert_eq!(gpu.gpu_vlk_icd, "/usr/share/vulkan/icd.d/nvidia_icd.json");
    assert!(!gpu.set_max_pwr);
    assert!(gpu.pwr_limit_tune.is_none());
}

#[test]
fn test_sys_tune_defaults() {
    let sys = SysTune::default();
    assert!(!sys.enabled);
    assert_eq!(sys.proc_ioprio, 4);
    assert_eq!(sys.proc_renice, 0);
    assert!(!sys.splitlock_hack);
}

#[test]
fn test_sys_tune_default_watchdog_interval() {
    assert_eq!(SysTune::default().watchdog_interval_sec, 10);
}

#[test]
fn test_game_config_defaults() {
    let game = GameConfig::default();
    assert!(!game.mangohud);
    assert!(game.mangohud_conf.is_none());
    assert!(!game.proton_log);
    assert!(!game.proton_ntsync);
    assert!(!game.proton_wayland);
    assert!(game.wine_dll_overrides.is_none());
}

#[test]
fn test_env_value_to_string() {
    assert_eq!(EnvValue::String("test".to_string()).to_string(), "test");
    assert_eq!(EnvValue::Integer(42).to_string(), "42");
    assert_eq!(EnvValue::Float("3.14".to_string()).to_string(), "3.14");
    assert_eq!(EnvValue::Boolean(true).to_string(), "1");
    assert_eq!(EnvValue::Boolean(false).to_string(), "0");
}

#[test]
fn test_env_value_integer_edges() {
    assert_eq!(EnvValue::Integer(0).to_string(), "0");
    assert_eq!(EnvValue::Integer(-5).to_string(), "-5");
    assert_eq!(EnvValue::Integer(i64::MAX).to_string(), "9223372036854775807");
    assert_eq!(EnvValue::Integer(i64::MIN).to_string(), "-9223372036854775808");
    assert_eq!(EnvValue::Integer(1000).to_string(), "1000");
}

#[test]
fn test_env_value_clone_keeps_value() {
    let v = EnvValue::Integer(7);
    assert_eq!(v.clone(), v);
    let s = EnvValue::String("a b".to_string());
    assert_eq!(s.clone(), s);
}

#[test]
fn test_section_clones_are_equal() {
    let cpu = CpuTune {
        enabled: true,
        amd_epp_tune: "power".to_string(),
        amd_epp_base: "default".to_string(),
    };
    assert_eq!(cpu.clone(), cpu);
    let gpu = GpuTune {
        enabled: true,
        gpu_name: Some("Test".to_string()),
        gpu_uuid: None,
        gpu_vlk_icd: "/test.json".to_string(),
        set_max_pwr: true,
        pwr_limit_tune: Some(400000),
    };
    assert_eq!(gpu.clone(), gpu);
}

#[test]
fn test_other_defaults() {
    let hooks = HooksConfig::default();
    assert!(hooks.init.is_none());
    assert!(hooks.shutdown.is_none());
    let common = CommonConfig::default();
    assert!(common.amd_epp.is_none());
    assert!(common.gpu_id.is_none());
    assert!(common.priority.is_none());
    let nv = NvGpuConfig::default();
    assert!(nv.enabled.is_none());
    assert!(nv.set_max.is_none());
    assert!(nv.power_limit.is_none());
    assert!(nv.device_uuid.is_none());
    let tuning = TuningConfig::default();
    assert_eq!(tuning.nvidia, nv);
}

#[test]
fn test_config_default_is_empty() {
    let config = Config::default();
    assert!(!config.cpu.enabled);
    assert!(!config.gpu.enabled);
    assert!(!config.sys.enabled);
    assert!(config.env.is_empty());
    assert!(config.game.is_empty());
    assert!(config.hook.init.is_none());
}
