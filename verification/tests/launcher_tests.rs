use nvprime::config::{Config, EnvValue, GameConfig};
use nvprime::hooks::HookRunner;
use nvprime::launcher::{
    detect_game_exec, extract_stem, game_arg_index, get_executable_name, name_from_stem,
    name_or_path, Launcher,
    ProcessLauncher,
};
use nvprime::textmap::TextMap;

fn words(list: &[&str]) -> Vec<String> {
    list.iter().map(|s| s.to_string()).collect()
}

#[test]
fn test_extract_stem_simple() {
    assert_eq!(extract_stem("game.exe"), "game");
    assert_eq!(extract_stem("MyGame.EXE"), "mygame");
}

#[test]
fn test_extract_stem_with_path() {
    assert_eq!(extract_stem("/path/to/game.exe"), "game");
    assert_eq!(extract_stem("C:\\Games\\MyGame.exe"), "c:\\games\\mygame");
}

#[test]
fn test_extract_stem_no_extension() {
    assert_eq!(extract_stem("game"), "game");
    assert_eq!(extract_stem("/path/to/launcher"), "launcher");
}

#[test]
fn test_extract_stem_multiple_dots() {
    assert_eq!(extract_stem("game.version.1.2.exe"), "game.version.1.2");
}

#[test]
fn test_extract_stem_without_file_name() {
    assert_eq!(extract_stem(""), "unknown");
    assert_eq!(extract_stem("/"), "unknown");
    assert_eq!(extract_stem(".."), "unknown");
    assert_eq!(extract_stem(".hidden"), ".hidden");
}

#[test]
fn test_name_from_stem() {
    assert_eq!(name_from_stem(Some("MyGame".to_string())), "mygame");
    assert_eq!(name_from_stem(None), "unknown");
}

#[test]
fn test_get_executable_name() {
    assert_eq!(get_executable_name("/opt/games/Game.exe"), "Game");
    assert_eq!(get_executable_name("launcher"), "launcher");
    assert_eq!(get_executable_name(""), "");
    assert_eq!(get_executable_name(".."), "..");
}

#[test]
fn test_detect_game_exec_waitforexitandrun() {
    let args = vec![
        "proton".to_string(),
        "waitforexitandrun".to_string(),
        "steam.exe".to_string(),
        "game.exe".to_string(),
        "arg1".to_string(),
    ];

    assert_eq!(detect_game_exec(&args), "steam");
}

#[test]
fn test_detect_game_exec_first_exe() {
    let args = vec![
        "launcher.exe".to_string(),
        "arg1".to_string(),
        "arg2".to_string(),
    ];

    assert_eq!(detect_game_exec(&args), "launcher");
}

#[test]
fn test_detect_game_exec_last_exe() {
    let args = vec![
        "proton".to_string(),
        "run".to_string(),
        "launcher.exe".to_string(),
        "game.exe".to_string(),
    ];

    assert_eq!(detect_game_exec(&args), "game");
}

#[test]
fn test_detect_game_exec_no_exe() {
    let args = vec!["launcher".to_string(), "arg1".to_string()];

    assert_eq!(detect_game_exec(&args), "launcher");
}

#[test]
fn test_detect_game_exec_complex_steam_args() {
    let args = vec![
        "/path/to/proton".to_string(),
        "waitforexitandrun".to_string(),
        "/path/steam.exe".to_string(),
        "-applaunch".to_string(),
        "AppId=12345".to_string(),
        "/game/FinalFantasy.exe".to_string(),
        "-windowed".to_string(),
    ];

    assert_eq!(detect_game_exec(&args), "steam");
}

#[test]
fn test_detect_game_exec_only_final_exe() {
    let args = vec![
        "launcher".to_string(),
        "/game/FinalFantasy.exe".to_string(),
        "-windowed".to_string(),
    ];

    assert_eq!(detect_game_exec(&args), "finalfantasy");
}

#[test]
fn test_game_arg_index_rules() {
    // The first executable after the marker wins over later ones.
    assert_eq!(game_arg_index(&words(&["p", "waitforexitandrun", "x", "a.exe", "b.exe"])), 3);
    // A marker with no executable behind it falls back to the last one of all.
    assert_eq!(game_arg_index(&words(&["a.exe", "b.exe", "waitforexitandrun", "x"])), 1);
    // A marker at the end.
    assert_eq!(game_arg_index(&words(&["a.exe", "waitforexitandrun"])), 0);
    // Only the first marker counts.
    assert_eq!(
        game_arg_index(&words(&["waitforexitandrun", "waitforexitandrun", "g.exe"])),
        2
    );
    // No executable at all.
    assert_eq!(game_arg_index(&words(&["one", "two"])), 0);
    // The ending is matched as it stands.
    assert_eq!(game_arg_index(&words(&["one", "two.EXE", "three.exe.bak"])), 0);
    assert_eq!(game_arg_index(&words(&["one", ".exe"])), 1);
}

fn create_test_config() -> Config {
    Config {
        cpu: Default::default(),
        gpu: Default::default(),
        sys: Default::default(),
        env: Default::default(),
        game: Default::default(),
        hook: Default::default(),
    }
}

#[test]
fn test_launcher_new() {
    let args = vec![
        "game.exe".to_string(),
        "arg1".to_string(),
        "arg2".to_string(),
    ];
    let config = create_test_config();

    let launcher = Launcher::new(args.clone(), &config);

    assert_eq!(launcher.program, "game.exe");
    assert_eq!(launcher.args, vec!["arg1".to_string(), "arg2".to_string()]);
    assert!(!launcher.vars.is_empty());
    assert!(launcher.child.is_none());
}

#[test]
fn test_launcher_new_single_arg() {
    let args = vec!["game.exe".to_string()];
    let config = create_test_config();

    let launcher = Launcher::new(args, &config);

    assert_eq!(launcher.program, "game.exe");
    assert!(launcher.args.is_empty());
}

#[test]
fn test_launcher_wait_without_spawn() {
    let args = vec!["test".to_string()];
    let config = create_test_config();
    let launcher = Launcher::new(args, &config);

    let result = launcher.wait(Ok(Some(0)));
    assert!(result.is_err());
    assert!(result.unwrap_err().to_string().contains("No running process"));
}

#[test]
fn test_launcher_spawn_then_wait() {
    let mut launcher = Launcher::new(words(&["game.exe"]), &create_test_config());
    assert_eq!(launcher.spawn(Err("no such file".to_string())), Err("no such file".to_string()));
    assert!(launcher.child.is_none());
    assert_eq!(launcher.spawn(Ok(4321)), Ok(4321));
    assert_eq!(launcher.child, Some(4321));
    assert_eq!(launcher.wait(Ok(Some(3))), Ok(3));
    assert_eq!(launcher.wait(Ok(Some(0))), Ok(0));
    assert_eq!(launcher.wait(Ok(None)), Ok(-1));
    assert_eq!(launcher.wait(Err("interrupted".to_string())), Err("interrupted".to_string()));
}

#[test]
fn test_launcher_uses_settings_of_detected_game() {
    let mut config = create_test_config();
    config.game.insert(
        "game".to_string(),
        GameConfig {
            mangohud: true,
            mangohud_conf: None,
            proton_log: false,
            proton_ntsync: false,
            proton_wayland: true,
            wine_dll_overrides: None,
        },
    );
    let mut exe_vars = TextMap::new();
    exe_vars.insert("EXTRA".to_string(), EnvValue::Integer(12));
    config.env.insert("game".to_string(), exe_vars);
    let launcher = Launcher::new(
        words(&["proton", "waitforexitandrun", "/games/Game.exe", "-x"]),
        &config,
    );
    assert_eq!(launcher.program, "proton");
    assert_eq!(launcher.args, words(&["waitforexitandrun", "/games/Game.exe", "-x"]));
    assert_eq!(launcher.vars.get("MANGOHUD"), Some(&"1".to_string()));
    assert_eq!(launcher.vars.get("PROTON_ENABLE_WAYLAND"), Some(&"1".to_string()));
    assert_eq!(launcher.vars.get("MANGOHUD_CONFIG"), Some(&"preset=1".to_string()));
    assert_eq!(launcher.vars.get("EXTRA"), Some(&"12".to_string()));
}

#[test]
fn test_process_launcher() {
    let launcher = ProcessLauncher::new("game".to_string(), words(&["-a", "-b"]));
    assert_eq!(launcher.executable, "game");
    assert_eq!(launcher.args, words(&["-a", "-b"]));
    assert!(launcher.env_vars.is_empty());
    let mut vars = TextMap::new();
    vars.insert("K".to_string(), "v".to_string());
    let launcher = launcher.with_env(vars);
    assert_eq!(launcher.executable, "game");
    assert_eq!(launcher.args, words(&["-a", "-b"]));
    assert_eq!(launcher.env_vars.get("K"), Some(&"v".to_string()));
    assert_eq!(ProcessLauncher::exit_code(Some(0)), 0);
    assert_eq!(ProcessLauncher::exit_code(Some(-7)), -7);
    assert_eq!(ProcessLauncher::exit_code(None), 1);
}

#[test]
fn test_hook_lines() {
    assert_eq!(HookRunner::run_init(None), None);
    assert_eq!(HookRunner::run_shutdown(None), None);
    assert_eq!(
        HookRunner::run_init(Some("echo 'Starting game'")),
        Some(words(&["sh", "-c", "echo 'Starting game'"]))
    );
    assert_eq!(
        HookRunner::run_shutdown(Some("echo 'Game ended'")),
        Some(words(&["sh", "-c", "echo 'Game ended'"]))
    );
    assert_eq!(HookRunner::execute_hook(""), words(&["sh", "-c", ""]));
    assert!(HookRunner::succeeded(Some(0)));
    assert!(!HookRunner::succeeded(Some(1)));
    assert!(!HookRunner::succeeded(None));
}

#[test]
fn test_name_or_path() {
    assert_eq!(name_or_path(Some("Game".to_string()), "/opt/Game.exe"), "Game");
    assert_eq!(name_or_path(None, ".."), "..");
}
