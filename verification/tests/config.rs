use brausi::config::{
    default_chromium_bin, default_state_dir, join_path, read_env, read_u32, read_u64,
};
use brausi::{Config, Environment};

fn env_of(pairs: &[(&str, &str)]) -> Environment {
    let mut env = Environment::new(false);
    for (name, value) in pairs {
        env.push(name.to_string(), value.to_string());
    }
    env
}

#[test]
fn defaults_without_settings() {
    let config = Config::from_env(&env_of(&[("HOME", "/home/pi")])).unwrap();
    assert_eq!(config.display, ":99");
    assert_eq!(config.width, 1024);
    assert_eq!(config.height, 768);
    assert_eq!(config.depth, 24);
    assert_eq!(config.view_interval_ms, 200);
    assert_eq!(config.start_wait_ms, 12000);
    assert_eq!(config.state_dir, "/home/pi/.brausi");
    assert_eq!(config.run_dir, "/home/pi/.brausi/run");
    assert_eq!(config.profile_dir, "/home/pi/.brausi/profile");
    assert_eq!(config.capture_path, "/home/pi/.brausi/run/live.png");
    assert_eq!(config.xvfb_bin, "Xvfb");
    assert_eq!(config.chromium_bin, "chromium");
    assert_eq!(config.scrot_bin, "scrot");
    assert_eq!(config.chafa_bin, "chafa");
    assert_eq!(config.xdotool_bin, "xdotool");
    assert_eq!(config.screen_arg(), "1024x768x24");
}

#[test]
fn settings_override_defaults() {
    let env = env_of(&[
        ("BRAUSI_DISPLAY", " :1 "),
        ("BRAUSI_WIDTH", "800"),
        ("BRAUSI_HEIGHT", "+600"),
        ("BRAUSI_DEPTH", "16"),
        ("BRAUSI_VIEW_INTERVAL_MS", "50"),
        ("BRAUSI_START_WAIT_MS", "0"),
        ("BRAUSI_STATE_DIR", "/var/lib/brausi/"),
        ("BRAUSI_CHROMIUM", "chromium-browser"),
        ("BRAUSI_XVFB", "Xvfb2"),
        ("BRAUSI_SCROT", "scrot2"),
        ("BRAUSI_CHAFA", "chafa2"),
        ("BRAUSI_XDOTOOL", "xdotool2"),
    ]);
    let config = Config::from_env(&env).unwrap();
    assert_eq!(config.display, ":1");
    assert_eq!(config.screen_arg(), "800x600x16");
    assert_eq!(config.view_interval_ms, 50);
    assert_eq!(config.start_wait_ms, 0);
    assert_eq!(config.state_dir, "/var/lib/brausi/");
    assert_eq!(config.run_dir, "/var/lib/brausi/run");
    assert_eq!(config.capture_path, "/var/lib/brausi/run/live.png");
    assert_eq!(config.chromium_bin, "chromium-browser");
    assert_eq!(config.xvfb_bin, "Xvfb2");
    assert_eq!(config.scrot_bin, "scrot2");
    assert_eq!(config.chafa_bin, "chafa2");
    assert_eq!(config.xdotool_bin, "xdotool2");
}

#[test]
fn blank_settings_count_as_unset() {
    let env = env_of(&[("BRAUSI_WIDTH", "   "), ("BRAUSI_DISPLAY", "")]);
    let config = Config::from_env(&env).unwrap();
    assert_eq!(config.width, 1024);
    assert_eq!(config.display, ":99");
    assert_eq!(read_env(&env, "BRAUSI_WIDTH"), None);
    assert_eq!(read_env(&env, "NOT_THERE"), None);
}

#[test]
fn numeric_setting_errors() {
    let env = env_of(&[("BRAUSI_HEIGHT", "tall"), ("BRAUSI_WIDTH", "-3")]);
    assert_eq!(
        Config::from_env(&env).err().unwrap(),
        "BRAUSI_WIDTH must be an unsigned integer"
    );
    let env = env_of(&[("BRAUSI_START_WAIT_MS", "soon")]);
    assert_eq!(
        Config::from_env(&env).err().unwrap(),
        "BRAUSI_START_WAIT_MS must be an unsigned integer"
    );
    let env = env_of(&[("N", "4294967296")]);
    assert_eq!(
        read_u32(&env, "N", 1).unwrap_err(),
        "N must be an unsigned integer"
    );
    assert_eq!(read_u64(&env, "N", 1), Ok(4294967296));
    assert_eq!(read_u32(&env, "M", 9), Ok(9));
}

#[test]
fn first_variable_of_a_name_counts() {
    let env = env_of(&[("BRAUSI_DEPTH", "8"), ("BRAUSI_DEPTH", "32")]);
    assert_eq!(Config::from_env(&env).unwrap().depth, 8);
}

#[test]
fn state_directory_fallbacks() {
    assert_eq!(default_state_dir(&env_of(&[])), "./.brausi");
    assert_eq!(default_state_dir(&env_of(&[("HOME", "")])), ".brausi");
    assert_eq!(default_state_dir(&env_of(&[("HOME", "/root/")])), "/root/.brausi");
    let config = Config::from_env(&env_of(&[])).unwrap();
    assert_eq!(config.run_dir, "./.brausi/run");
}

#[test]
fn joins_paths_like_std() {
    for (base, rel) in [("", "run"), ("/", "run"), ("a", "b"), ("a/", "b"), (".", ".brausi")] {
        let expected = std::path::Path::new(base).join(rel);
        assert_eq!(join_path(base, rel), expected.to_str().unwrap());
    }
}

#[test]
fn chromium_default_per_platform() {
    assert_eq!(default_chromium_bin(false), "chromium");
    assert_eq!(
        default_chromium_bin(true),
        "/Applications/Chromium.app/Contents/MacOS/Chromium"
    );
    let mut env = Environment::new(true);
    env.push("HOME".to_string(), "/Users/a".to_string());
    assert_eq!(
        Config::from_env(&env).unwrap().chromium_bin,
        "/Applications/Chromium.app/Contents/MacOS/Chromium"
    );
}
