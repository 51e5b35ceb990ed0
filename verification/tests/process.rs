use brausi::commands::{
    capture, chromium_invocation, exit_failure, input_args, input_count,
    kill_invocation, render_invocation, run_failure, start_failure, terminal_size,
    xvfb_invocation, Invocation,
};
use brausi::process::{ensure_running, pid_file_text, pid_path, process_line, read_pid};
use brausi::{CliCommand, Config, Environment, ProcessStatus};

fn config() -> Config {
    let mut env = Environment::new(false);
    env.push("HOME".to_string(), "/h".to_string());
    Config::from_env(&env).unwrap()
}

fn strings(values: &[&str]) -> Vec<String> {
    values.iter().map(|value| value.to_string()).collect()
}

#[test]
fn pid_files_live_in_the_run_directory() {
    assert_eq!(pid_path(&config(), "xvfb"), "/h/.brausi/run/xvfb.pid");
    assert_eq!(pid_path(&config(), "chromium"), "/h/.brausi/run/chromium.pid");
}

#[test]
fn pid_file_round_trip() {
    for pid in [1u32, 4242, u32::MAX] {
        let text = pid_file_text(pid);
        assert_eq!(text, format!("{pid}\n"));
        assert_eq!(read_pid("p", Ok(Some(text))), Ok(Some(pid)));
    }
}

#[test]
fn pid_file_outcomes() {
    assert_eq!(read_pid("p", Ok(None)), Ok(None));
    assert_eq!(
        read_pid("p", Err("permission denied".to_string())),
        Err("permission denied".to_string())
    );
    assert_eq!(
        read_pid("/run/x.pid", Ok(Some("abc\n".to_string()))),
        Err("invalid pid file `/run/x.pid`: invalid digit found in string".to_string())
    );
    assert_eq!(
        read_pid("x", Ok(Some("  \n".to_string()))),
        Err("invalid pid file `x`: cannot parse integer from empty string".to_string())
    );
    assert_eq!(
        read_pid("x", Ok(Some("99999999999".to_string()))),
        Err("invalid pid file `x`: number too large to fit in target type".to_string())
    );
}

#[test]
fn status_lines() {
    assert_eq!(process_line(Some(12), true), "running pid=12");
    assert_eq!(process_line(Some(12), false), "stale pid=12");
    assert_eq!(process_line(None, true), "stopped");
    assert_eq!(process_line(None, false), "stopped");
}

#[test]
fn running_needs_both_processes() {
    let both = ProcessStatus {
        xvfb_pid: Some(1),
        xvfb_alive: true,
        chromium_pid: Some(2),
        chromium_alive: true,
    };
    assert_eq!(ensure_running(&both), Ok(()));
    let no_browser = ProcessStatus {
        chromium_alive: false,
        ..both
    };
    assert_eq!(
        ensure_running(&no_browser),
        Err("browser is not running; use `brausi start [url]` first".to_string())
    );
    let no_display = ProcessStatus {
        xvfb_alive: false,
        ..both
    };
    assert!(ensure_running(&no_display).is_err());
}

#[test]
fn xvfb_call() {
    assert_eq!(
        xvfb_invocation(&config()),
        Invocation {
            program: "Xvfb".to_string(),
            args: strings(&[":99", "-screen", "0", "1024x768x24"]),
            display: None,
        }
    );
}

#[test]
fn chromium_call() {
    let flags = [
        "--kiosk",
        "--no-first-run",
        "--disable-gpu",
        "--no-sandbox",
        "--disable-dev-shm-usage",
        "--mute-audio",
        "--disable-software-rasterizer",
        "--disable-gpu-sandbox",
        "--use-gl=swiftshader",
        "--window-size=1024,768",
        "--user-data-dir=/h/.brausi/profile",
    ];
    let plain = chromium_invocation(&config(), None);
    assert_eq!(plain.program, "chromium");
    assert_eq!(plain.args, strings(&flags));
    assert_eq!(plain.display, Some(":99".to_string()));
    assert_eq!(chromium_invocation(&config(), Some("  ")).args, strings(&flags));
    let mut with_url = strings(&flags);
    with_url.push(" https://example.com".to_string());
    assert_eq!(
        chromium_invocation(&config(), Some(" https://example.com")).args,
        with_url
    );
}

#[test]
fn input_calls() {
    assert_eq!(
        input_args(&CliCommand::Click { x: 320, y: 240 }, 0),
        strings(&["mousemove", "320", "240", "click", "1"])
    );
    assert_eq!(
        input_args(&CliCommand::Move { x: 1, y: 2 }, 0),
        strings(&["mousemove", "1", "2"])
    );
    assert_eq!(
        input_args(&CliCommand::Down { x: 1, y: 2 }, 0),
        strings(&["mousemove", "1", "2", "mousedown", "1"])
    );
    assert_eq!(
        input_args(&CliCommand::Up { x: 1, y: 2 }, 0),
        strings(&["mousemove", "1", "2", "mouseup", "1"])
    );
    let go = CliCommand::Go {
        url: "example.org".to_string(),
    };
    assert_eq!(input_count(&go), 3);
    assert_eq!(input_args(&go, 0), strings(&["key", "ctrl+l"]));
    assert_eq!(input_args(&go, 1), strings(&["type", "example.org"]));
    assert_eq!(input_args(&go, 2), strings(&["key", "Return"]));
    assert_eq!(input_args(&CliCommand::Back, 0), strings(&["key", "Alt+Left"]));
    assert_eq!(
        input_args(&CliCommand::Forward, 0),
        strings(&["key", "Alt+Right"])
    );
    assert_eq!(input_args(&CliCommand::Reload, 0), strings(&["key", "ctrl+r"]));
    assert_eq!(
        input_args(
            &CliCommand::Type {
                text: "hi there".to_string()
            },
            0
        ),
        strings(&["type", "hi there"])
    );
    assert_eq!(input_count(&CliCommand::Status), 0);
}

#[test]
fn capture_and_render_calls() {
    let capture = capture(&config());
    assert_eq!(capture.program, "scrot");
    assert_eq!(capture.args, strings(&["-o", "/h/.brausi/run/live.png"]));
    assert_eq!(capture.display, Some(":99".to_string()));

    let mut env = Environment::new(false);
    env.push("COLUMNS".to_string(), "120".to_string());
    env.push("LINES".to_string(), " 40 ".to_string());
    let render = render_invocation(&config(), &env);
    assert_eq!(render.program, "chafa");
    assert_eq!(
        render.args,
        strings(&[
            "--symbols=space",
            "--color-space=din99d",
            "--size",
            "120x40",
            "/h/.brausi/run/live.png"
        ])
    );
    assert_eq!(render.display, None);
}

#[test]
fn terminal_size_fallback() {
    let mut env = Environment::new(false);
    assert_eq!(terminal_size(&env), "80x24");
    env.push("COLUMNS".to_string(), "0".to_string());
    env.push("LINES".to_string(), "30".to_string());
    assert_eq!(terminal_size(&env), "80x24");
    let mut env = Environment::new(false);
    env.push("COLUMNS".to_string(), "100".to_string());
    assert_eq!(terminal_size(&env), "80x24");
    env.push("LINES".to_string(), "x".to_string());
    assert_eq!(terminal_size(&env), "80x24");
}

#[test]
fn render_settings_force_the_area() {
    let mut env = Environment::new(false);
    env.push("BRAUSI_RENDER_COLS".to_string(), "79".to_string());
    env.push("BRAUSI_RENDER_LINES".to_string(), "23".to_string());
    assert_eq!(terminal_size(&env), "79x23");
    env.push("COLUMNS".to_string(), "120".to_string());
    env.push("LINES".to_string(), "40".to_string());
    assert_eq!(terminal_size(&env), "79x23");
    assert_eq!(render_invocation(&config(), &env).args[3], "79x23");
}

#[test]
fn automatic_render_area_uses_the_terminal() {
    let mut env = Environment::new(false);
    env.push("BRAUSI_RENDER_COLS".to_string(), "auto".to_string());
    env.push("BRAUSI_RENDER_LINES".to_string(), " auto ".to_string());
    assert_eq!(terminal_size(&env), "80x24");
    env.push("COLUMNS".to_string(), "120".to_string());
    env.push("LINES".to_string(), "40".to_string());
    assert_eq!(terminal_size(&env), "120x40");
    let mut half = Environment::new(false);
    half.push("BRAUSI_RENDER_COLS".to_string(), "79".to_string());
    half.push("COLUMNS".to_string(), "100".to_string());
    half.push("LINES".to_string(), "30".to_string());
    assert_eq!(terminal_size(&half), "100x30");
    let mut zero = Environment::new(false);
    zero.push("BRAUSI_RENDER_COLS".to_string(), "0".to_string());
    zero.push("BRAUSI_RENDER_LINES".to_string(), "23".to_string());
    assert_eq!(terminal_size(&zero), "80x24");
}

#[test]
fn kill_calls() {
    assert_eq!(kill_invocation(None, 7).args, strings(&["7"]));
    assert_eq!(kill_invocation(Some("-0"), 7).args, strings(&["-0", "7"]));
    assert_eq!(kill_invocation(Some("-9"), 7).program, "kill");
}

#[test]
fn failure_messages() {
    assert_eq!(
        start_failure("Xvfb", "Xvfb", "No such file or directory (os error 2)"),
        "failed to start Xvfb (`Xvfb`): No such file or directory (os error 2)"
    );
    assert_eq!(
        run_failure("xdotool", "boom"),
        "failed to run `xdotool`: boom"
    );
    assert_eq!(
        exit_failure("xdotool", "exit status: 1"),
        "`xdotool` exited with status exit status: 1"
    );
}
