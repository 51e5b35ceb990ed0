use brausi::commands::Invocation;
use brausi::{run, Action, Environment, Event, Session};

fn strings(values: &[&str]) -> Vec<String> {
    values.iter().map(|value| value.to_string()).collect()
}

fn env() -> Environment {
    let mut env = Environment::new(false);
    env.push("HOME".to_string(), "/h".to_string());
    env
}

fn open(args: &[&str]) -> Session {
    run(strings(args), env()).unwrap()
}

fn call(program: &str, args: &[&str], display: bool) -> Invocation {
    Invocation {
        program: program.to_string(),
        args: strings(args),
        display: if display { Some(":99".to_string()) } else { None },
    }
}

fn exited() -> Event {
    Event::Exited {
        success: true,
        status: "exit status: 0".to_string(),
    }
}

fn feed(session: &mut Session, event: Event) -> Action {
    assert!(session.accepts(&event));
    session.resume(event)
}

/// Answers the survey of the two pid files: both present and alive.
fn survey_alive(session: &mut Session) -> Action {
    assert_eq!(
        session.action(),
        Action::ReadFile("/h/.brausi/run/xvfb.pid".to_string())
    );
    assert_eq!(
        feed(session, Event::Text("10\n".to_string())),
        Action::ReadFile("/h/.brausi/run/chromium.pid".to_string())
    );
    assert_eq!(
        feed(session, Event::Text("20\n".to_string())),
        Action::Run(call("kill", &["-0", "10"], false))
    );
    assert_eq!(
        feed(session, exited()),
        Action::Run(call("kill", &["-0", "20"], false))
    );
    feed(session, exited())
}

#[test]
fn run_reports_errors_before_any_step() {
    assert_eq!(
        run(strings(&["wat"]), env()).err().unwrap(),
        "unknown command `wat`"
    );
    let mut bad = env();
    bad.push("BRAUSI_WIDTH".to_string(), "wide".to_string());
    assert_eq!(
        run(strings(&["status"]), bad).err().unwrap(),
        "BRAUSI_WIDTH must be an unsigned integer"
    );
    assert_eq!(
        run(strings(&["click", "1024", "0"]), env()).err().unwrap(),
        "coordinates out of bounds: 1024,0; expected x=0..1023 y=0..767"
    );
}

#[test]
fn click_sends_input_when_running() {
    let mut session = open(&["click", "320", "240"]);
    let action = survey_alive(&mut session);
    assert_eq!(
        action,
        Action::Run(call("xdotool", &["mousemove", "320", "240", "click", "1"], true))
    );
    assert_eq!(feed(&mut session, exited()), Action::Finish(Ok(())));
    assert!(session.finished());
    assert!(!session.accepts(&Event::Done));
}

#[test]
fn input_refused_when_not_running() {
    let mut session = open(&["back"]);
    feed(&mut session, Event::Missing);
    let action = feed(&mut session, Event::Text("20\n".to_string()));
    assert_eq!(action, Action::Run(call("kill", &["-0", "20"], false)));
    assert_eq!(
        feed(&mut session, exited()),
        Action::Finish(Err(
            "browser is not running; use `brausi start [url]` first".to_string()
        ))
    );
}

#[test]
fn go_types_the_address() {
    let mut session = open(&["go", "example.org"]);
    assert_eq!(
        survey_alive(&mut session),
        Action::Run(call("xdotool", &["key", "ctrl+l"], true))
    );
    assert_eq!(
        feed(&mut session, exited()),
        Action::Run(call("xdotool", &["type", "example.org"], true))
    );
    assert_eq!(
        feed(
            &mut session,
            Event::Exited {
                success: false,
                status: "exit status: 1".to_string()
            }
        ),
        Action::Finish(Err(
            "`xdotool` exited with status exit status: 1".to_string()
        ))
    );
}

#[test]
fn xdotool_missing() {
    let mut session = open(&["reload"]);
    survey_alive(&mut session);
    assert_eq!(
        feed(&mut session, Event::Failed("not found".to_string())),
        Action::Finish(Err("failed to run `xdotool`: not found".to_string()))
    );
}

#[test]
fn status_reports() {
    let mut session = open(&["status"]);
    feed(&mut session, Event::Text("10\n".to_string()));
    let action = feed(&mut session, Event::Failed("denied".to_string()));
    assert_eq!(action, Action::Run(call("kill", &["-0", "10"], false)));
    assert_eq!(
        feed(&mut session, Event::Failed("no kill".to_string())),
        Action::Print("state_dir=/h/.brausi".to_string())
    );
    assert_eq!(
        feed(&mut session, Event::Done),
        Action::Print("display=:99".to_string())
    );
    assert_eq!(
        feed(&mut session, Event::Done),
        Action::Print("xvfb=stale pid=10".to_string())
    );
    assert_eq!(
        feed(&mut session, Event::Done),
        Action::Print("chromium=stopped".to_string())
    );
    assert_eq!(feed(&mut session, Event::Done), Action::Finish(Ok(())));
}

#[test]
fn stop_terminates_and_cleans_up() {
    let mut session = open(&["stop"]);
    assert_eq!(
        session.action(),
        Action::ReadFile("/h/.brausi/run/chromium.pid".to_string())
    );
    assert_eq!(
        feed(&mut session, Event::Text("20\n".to_string())),
        Action::Run(call("kill", &["20"], false))
    );
    assert_eq!(feed(&mut session, exited()), Action::StartClock);
    assert_eq!(feed(&mut session, Event::Done), Action::ReadClock);
    assert_eq!(
        feed(&mut session, Event::Millis(5)),
        Action::Run(call("kill", &["-0", "20"], false))
    );
    assert_eq!(feed(&mut session, exited()), Action::Sleep(100));
    assert_eq!(feed(&mut session, Event::Done), Action::ReadClock);
    assert_eq!(
        feed(&mut session, Event::Millis(2000)),
        Action::Run(call("kill", &["-9", "20"], false))
    );
    assert_eq!(
        feed(&mut session, exited()),
        Action::RemoveFile("/h/.brausi/run/chromium.pid".to_string())
    );
    assert_eq!(
        feed(&mut session, Event::Done),
        Action::ReadFile("/h/.brausi/run/xvfb.pid".to_string())
    );
    assert_eq!(
        feed(&mut session, Event::Missing),
        Action::RemoveFile("/h/.brausi/run/xvfb.pid".to_string())
    );
    assert_eq!(
        feed(&mut session, Event::Failed("gone".to_string())),
        Action::RemoveFile("/h/.brausi/run/live.png".to_string())
    );
    assert_eq!(
        feed(&mut session, Event::Done),
        Action::Print("stopped".to_string())
    );
    assert_eq!(feed(&mut session, Event::Done), Action::Finish(Ok(())));
}

#[test]
fn stop_fails_on_a_broken_pid_file() {
    let mut session = open(&["stop"]);
    assert_eq!(
        feed(&mut session, Event::Text("oops".to_string())),
        Action::Finish(Err(
            "invalid pid file `/h/.brausi/run/chromium.pid`: invalid digit found in string"
                .to_string()
        ))
    );
}

#[test]
fn start_brings_up_both_processes() {
    let mut session = open(&["start", "https://example.com"]);
    assert_eq!(
        session.action(),
        Action::MakeDir("/h/.brausi/run".to_string())
    );
    assert_eq!(
        feed(&mut session, Event::Done),
        Action::MakeDir("/h/.brausi/profile".to_string())
    );
    assert_eq!(
        feed(&mut session, Event::Done),
        Action::ReadFile("/h/.brausi/run/chromium.pid".to_string())
    );
    feed(&mut session, Event::Missing);
    feed(&mut session, Event::Done);
    feed(&mut session, Event::Missing);
    assert_eq!(
        feed(&mut session, Event::Done),
        Action::Spawn(call(
            "Xvfb",
            &[":99", "-screen", "0", "1024x768x24"],
            false
        ))
    );
    assert_eq!(
        feed(&mut session, Event::Started(100)),
        Action::WriteFile {
            path: "/h/.brausi/run/xvfb.pid".to_string(),
            contents: "100\n".to_string()
        }
    );
    assert_eq!(feed(&mut session, Event::Done), Action::Sleep(750));
    match feed(&mut session, Event::Done) {
        Action::Spawn(i) => {
            assert_eq!(i.program, "chromium");
            assert_eq!(i.display, Some(":99".to_string()));
            assert_eq!(i.args.last().unwrap(), "https://example.com");
        }
        other => panic!("unexpected {other:?}"),
    }
    assert_eq!(
        feed(&mut session, Event::Started(200)),
        Action::WriteFile {
            path: "/h/.brausi/run/chromium.pid".to_string(),
            contents: "200\n".to_string()
        }
    );
    assert_eq!(feed(&mut session, Event::Done), Action::Sleep(12000));
    assert_eq!(
        feed(&mut session, Event::Done),
        Action::Print("started".to_string())
    );
    assert_eq!(
        feed(&mut session, Event::Done),
        Action::Print("display=:99".to_string())
    );
    assert_eq!(
        feed(&mut session, Event::Done),
        Action::Print("size=1024x768".to_string())
    );
    assert_eq!(
        feed(&mut session, Event::Done),
        Action::Print("state=/h/.brausi".to_string())
    );
    assert_eq!(feed(&mut session, Event::Done), Action::Finish(Ok(())));
}

#[test]
fn start_cleans_up_when_chromium_fails() {
    let mut session = open(&["start"]);
    feed(&mut session, Event::Done);
    feed(&mut session, Event::Done);
    feed(&mut session, Event::Missing);
    feed(&mut session, Event::Done);
    feed(&mut session, Event::Missing);
    feed(&mut session, Event::Done);
    feed(&mut session, Event::Started(100));
    feed(&mut session, Event::Done);
    feed(&mut session, Event::Done);
    assert_eq!(
        feed(&mut session, Event::Failed("No such file".to_string())),
        Action::ReadFile("/h/.brausi/run/chromium.pid".to_string())
    );
    feed(&mut session, Event::Missing);
    assert_eq!(
        feed(&mut session, Event::Done),
        Action::ReadFile("/h/.brausi/run/xvfb.pid".to_string())
    );
    assert_eq!(
        feed(&mut session, Event::Text("100\n".to_string())),
        Action::Run(call("kill", &["100"], false))
    );
    feed(&mut session, exited());
    feed(&mut session, Event::Done);
    assert_eq!(
        feed(&mut session, Event::Millis(1)),
        Action::Run(call("kill", &["-0", "100"], false))
    );
    assert_eq!(
        feed(
            &mut session,
            Event::Exited {
                success: false,
                status: "exit status: 1".to_string()
            }
        ),
        Action::RemoveFile("/h/.brausi/run/xvfb.pid".to_string())
    );
    assert_eq!(
        feed(&mut session, Event::Done),
        Action::Finish(Err(
            "failed to start Chromium (`chromium`): No such file".to_string()
        ))
    );
}

#[test]
fn start_fails_when_directories_cannot_be_made() {
    let mut session = open(&["start"]);
    assert_eq!(
        feed(&mut session, Event::Failed("read-only".to_string())),
        Action::Finish(Err("read-only".to_string()))
    );
    let mut session = open(&["start"]);
    feed(&mut session, Event::Done);
    feed(&mut session, Event::Done);
    feed(&mut session, Event::Missing);
    feed(&mut session, Event::Done);
    feed(&mut session, Event::Missing);
    assert_eq!(
        feed(&mut session, Event::Failed("denied".to_string())),
        Action::Spawn(call("Xvfb", &[":99", "-screen", "0", "1024x768x24"], false))
    );
    assert_eq!(
        feed(&mut session, Event::Failed("No such file".to_string())),
        Action::Finish(Err("failed to start Xvfb (`Xvfb`): No such file".to_string()))
    );
}

#[test]
fn view_loops_over_captures() {
    let mut session = open(&["view"]);
    assert_eq!(
        survey_alive(&mut session),
        Action::MakeDir("/h/.brausi/run".to_string())
    );
    feed(&mut session, Event::Done);
    assert_eq!(
        feed(&mut session, Event::Done),
        Action::Run(call("scrot", &["-o", "/h/.brausi/run/live.png"], true))
    );
    assert_eq!(
        feed(&mut session, exited()),
        Action::IsFile("/h/.brausi/run/live.png".to_string())
    );
    assert_eq!(feed(&mut session, Event::Flag(true)), Action::ClearScreen);
    assert_eq!(
        feed(&mut session, Event::Done),
        Action::Run(call(
            "chafa",
            &[
                "--symbols=space",
                "--color-space=din99d",
                "--size",
                "80x24",
                "/h/.brausi/run/live.png"
            ],
            false
        ))
    );
    assert_eq!(feed(&mut session, exited()), Action::Flush);
    assert_eq!(feed(&mut session, Event::Done), Action::Sleep(200));
    assert_eq!(
        feed(&mut session, Event::Done),
        Action::Run(call("scrot", &["-o", "/h/.brausi/run/live.png"], true))
    );
    feed(&mut session, exited());
    assert_eq!(feed(&mut session, Event::Flag(false)), Action::Sleep(200));
    feed(&mut session, Event::Done);
    assert_eq!(
        feed(
            &mut session,
            Event::Exited {
                success: false,
                status: "exit status: 2".to_string()
            }
        ),
        Action::Finish(Err("`scrot` exited with status exit status: 2".to_string()))
    );
}

#[test]
fn view_reports_render_failures() {
    let mut session = open(&["view"]);
    survey_alive(&mut session);
    feed(&mut session, Event::Done);
    feed(&mut session, Event::Done);
    feed(&mut session, exited());
    feed(&mut session, Event::Flag(true));
    feed(&mut session, Event::Done);
    assert_eq!(
        feed(&mut session, Event::Failed("missing".to_string())),
        Action::Finish(Err("failed to run chafa (`chafa`): missing".to_string()))
    );
}

#[test]
fn help_prints_usage() {
    let mut session = open(&[]);
    match session.action() {
        Action::Print(text) => {
            assert!(text.starts_with("brausi - lightweight terminal browser controller\n"));
            assert!(text.contains("  brausi click <x> <y>\n"));
            assert!(text.ends_with("  BRAUSI_XDOTOOL=xdotool"));
        }
        other => panic!("unexpected {other:?}"),
    }
    assert_eq!(feed(&mut session, Event::Done), Action::Finish(Ok(())));
}
