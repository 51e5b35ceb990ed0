//! A command carried out step by step. The session decides; the program around
//! it performs each action it asks for (a file read, a process started, a line
//! printed, ...) and hands back what came of it, until the session finishes.

use vstd::prelude::*;

use crate::cli::{parse_args, parse_spec, CliCommand, CommandView};
use crate::commands::{
    is_input,
    capture, capture_spec, chromium_invocation, chromium_spec, exit_failure,
    input_count, input_invocation, input_spec, input_steps, kill_invocation, kill_spec,
    render_invocation, render_spec, run_failure, start_failure, xvfb_invocation, xvfb_spec,
    Invocation, InvocationView,
};
use crate::config::{config_spec, Config, ConfigView, EnvView, Environment};
use crate::process::{
    out_of_bounds_spec, pid_file_spec, pid_file_text, pid_path, pid_path_spec, process_line,
    process_line_spec, read_pid, read_pid_spec, validate_coords, ProcessStatus,
};
use crate::text::{concat2, concat3, decimal, decimal_text, texts};

verus! {

/// One of the two processes that the controller starts and tracks.
#[derive(Clone, Copy, Debug, PartialEq, Eq, Structural)]
pub enum Helper {
    Chromium,
    Xvfb,
}

/// Where the stopping of one tracked process stands.
#[derive(Clone, Copy, Debug, PartialEq, Eq, Structural)]
pub enum Halt {
    /// Reading its pid file.
    Read,
    /// Asking the process to end.
    Kill(u32),
    /// Noting when the grace period begins.
    Mark(u32),
    /// Looking at how much of the grace period is gone.
    Check(u32),
    /// Asking whether the process still lives.
    Probe(u32),
    /// Waiting a moment before the next look.
    Pause(u32),
    /// Killing it outright.
    Force(u32),
    /// Removing its pid file.
    Remove,
}

/// What follows the stopping of the tracked processes.
#[derive(Clone, Copy, Debug, PartialEq, Eq, Structural)]
pub enum AfterHalt {
    /// Starting fresh ones.
    Launch,
    /// Reporting that Chromium could not be started.
    Abandon,
    /// Finishing the stop command.
    Conclude,
}

/// Where the survey of the tracked processes stands.
#[derive(Clone, Copy, Debug, PartialEq, Eq, Structural)]
pub enum Probe {
    ReadXvfb,
    ReadChromium(Option<u32>),
    AliveXvfb(u32, Option<u32>),
    AliveChromium(Option<u32>, bool, u32),
}

/// The step a session is at.
#[derive(Clone, Copy, Debug, PartialEq, Eq, Structural)]
pub enum Stage {
    MakeRunDir,
    MakeProfileDir,
    Halting(Helper, Halt, AfterHalt),
    SpawnXvfb,
    SaveXvfb(u32),
    Settle,
    SpawnChromium,
    SaveChromium(u32),
    Warm,
    Announce(u8),
    Probing(Probe),
    Report(u8, ProcessStatus),
    Input(usize),
    Capture,
    Inspect,
    Clear,
    Render,
    Flush,
    Rest,
    Discard,
    Farewell,
    Help,
    Succeeded,
    Failed,
}

/// Something for the program around the session to do.
#[derive(Debug, PartialEq, Eq)]
pub enum Action {
    /// Create a directory and its parents.
    MakeDir(String),
    /// Read a file as text.
    ReadFile(String),
    /// Write a file.
    WriteFile { path: String, contents: String },
    /// Remove a file; the outcome does not matter.
    RemoveFile(String),
    /// Start a program without waiting for it, its standard streams closed.
    Spawn(Invocation),
    /// Run a program to its end, sharing the standard streams.
    Run(Invocation),
    /// Wait for the given number of milliseconds.
    Sleep(u64),
    /// Note the current time.
    StartClock,
    /// Tell how many milliseconds passed since the time was noted.
    ReadClock,
    /// Print a line on standard output.
    Print(String),
    /// Clear the terminal and put the cursor home.
    ClearScreen,
    /// Flush standard output.
    Flush,
    /// Tell whether a path is a regular file.
    IsFile(String),
    /// The command is over, with this result.
    Finish(Result<(), String>),
}

pub enum ActionView {
    MakeDir(Seq<char>),
    ReadFile(Seq<char>),
    WriteFile { path: Seq<char>, contents: Seq<char> },
    RemoveFile(Seq<char>),
    Spawn(InvocationView),
    Run(InvocationView),
    Sleep(u64),
    StartClock,
    ReadClock,
    Print(Seq<char>),
    ClearScreen,
    Flush,
    IsFile(Seq<char>),
    Finish(Result<(), Seq<char>>),
}

impl View for Action {
    type V = ActionView;

    open spec fn view(&self) -> ActionView {
        match self {
            Action::MakeDir(p) => ActionView::MakeDir(p@),
            Action::ReadFile(p) => ActionView::ReadFile(p@),
            Action::WriteFile { path, contents } => ActionView::WriteFile {
                path: path@,
                contents: contents@,
            },
            Action::RemoveFile(p) => ActionView::RemoveFile(p@),
            Action::Spawn(i) => ActionView::Spawn(i@),
            Action::Run(i) => ActionView::Run(i@),
            Action::Sleep(ms) => ActionView::Sleep(*ms),
            Action::StartClock => ActionView::StartClock,
            Action::ReadClock => ActionView::ReadClock,
            Action::Print(t) => ActionView::Print(t@),
            Action::ClearScreen => ActionView::ClearScreen,
            Action::Flush => ActionView::Flush,
            Action::IsFile(p) => ActionView::IsFile(p@),
            Action::Finish(r) => ActionView::Finish(
                match r {
                    Ok(()) => Ok(()),
                    Err(m) => Err(m@),
                },
            ),
        }
    }
}

/// What came of an action.
#[derive(Debug, PartialEq, Eq)]
pub enum Event {
    /// It was done.
    Done,
    /// It failed, with this message.
    Failed(String),
    /// The file read holds this text.
    Text(String),
    /// The file read does not exist.
    Missing,
    /// The program started with this pid.
    Started(u32),
    /// The program ran to its end, successfully or not, with this status.
    Exited { success: bool, status: String },
    /// The answer to a question.
    Flag(bool),
    /// Milliseconds since the time was noted.
    Millis(u64),
}

pub enum EventView {
    Done,
    Failed(Seq<char>),
    Text(Seq<char>),
    Missing,
    Started(u32),
    Exited { success: bool, status: Seq<char> },
    Flag(bool),
    Millis(u64),
}

impl View for Event {
    type V = EventView;

    open spec fn view(&self) -> EventView {
        match self {
            Event::Done => EventView::Done,
            Event::Failed(m) => EventView::Failed(m@),
            Event::Text(t) => EventView::Text(t@),
            Event::Missing => EventView::Missing,
            Event::Started(p) => EventView::Started(*p),
            Event::Exited { success, status } => EventView::Exited {
                success: *success,
                status: status@,
            },
            Event::Flag(b) => EventView::Flag(*b),
            Event::Millis(ms) => EventView::Millis(*ms),
        }
    }
}

/// A command under way.
pub struct Session {
    config: Config,
    env: Environment,
    command: CliCommand,
    stage: Stage,
    failure: String,
}

pub struct SessionView {
    pub config: ConfigView,
    pub env: EnvView,
    pub command: CommandView,
    pub stage: Stage,
    /// The message the session fails with.
    pub failure: Seq<char>,
}

impl View for Session {
    type V = SessionView;

    closed spec fn view(&self) -> SessionView {
        SessionView {
            config: self.config@,
            env: self.env@,
            command: self.command@,
            stage: self.stage,
            failure: self.failure@,
        }
    }
}

// ---------------------------------------------------------------------------
// The plan, as a specification
// ---------------------------------------------------------------------------

pub open spec fn tracked_name(t: Helper) -> Seq<char> {
    match t {
        Helper::Chromium => "chromium"@,
        Helper::Xvfb => "xvfb"@,
    }
}

/// The pid file of a tracked process.
pub open spec fn tracked_path(cfg: ConfigView, t: Helper) -> Seq<char> {
    pid_path_spec(cfg, tracked_name(t))
}

/// The milliseconds a process gets to end before it is killed outright.
pub open spec fn grace_ms() -> u64 {
    2000
}

/// The message when input is sent while the browser does not run.
pub open spec fn not_running_text() -> Seq<char> {
    "browser is not running; use `brausi start [url]` first"@
}

pub open spec fn help_spec() -> Seq<char> {
    "brausi - lightweight terminal browser controller

Usage:
  brausi start [url]
  brausi view
  brausi click <x> <y>
  brausi move <x> <y>
  brausi down <x> <y>
  brausi up <x> <y>
  brausi type <text>
  brausi go <url>
  brausi back
  brausi forward
  brausi reload
  brausi status
  brausi stop

Environment:
  BRAUSI_DISPLAY=:99
  BRAUSI_WIDTH=1024
  BRAUSI_HEIGHT=768
  BRAUSI_STATE_DIR=~/.brausi
  BRAUSI_CHROMIUM=chromium
  BRAUSI_XVFB=Xvfb
  BRAUSI_SCROT=scrot
  BRAUSI_CHAFA=chafa
  BRAUSI_XDOTOOL=xdotool"@
}

/// Whether a command asks for a pointer action.
pub open spec fn is_pointer(cmd: CommandView) -> bool {
    ||| cmd is Click
    ||| cmd is Move
    ||| cmd is Down
    ||| cmd is Up
}

/// The coordinates of a pointer command.
pub open spec fn pointer_xy(cmd: CommandView) -> (u32, u32) {
    match cmd {
        CommandView::Click { x, y } => (x, y),
        CommandView::Move { x, y } => (x, y),
        CommandView::Down { x, y } => (x, y),
        CommandView::Up { x, y } => (x, y),
        _ => (0, 0),
    }
}

/// The page the start command opens.
pub open spec fn start_url(cmd: CommandView) -> Option<Seq<char>> {
    match cmd {
        CommandView::Start { url } => url,
        _ => None,
    }
}

/// The first step of each command.
pub open spec fn first_stage(cmd: CommandView) -> Stage {
    match cmd {
        CommandView::Start { .. } => Stage::MakeRunDir,
        CommandView::Stop => Stage::Halting(Helper::Chromium, Halt::Read, AfterHalt::Conclude),
        CommandView::Help => Stage::Help,
        _ => Stage::Probing(Probe::ReadXvfb),
    }
}

/// A session of `cmd` at its first step.
pub open spec fn opening(cfg: ConfigView, env: EnvView, cmd: CommandView) -> SessionView {
    SessionView { config: cfg, env, command: cmd, stage: first_stage(cmd), failure: Seq::empty() }
}

/// What `run` makes of the arguments and the environment: the message of the
/// first thing wrong with them (the command line, then the configuration,
/// then the coordinates of a pointer command), or the opening session.
pub open spec fn run_spec(args: Seq<Seq<char>>, env: EnvView) -> Result<SessionView, Seq<char>> {
    match parse_spec(args) {
        Err(m) => Err(m),
        Ok(cmd) => match config_spec(env) {
            Err(m) => Err(m),
            Ok(cfg) => if is_pointer(cmd) && !(pointer_xy(cmd).0 < cfg.width && pointer_xy(cmd).1
                < cfg.height) {
                Err(out_of_bounds_spec(cfg, pointer_xy(cmd).0, pointer_xy(cmd).1))
            } else {
                Ok(opening(cfg, env, cmd))
            },
        },
    }
}

/// The sessions whose step fits their command.
pub open spec fn well_formed(s: SessionView) -> bool {
    &&& s.stage matches Stage::Input(i) ==> i < input_steps(s.command).len()
    &&& s.stage is Probing ==> (s.command is Status || s.command is View || is_input(s.command))
}

/// Whether an event is an outcome that the action of the stage can have.
pub open spec fn accepts(stage: Stage, e: EventView) -> bool {
    match stage {
        Stage::MakeRunDir | Stage::MakeProfileDir | Stage::SaveXvfb(_) | Stage::SaveChromium(_)
        | Stage::Flush => e is Done || e is Failed,
        Stage::Halting(_, h, _) => match h {
            Halt::Read => e is Text || e is Missing || e is Failed,
            Halt::Check(_) => e is Millis,
            Halt::Kill(_) | Halt::Probe(_) | Halt::Force(_) => e is Exited || e is Failed,
            Halt::Remove => e is Done || e is Failed,
            _ => e is Done,
        },
        Stage::Probing(p) => match p {
            Probe::ReadXvfb | Probe::ReadChromium(_) => e is Text || e is Missing || e is Failed,
            _ => e is Exited || e is Failed,
        },
        Stage::SpawnXvfb | Stage::SpawnChromium => e is Started || e is Failed,
        Stage::Input(_) | Stage::Capture | Stage::Render => e is Exited || e is Failed,
        Stage::Inspect => e is Flag,
        Stage::Discard => e is Done || e is Failed,
        Stage::Settle | Stage::Warm | Stage::Announce(_) | Stage::Report(_, _) | Stage::Clear
        | Stage::Rest | Stage::Farewell | Stage::Help => e is Done,
        Stage::Succeeded | Stage::Failed => false,
    }
}

/// Whether a program ran and ended successfully.
pub open spec fn succeeded(e: EventView) -> bool {
    e matches EventView::Exited { success, .. } && success
}

/// Why a run of `program` went wrong: `None` where it ended successfully.
pub open spec fn run_trouble(program: Seq<char>, e: EventView) -> Option<Seq<char>> {
    match e {
        EventView::Exited { success, status } => if success {
            None
        } else {
            Some("`"@ + program + "` exited with status "@ + status)
        },
        EventView::Failed(m) => Some("failed to run `"@ + program + "`: "@ + m),
        _ => None,
    }
}

/// The pid a survey takes from reading a pid file: none where the file is
/// missing, unreadable or holds no pid.
pub open spec fn surveyed_pid(cfg: ConfigView, t: Helper, e: EventView) -> Option<u32> {
    match e {
        EventView::Text(x) => match read_pid_spec(tracked_path(cfg, t), Ok(Some(x))) {
            Ok(p) => p,
            Err(_) => None,
        },
        _ => None,
    }
}

/// A failure with message `m` while stopping the tracked processes: the
/// session fails with `m`, except while cleaning up after Chromium could not
/// start, where it fails with that message.
pub open spec fn halt_abort(after: AfterHalt, m: Seq<char>) -> (Stage, Option<Seq<char>>) {
    match after {
        AfterHalt::Abandon => (Stage::Failed, None),
        _ => (Stage::Failed, Some(m)),
    }
}

pub open spec fn after_halt(after: AfterHalt) -> Stage {
    match after {
        AfterHalt::Launch => Stage::SpawnXvfb,
        AfterHalt::Abandon => Stage::Failed,
        AfterHalt::Conclude => Stage::Discard,
    }
}

/// The next step of stopping the process `t`.
pub open spec fn halt_next(cfg: ConfigView, t: Helper, h: Halt, a: AfterHalt, e: EventView) -> (
    Stage,
    Option<Seq<char>>,
) {
    match h {
        Halt::Read => match e {
            EventView::Text(x) => match read_pid_spec(tracked_path(cfg, t), Ok(Some(x))) {
                Ok(Some(p)) => (Stage::Halting(t, Halt::Kill(p), a), None),
                Ok(None) => (Stage::Halting(t, Halt::Remove, a), None),
                Err(m) => halt_abort(a, m),
            },
            EventView::Failed(m) => halt_abort(a, m),
            _ => (Stage::Halting(t, Halt::Remove, a), None),
        },
        Halt::Kill(p) => (Stage::Halting(t, Halt::Mark(p), a), None),
        Halt::Mark(p) => (Stage::Halting(t, Halt::Check(p), a), None),
        Halt::Check(p) => match e {
            EventView::Millis(ms) => if ms < grace_ms() {
                (Stage::Halting(t, Halt::Probe(p), a), None)
            } else {
                (Stage::Halting(t, Halt::Force(p), a), None)
            },
            _ => (Stage::Halting(t, Halt::Force(p), a), None),
        },
        Halt::Probe(p) => if succeeded(e) {
            (Stage::Halting(t, Halt::Pause(p), a), None)
        } else {
            (Stage::Halting(t, Halt::Remove, a), None)
        },
        Halt::Pause(p) => (Stage::Halting(t, Halt::Check(p), a), None),
        Halt::Force(_) => (Stage::Halting(t, Halt::Remove, a), None),
        Halt::Remove => match t {
            Helper::Chromium => (Stage::Halting(Helper::Xvfb, Halt::Read, a), None),
            Helper::Xvfb => (after_halt(a), None),
        },
    }
}

/// What follows a survey that found `st`: the report for the status command;
/// otherwise, if both processes live, the viewer or the input, and if not, the
/// failure.
pub open spec fn surveyed(cmd: CommandView, st: ProcessStatus) -> (Stage, Option<Seq<char>>) {
    if cmd is Status {
        (Stage::Report(0, st), None)
    } else if st.xvfb_alive && st.chromium_alive {
        if cmd is View {
            (Stage::MakeRunDir, None)
        } else {
            (Stage::Input(0), None)
        }
    } else {
        (Stage::Failed, Some(not_running_text()))
    }
}

/// The survey once it knows about Xvfb: Chromium's liveness is asked only if
/// it has a pid.
pub open spec fn survey_chromium(
    cmd: CommandView,
    xvfb: Option<u32>,
    xvfb_alive: bool,
    chromium: Option<u32>,
) -> (Stage, Option<Seq<char>>) {
    match chromium {
        Some(c) => (Stage::Probing(Probe::AliveChromium(xvfb, xvfb_alive, c)), None),
        None => surveyed(
            cmd,
            ProcessStatus {
                xvfb_pid: xvfb,
                xvfb_alive,
                chromium_pid: None,
                chromium_alive: false,
            },
        ),
    }
}

/// The next step of the survey.
pub open spec fn probe_next(cfg: ConfigView, cmd: CommandView, p: Probe, e: EventView) -> (
    Stage,
    Option<Seq<char>>,
) {
    match p {
        Probe::ReadXvfb => (
            Stage::Probing(Probe::ReadChromium(surveyed_pid(cfg, Helper::Xvfb, e))),
            None,
        ),
        Probe::ReadChromium(xp) => {
            let cp = surveyed_pid(cfg, Helper::Chromium, e);
            match xp {
                Some(x) => (Stage::Probing(Probe::AliveXvfb(x, cp)), None),
                None => survey_chromium(cmd, None, false, cp),
            }
        },
        Probe::AliveXvfb(x, cp) => survey_chromium(cmd, Some(x), succeeded(e), cp),
        Probe::AliveChromium(xp, xa, c) => surveyed(
            cmd,
            ProcessStatus {
                xvfb_pid: xp,
                xvfb_alive: xa,
                chromium_pid: Some(c),
                chromium_alive: succeeded(e),
            },
        ),
    }
}

/// The step after `s` once its action came to `e`, and the new failure
/// message where it changes.
pub open spec fn next(s: SessionView, e: EventView) -> (Stage, Option<Seq<char>>) {
    let cfg = s.config;
    match s.stage {
        Stage::MakeRunDir => match e {
            EventView::Failed(m) => (Stage::Failed, Some(m)),
            _ => (Stage::MakeProfileDir, None),
        },
        Stage::MakeProfileDir => match e {
            EventView::Failed(m) => (Stage::Failed, Some(m)),
            _ => if s.command is Start {
                (Stage::Halting(Helper::Chromium, Halt::Read, AfterHalt::Launch), None)
            } else {
                (Stage::Capture, None)
            },
        },
        Stage::Halting(t, h, a) => halt_next(cfg, t, h, a, e),
        Stage::SpawnXvfb => match e {
            EventView::Started(p) => (Stage::SaveXvfb(p), None),
            EventView::Failed(m) => (
                Stage::Failed,
                Some("failed to start "@ + "Xvfb"@ + " (`"@ + cfg.xvfb_bin + "`): "@ + m),
            ),
            _ => (Stage::Failed, None),
        },
        Stage::SaveXvfb(_) => match e {
            EventView::Failed(m) => (Stage::Failed, Some(m)),
            _ => (Stage::Settle, None),
        },
        Stage::Settle => (Stage::SpawnChromium, None),
        Stage::SpawnChromium => match e {
            EventView::Started(p) => (Stage::SaveChromium(p), None),
            EventView::Failed(m) => (
                Stage::Halting(Helper::Chromium, Halt::Read, AfterHalt::Abandon),
                Some("failed to start "@ + "Chromium"@ + " (`"@ + cfg.chromium_bin + "`): "@ + m),
            ),
            _ => (Stage::Failed, None),
        },
        Stage::SaveChromium(_) => match e {
            EventView::Failed(m) => (Stage::Failed, Some(m)),
            _ => (Stage::Warm, None),
        },
        Stage::Warm => (Stage::Announce(0), None),
        Stage::Announce(i) => if i < 3 {
            (Stage::Announce((i + 1) as u8), None)
        } else {
            (Stage::Succeeded, None)
        },
        Stage::Probing(p) => probe_next(cfg, s.command, p, e),
        Stage::Report(i, st) => if i < 3 {
            (Stage::Report((i + 1) as u8, st), None)
        } else {
            (Stage::Succeeded, None)
        },
        Stage::Input(i) => match run_trouble(cfg.xdotool_bin, e) {
            Some(m) => (Stage::Failed, Some(m)),
            None => if i + 1 < input_steps(s.command).len() {
                (Stage::Input((i + 1) as usize), None)
            } else {
                (Stage::Succeeded, None)
            },
        },
        Stage::Capture => match run_trouble(cfg.scrot_bin, e) {
            Some(m) => (Stage::Failed, Some(m)),
            None => (Stage::Inspect, None),
        },
        Stage::Inspect => match e {
            EventView::Flag(true) => (Stage::Clear, None),
            _ => (Stage::Rest, None),
        },
        Stage::Clear => (Stage::Render, None),
        Stage::Render => match e {
            EventView::Exited { success, status } => if success {
                (Stage::Flush, None)
            } else {
                (Stage::Failed, Some("chafa exited with status "@ + status))
            },
            EventView::Failed(m) => (
                Stage::Failed,
                Some("failed to run chafa (`"@ + cfg.chafa_bin + "`): "@ + m),
            ),
            _ => (Stage::Flush, None),
        },
        Stage::Flush => match e {
            EventView::Failed(m) => (Stage::Failed, Some(m)),
            _ => (Stage::Rest, None),
        },
        Stage::Rest => (Stage::Capture, None),
        Stage::Discard => (Stage::Farewell, None),
        Stage::Farewell => (Stage::Succeeded, None),
        Stage::Help => (Stage::Succeeded, None),
        Stage::Succeeded => (Stage::Succeeded, None),
        Stage::Failed => (Stage::Failed, None),
    }
}

/// The session after its action came to `e`.
pub open spec fn after(s: SessionView, e: EventView) -> SessionView {
    let n = next(s, e);
    SessionView {
        stage: n.0,
        failure: match n.1 {
            Some(m) => m,
            None => s.failure,
        },
        ..s
    }
}

/// The lines the start command prints once the browser is up.
pub open spec fn announce_line(cfg: ConfigView, i: u8) -> Seq<char> {
    if i == 0 {
        "started"@
    } else if i == 1 {
        "display="@ + cfg.display
    } else if i == 2 {
        "size="@ + decimal(cfg.width as nat) + "x"@ + decimal(cfg.height as nat)
    } else {
        "state="@ + cfg.state_dir
    }
}

/// The lines of the status report.
pub open spec fn report_line(cfg: ConfigView, i: u8, st: ProcessStatus) -> Seq<char> {
    if i == 0 {
        "state_dir="@ + cfg.state_dir
    } else if i == 1 {
        "display="@ + cfg.display
    } else if i == 2 {
        "xvfb="@ + process_line_spec(st.xvfb_pid, st.xvfb_alive)
    } else {
        "chromium="@ + process_line_spec(st.chromium_pid, st.chromium_alive)
    }
}

/// The action that a session at its step asks for.
pub open spec fn action_spec(s: SessionView) -> ActionView {
    let cfg = s.config;
    match s.stage {
        Stage::MakeRunDir => ActionView::MakeDir(cfg.run_dir),
        Stage::MakeProfileDir => ActionView::MakeDir(cfg.profile_dir),
        Stage::Halting(t, h, _) => match h {
            Halt::Read => ActionView::ReadFile(tracked_path(cfg, t)),
            Halt::Kill(p) => ActionView::Run(kill_spec(seq![decimal(p as nat)])),
            Halt::Mark(_) => ActionView::StartClock,
            Halt::Check(_) => ActionView::ReadClock,
            Halt::Probe(p) => ActionView::Run(kill_spec(seq!["-0"@, decimal(p as nat)])),
            Halt::Pause(_) => ActionView::Sleep(100),
            Halt::Force(p) => ActionView::Run(kill_spec(seq!["-9"@, decimal(p as nat)])),
            Halt::Remove => ActionView::RemoveFile(tracked_path(cfg, t)),
        },
        Stage::SpawnXvfb => ActionView::Spawn(xvfb_spec(cfg)),
        Stage::SaveXvfb(p) => ActionView::WriteFile {
            path: tracked_path(cfg, Helper::Xvfb),
            contents: pid_file_spec(p),
        },
        Stage::Settle => ActionView::Sleep(750),
        Stage::SpawnChromium => ActionView::Spawn(chromium_spec(cfg, start_url(s.command))),
        Stage::SaveChromium(p) => ActionView::WriteFile {
            path: tracked_path(cfg, Helper::Chromium),
            contents: pid_file_spec(p),
        },
        Stage::Warm => ActionView::Sleep(cfg.start_wait_ms),
        Stage::Announce(i) => ActionView::Print(announce_line(cfg, i)),
        Stage::Probing(p) => match p {
            Probe::ReadXvfb => ActionView::ReadFile(tracked_path(cfg, Helper::Xvfb)),
            Probe::ReadChromium(_) => ActionView::ReadFile(tracked_path(cfg, Helper::Chromium)),
            Probe::AliveXvfb(x, _) => ActionView::Run(kill_spec(seq!["-0"@, decimal(x as nat)])),
            Probe::AliveChromium(_, _, c) => ActionView::Run(
                kill_spec(seq!["-0"@, decimal(c as nat)]),
            ),
        },
        Stage::Report(i, st) => ActionView::Print(report_line(cfg, i, st)),
        Stage::Input(i) => ActionView::Run(input_spec(cfg, s.command, i as int)),
        Stage::Capture => ActionView::Run(capture_spec(cfg)),
        Stage::Inspect => ActionView::IsFile(cfg.capture_path),
        Stage::Clear => ActionView::ClearScreen,
        Stage::Render => ActionView::Run(render_spec(cfg, s.env)),
        Stage::Flush => ActionView::Flush,
        Stage::Rest => ActionView::Sleep(cfg.view_interval_ms),
        Stage::Discard => ActionView::RemoveFile(cfg.capture_path),
        Stage::Farewell => ActionView::Print("stopped"@),
        Stage::Help => ActionView::Print(help_spec()),
        Stage::Succeeded => ActionView::Finish(Ok(())),
        Stage::Failed => ActionView::Finish(Err(s.failure)),
    }
}

// ---------------------------------------------------------------------------
// The plan, carried out
// ---------------------------------------------------------------------------

pub open spec fn session_result_view(r: Result<Session, String>) -> Result<SessionView, Seq<char>> {
    match r {
        Ok(s) => Ok(s@),
        Err(m) => Err(m@),
    }
}

/// Reads the command line (without the program name) and the configuration,
/// checks the coordinates of a pointer command, and opens the session that
/// carries out the command.
pub fn run(args: Vec<String>, env: Environment) -> (r: Result<Session, String>)
    ensures
        session_result_view(r) == run_spec(texts(args@), env@),
        r matches Ok(s) ==> well_formed(s@),
{
    let command: CliCommand = match parse_args(args.as_slice()) {
        Ok(c) => c,
        Err(m) => {
            return Err(m);
        },
    };
    let config: Config = match Config::from_env(&env) {
        Ok(c) => c,
        Err(m) => {
            return Err(m);
        },
    };
    let checked: Result<(), String> = match &command {
        CliCommand::Click { x, y } => validate_coords(&config, *x, *y),
        CliCommand::Move { x, y } => validate_coords(&config, *x, *y),
        CliCommand::Down { x, y } => validate_coords(&config, *x, *y),
        CliCommand::Up { x, y } => validate_coords(&config, *x, *y),
        _ => Ok(()),
    };
    match checked {
        Err(m) => {
            return Err(m);
        },
        Ok(()) => {},
    }
    let stage: Stage = match &command {
        CliCommand::Start { .. } => Stage::MakeRunDir,
        CliCommand::Stop => Stage::Halting(Helper::Chromium, Halt::Read, AfterHalt::Conclude),
        CliCommand::Help => Stage::Help,
        _ => Stage::Probing(Probe::ReadXvfb),
    };
    let s = Session { config, env, command, stage, failure: String::new() };
    Ok(s)
}

fn tracked_label(t: Helper) -> (r: &'static str)
    ensures
        r@ == tracked_name(t),
{
    match t {
        Helper::Chromium => "chromium",
        Helper::Xvfb => "xvfb",
    }
}

fn help_text() -> (r: &'static str)
    ensures
        r@ == help_spec(),
{
    "brausi - lightweight terminal browser controller

Usage:
  brausi start [url]
  brausi view
  brausi click <x> <y>
  brausi move <x> <y>
  brausi down <x> <y>
  brausi up <x> <y>
  brausi type <text>
  brausi go <url>
  brausi back
  brausi forward
  brausi reload
  brausi status
  brausi stop

Environment:
  BRAUSI_DISPLAY=:99
  BRAUSI_WIDTH=1024
  BRAUSI_HEIGHT=768
  BRAUSI_STATE_DIR=~/.brausi
  BRAUSI_CHROMIUM=chromium
  BRAUSI_XVFB=Xvfb
  BRAUSI_SCROT=scrot
  BRAUSI_CHAFA=chafa
  BRAUSI_XDOTOOL=xdotool"
}

fn trouble(program: &str, event: &Event) -> (r: Option<String>)
    ensures
        match run_trouble(program@, event@) {
            Some(m) => r matches Some(x) && x@ == m,
            None => r is None,
        },
{
    match event {
        Event::Exited { success, status } => {
            if *success {
                None
            } else {
                Some(exit_failure(program, status.as_str()))
            }
        },
        Event::Failed(m) => Some(run_failure(program, m.as_str())),
        _ => None,
    }
}

fn ran_well(event: &Event) -> (r: bool)
    ensures
        r == succeeded(event@),
{
    match event {
        Event::Exited { success, .. } => *success,
        _ => false,
    }
}

impl Session {
    /// The step the session is at.
    pub fn stage(&self) -> (r: Stage)
        ensures
            r == self@.stage,
    {
        self.stage
    }

    /// Whether the session has finished.
    pub fn finished(&self) -> (r: bool)
        ensures
            r == (self@.stage is Succeeded || self@.stage is Failed),
    {
        match self.stage {
            Stage::Succeeded | Stage::Failed => true,
            _ => false,
        }
    }

    /// Whether `event` is an outcome that the current action can have.
    pub fn accepts(&self, event: &Event) -> (r: bool)
        ensures
            r == accepts(self@.stage, event@),
    {
        match self.stage {
            Stage::MakeRunDir | Stage::MakeProfileDir | Stage::SaveXvfb(_) | Stage::SaveChromium(
                _,
            )
            | Stage::Flush | Stage::Discard => match event {
                Event::Done | Event::Failed(_) => true,
                _ => false,
            },
            Stage::Halting(_, h, _) => match h {
                Halt::Read => match event {
                    Event::Text(_) | Event::Missing | Event::Failed(_) => true,
                    _ => false,
                },
                Halt::Check(_) => match event {
                    Event::Millis(_) => true,
                    _ => false,
                },
                Halt::Kill(_) | Halt::Probe(_) | Halt::Force(_) => match event {
                    Event::Exited { .. } | Event::Failed(_) => true,
                    _ => false,
                },
                Halt::Remove => match event {
                    Event::Done | Event::Failed(_) => true,
                    _ => false,
                },
                _ => match event {
                    Event::Done => true,
                    _ => false,
                },
            },
            Stage::Probing(p) => match p {
                Probe::ReadXvfb | Probe::ReadChromium(_) => match event {
                    Event::Text(_) | Event::Missing | Event::Failed(_) => true,
                    _ => false,
                },
                _ => match event {
                    Event::Exited { .. } | Event::Failed(_) => true,
                    _ => false,
                },
            },
            Stage::SpawnXvfb | Stage::SpawnChromium => match event {
                Event::Started(_) | Event::Failed(_) => true,
                _ => false,
            },
            Stage::Input(_) | Stage::Capture | Stage::Render => match event {
                Event::Exited { .. } | Event::Failed(_) => true,
                _ => false,
            },
            Stage::Inspect => match event {
                Event::Flag(_) => true,
                _ => false,
            },
            Stage::Settle | Stage::Warm | Stage::Announce(_) | Stage::Report(_, _) | Stage::Clear
            | Stage::Rest | Stage::Farewell | Stage::Help => match event {
                Event::Done => true,
                _ => false,
            },
            Stage::Succeeded | Stage::Failed => false,
        }
    }

    fn path_of(&self, t: Helper) -> (r: String)
        ensures
            r@ == tracked_path(self@.config, t),
    {
        pid_path(&self.config, tracked_label(t))
    }

    fn surveyed_pid(&self, t: Helper, event: &Event) -> (r: Option<u32>)
        ensures
            r == surveyed_pid(self@.config, t, event@),
    {
        match event {
            Event::Text(x) => {
                let path: String = self.path_of(t);
                match read_pid(path.as_str(), Ok(Some(x.clone()))) {
                    Ok(p) => p,
                    Err(_) => None,
                }
            },
            _ => None,
        }
    }

    fn halt_next(&self, t: Helper, h: Halt, a: AfterHalt, event: Event) -> (r: (
        Stage,
        Option<String>,
    ))
        ensures
            r.0 == halt_next(self@.config, t, h, a, event@).0,
            match halt_next(self@.config, t, h, a, event@).1 {
                Some(m) => r.1 matches Some(x) && x@ == m,
                None => r.1 is None,
            },
    {
        match h {
            Halt::Read => match event {
                Event::Text(x) => {
                    let path: String = self.path_of(t);
                    match read_pid(path.as_str(), Ok(Some(x))) {
                        Ok(Some(p)) => (Stage::Halting(t, Halt::Kill(p), a), None),
                        Ok(None) => (Stage::Halting(t, Halt::Remove, a), None),
                        Err(m) => match a {
                            AfterHalt::Abandon => (Stage::Failed, None),
                            _ => (Stage::Failed, Some(m)),
                        },
                    }
                },
                Event::Failed(m) => match a {
                    AfterHalt::Abandon => (Stage::Failed, None),
                    _ => (Stage::Failed, Some(m)),
                },
                _ => (Stage::Halting(t, Halt::Remove, a), None),
            },
            Halt::Kill(p) => (Stage::Halting(t, Halt::Mark(p), a), None),
            Halt::Mark(p) => (Stage::Halting(t, Halt::Check(p), a), None),
            Halt::Check(p) => match event {
                Event::Millis(ms) => {
                    if ms < 2000 {
                        (Stage::Halting(t, Halt::Probe(p), a), None)
                    } else {
                        (Stage::Halting(t, Halt::Force(p), a), None)
                    }
                },
                _ => (Stage::Halting(t, Halt::Force(p), a), None),
            },
            Halt::Probe(p) => {
                if ran_well(&event) {
                    (Stage::Halting(t, Halt::Pause(p), a), None)
                } else {
                    (Stage::Halting(t, Halt::Remove, a), None)
                }
            },
            Halt::Pause(p) => (Stage::Halting(t, Halt::Check(p), a), None),
            Halt::Force(_) => (Stage::Halting(t, Halt::Remove, a), None),
            Halt::Remove => match t {
                Helper::Chromium => (Stage::Halting(Helper::Xvfb, Halt::Read, a), None),
                Helper::Xvfb => (
                    match a {
                        AfterHalt::Launch => Stage::SpawnXvfb,
                        AfterHalt::Abandon => Stage::Failed,
                        AfterHalt::Conclude => Stage::Discard,
                    },
                    None,
                ),
            },
        }
    }

    fn surveyed(&self, st: ProcessStatus) -> (r: (Stage, Option<String>))
        ensures
            r.0 == surveyed(self@.command, st).0,
            match surveyed(self@.command, st).1 {
                Some(m) => r.1 matches Some(x) && x@ == m,
                None => r.1 is None,
            },
    {
        match self.command {
            CliCommand::Status => (Stage::Report(0, st), None),
            _ => match ensure_running_message(&st) {
                None => match self.command {
                    CliCommand::View => (Stage::MakeRunDir, None),
                    _ => (Stage::Input(0), None),
                },
                Some(m) => (Stage::Failed, Some(m)),
            },
        }
    }

    fn survey_chromium(&self, xvfb: Option<u32>, xvfb_alive: bool, chromium: Option<u32>) -> (r: (
        Stage,
        Option<String>,
    ))
        ensures
            r.0 == survey_chromium(self@.command, xvfb, xvfb_alive, chromium).0,
            match survey_chromium(self@.command, xvfb, xvfb_alive, chromium).1 {
                Some(m) => r.1 matches Some(x) && x@ == m,
                None => r.1 is None,
            },
    {
        match chromium {
            Some(c) => (Stage::Probing(Probe::AliveChromium(xvfb, xvfb_alive, c)), None),
            None => self.surveyed(
                ProcessStatus {
                    xvfb_pid: xvfb,
                    xvfb_alive,
                    chromium_pid: None,
                    chromium_alive: false,
                },
            ),
        }
    }

    fn probe_next(&self, p: Probe, event: Event) -> (r: (Stage, Option<String>))
        ensures
            r.0 == probe_next(self@.config, self@.command, p, event@).0,
            match probe_next(self@.config, self@.command, p, event@).1 {
                Some(m) => r.1 matches Some(x) && x@ == m,
                None => r.1 is None,
            },
    {
        match p {
            Probe::ReadXvfb => (
                Stage::Probing(Probe::ReadChromium(self.surveyed_pid(Helper::Xvfb, &event))),
                None,
            ),
            Probe::ReadChromium(xp) => {
                let cp: Option<u32> = self.surveyed_pid(Helper::Chromium, &event);
                match xp {
                    Some(x) => (Stage::Probing(Probe::AliveXvfb(x, cp)), None),
                    None => self.survey_chromium(None, false, cp),
                }
            },
            Probe::AliveXvfb(x, cp) => self.survey_chromium(Some(x), ran_well(&event), cp),
            Probe::AliveChromium(xp, xa, c) => self.surveyed(
                ProcessStatus {
                    xvfb_pid: xp,
                    xvfb_alive: xa,
                    chromium_pid: Some(c),
                    chromium_alive: ran_well(&event),
                },
            ),
        }
    }

    fn next(&self, event: Event) -> (r: (Stage, Option<String>))
        requires
            well_formed(self@),
        ensures
            r.0 == next(self@, event@).0,
            match next(self@, event@).1 {
                Some(m) => r.1 matches Some(x) && x@ == m,
                None => r.1 is None,
            },
    {
        match self.stage {
            Stage::MakeRunDir => match event {
                Event::Failed(m) => (Stage::Failed, Some(m)),
                _ => (Stage::MakeProfileDir, None),
            },
            Stage::MakeProfileDir => match event {
                Event::Failed(m) => (Stage::Failed, Some(m)),
                _ => match self.command {
                    CliCommand::Start { .. } => (
                        Stage::Halting(Helper::Chromium, Halt::Read, AfterHalt::Launch),
                        None,
                    ),
                    _ => (Stage::Capture, None),
                },
            },
            Stage::Halting(t, h, a) => self.halt_next(t, h, a, event),
            Stage::SpawnXvfb => match event {
                Event::Started(p) => (Stage::SaveXvfb(p), None),
                Event::Failed(m) => (
                    Stage::Failed,
                    Some(start_failure("Xvfb", self.config.xvfb_bin.as_str(), m.as_str())),
                ),
                _ => (Stage::Failed, None),
            },
            Stage::SaveXvfb(_) => match event {
                Event::Failed(m) => (Stage::Failed, Some(m)),
                _ => (Stage::Settle, None),
            },
            Stage::Settle => (Stage::SpawnChromium, None),
            Stage::SpawnChromium => match event {
                Event::Started(p) => (Stage::SaveChromium(p), None),
                Event::Failed(m) => (
                    Stage::Halting(Helper::Chromium, Halt::Read, AfterHalt::Abandon),
                    Some(start_failure("Chromium", self.config.chromium_bin.as_str(), m.as_str())),
                ),
                _ => (Stage::Failed, None),
            },
            Stage::SaveChromium(_) => match event {
                Event::Failed(m) => (Stage::Failed, Some(m)),
                _ => (Stage::Warm, None),
            },
            Stage::Warm => (Stage::Announce(0), None),
            Stage::Announce(i) => {
                if i < 3 {
                    (Stage::Announce(i + 1), None)
                } else {
                    (Stage::Succeeded, None)
                }
            },
            Stage::Probing(p) => self.probe_next(p, event),
            Stage::Report(i, st) => {
                if i < 3 {
                    (Stage::Report(i + 1, st), None)
                } else {
                    (Stage::Succeeded, None)
                }
            },
            Stage::Input(i) => match trouble(self.config.xdotool_bin.as_str(), &event) {
                Some(m) => (Stage::Failed, Some(m)),
                None => {
                    if i + 1 < input_count(&self.command) {
                        (Stage::Input(i + 1), None)
                    } else {
                        (Stage::Succeeded, None)
                    }
                },
            },
            Stage::Capture => match trouble(self.config.scrot_bin.as_str(), &event) {
                Some(m) => (Stage::Failed, Some(m)),
                None => (Stage::Inspect, None),
            },
            Stage::Inspect => match event {
                Event::Flag(true) => (Stage::Clear, None),
                _ => (Stage::Rest, None),
            },
            Stage::Clear => (Stage::Render, None),
            Stage::Render => match event {
                Event::Exited { success, status } => {
                    if success {
                        (Stage::Flush, None)
                    } else {
                        (Stage::Failed, Some(concat2("chafa exited with status ", status.as_str())))
                    }
                },
                Event::Failed(m) => (
                    Stage::Failed,
                    Some(
                        {
                            let mut r: String = concat3(
                                "failed to run chafa (`",
                                self.config.chafa_bin.as_str(),
                                "`): ",
                            );
                            r.append(m.as_str());
                            r
                        },
                    ),
                ),
                _ => (Stage::Flush, None),
            },
            Stage::Flush => match event {
                Event::Failed(m) => (Stage::Failed, Some(m)),
                _ => (Stage::Rest, None),
            },
            Stage::Rest => (Stage::Capture, None),
            Stage::Discard => (Stage::Farewell, None),
            Stage::Farewell => (Stage::Succeeded, None),
            Stage::Help => (Stage::Succeeded, None),
            Stage::Succeeded => (Stage::Succeeded, None),
            Stage::Failed => (Stage::Failed, None),
        }
    }

    /// The action the session asks for at its current step.
    pub fn action(&self) -> (r: Action)
        requires
            well_formed(self@),
        ensures
            r@ == action_spec(self@),
    {
        let cfg: &Config = &self.config;
        match self.stage {
            Stage::MakeRunDir => Action::MakeDir(cfg.run_dir.clone()),
            Stage::MakeProfileDir => Action::MakeDir(cfg.profile_dir.clone()),
            Stage::Halting(t, h, _) => match h {
                Halt::Read => Action::ReadFile(self.path_of(t)),
                Halt::Kill(p) => Action::Run(kill_invocation(None, p)),
                Halt::Mark(_) => Action::StartClock,
                Halt::Check(_) => Action::ReadClock,
                Halt::Probe(p) => Action::Run(kill_invocation(Some("-0"), p)),
                Halt::Pause(_) => Action::Sleep(100),
                Halt::Force(p) => Action::Run(kill_invocation(Some("-9"), p)),
                Halt::Remove => Action::RemoveFile(self.path_of(t)),
            },
            Stage::SpawnXvfb => Action::Spawn(xvfb_invocation(cfg)),
            Stage::SaveXvfb(p) => Action::WriteFile {
                path: self.path_of(Helper::Xvfb),
                contents: pid_file_text(p),
            },
            Stage::Settle => Action::Sleep(750),
            Stage::SpawnChromium => {
                let url: Option<&str> = match &self.command {
                    CliCommand::Start { url: Some(u) } => Some(u.as_str()),
                    _ => None,
                };
                Action::Spawn(chromium_invocation(cfg, url))
            },
            Stage::SaveChromium(p) => Action::WriteFile {
                path: self.path_of(Helper::Chromium),
                contents: pid_file_text(p),
            },
            Stage::Warm => Action::Sleep(cfg.start_wait_ms),
            Stage::Announce(i) => Action::Print(self.announce_line(i)),
            Stage::Probing(p) => match p {
                Probe::ReadXvfb => Action::ReadFile(self.path_of(Helper::Xvfb)),
                Probe::ReadChromium(_) => Action::ReadFile(self.path_of(Helper::Chromium)),
                Probe::AliveXvfb(x, _) => Action::Run(kill_invocation(Some("-0"), x)),
                Probe::AliveChromium(_, _, c) => Action::Run(kill_invocation(Some("-0"), c)),
            },
            Stage::Report(i, st) => Action::Print(self.report_line(i, st)),
            Stage::Input(i) => Action::Run(input_invocation(cfg, &self.command, i)),
            Stage::Capture => Action::Run(capture(cfg)),
            Stage::Inspect => Action::IsFile(cfg.capture_path.clone()),
            Stage::Clear => Action::ClearScreen,
            Stage::Render => Action::Run(render_invocation(cfg, &self.env)),
            Stage::Flush => Action::Flush,
            Stage::Rest => Action::Sleep(cfg.view_interval_ms),
            Stage::Discard => Action::RemoveFile(cfg.capture_path.clone()),
            Stage::Farewell => Action::Print(String::from_str("stopped")),
            Stage::Help => Action::Print(String::from_str(help_text())),
            Stage::Succeeded => Action::Finish(Ok(())),
            Stage::Failed => Action::Finish(Err(self.failure.clone())),
        }
    }

    fn announce_line(&self, i: u8) -> (r: String)
        ensures
            r@ == announce_line(self@.config, i),
    {
        let cfg: &Config = &self.config;
        if i == 0 {
            String::from_str("started")
        } else if i == 1 {
            concat2("display=", cfg.display.as_str())
        } else if i == 2 {
            let w: String = decimal_text(cfg.width);
            let h: String = decimal_text(cfg.height);
            let mut r: String = concat3("size=", w.as_str(), "x");
            r.append(h.as_str());
            r
        } else {
            concat2("state=", cfg.state_dir.as_str())
        }
    }

    fn report_line(&self, i: u8, st: ProcessStatus) -> (r: String)
        ensures
            r@ == report_line(self@.config, i, st),
    {
        let cfg: &Config = &self.config;
        if i == 0 {
            concat2("state_dir=", cfg.state_dir.as_str())
        } else if i == 1 {
            concat2("display=", cfg.display.as_str())
        } else if i == 2 {
            let l: String = process_line(st.xvfb_pid, st.xvfb_alive);
            concat2("xvfb=", l.as_str())
        } else {
            let l: String = process_line(st.chromium_pid, st.chromium_alive);
            concat2("chromium=", l.as_str())
        }
    }

    /// Takes what came of the current action and moves to the next step,
    /// returning the action that step asks for.
    pub fn resume(&mut self, event: Event) -> (r: Action)
        requires
            well_formed(old(self)@),
            accepts(old(self)@.stage, event@),
        ensures
            final(self)@ == after(old(self)@, event@),
            well_formed(final(self)@),
            r@ == action_spec(final(self)@),
    {
        let (stage, failure) = self.next(event);
        self.stage = stage;
        match failure {
            Some(m) => {
                self.failure = m;
            },
            None => {},
        }
        self.action()
    }
}

fn ensure_running_message(st: &ProcessStatus) -> (r: Option<String>)
    ensures
        st.xvfb_alive && st.chromium_alive ==> r is None,
        !(st.xvfb_alive && st.chromium_alive) ==> (r matches Some(m) && m@ == not_running_text()),
{
    match crate::process::ensure_running(st) {
        Ok(()) => None,
        Err(m) => Some(m),
    }
}

} // verus!
