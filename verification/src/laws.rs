//! Properties that hold across the commands and the steps of a session.

use vstd::prelude::*;

use crate::commands::{chromium_spec, input_steps, is_input, kill_spec, xvfb_spec, InvocationView};
use crate::text::trimmed;
use crate::config::{config_spec, lookup, path_join, setting, EnvView};
use crate::process::{lemma_pid_file_round_trip, pid_file_spec};
use crate::session::{
    accepts, action_spec, after, is_pointer, pointer_xy, run_spec, succeeded, well_formed,
    tracked_path, ActionView, AfterHalt, EventView, Halt, Helper, Probe, SessionView, Stage,
};
use crate::cli::{parse_spec, CommandView};
use crate::text::{decimal, lemma_parse_decimal, parse_unsigned, IntErrorKind};

verus! {

/// The step at which the start command records the pid of `t`.
pub open spec fn save_stage(t: Helper, p: u32) -> Stage {
    match t {
        Helper::Xvfb => Stage::SaveXvfb(p),
        Helper::Chromium => Stage::SaveChromium(p),
    }
}

/// Stopping kills the process that starting recorded: the file the start
/// command writes the pid of `t` into is the file a stop reads, and reading
/// back what was written there makes the stop kill that very pid.
pub proof fn law_stop_kills_recorded_pid(
    writer: SessionView,
    reader: SessionView,
    t: Helper,
    p: u32,
    a: AfterHalt,
)
    requires
        writer.stage == save_stage(t, p),
        reader.stage == Stage::Halting(t, Halt::Read, a),
        writer.config == reader.config,
    ensures
        action_spec(writer) == (ActionView::WriteFile {
            path: tracked_path(writer.config, t),
            contents: pid_file_spec(p),
        }),
        action_spec(reader) == ActionView::ReadFile(tracked_path(writer.config, t)),
        after(reader, EventView::Text(pid_file_spec(p))).stage == Stage::Halting(
            t,
            Halt::Kill(p),
            a,
        ),
        action_spec(after(reader, EventView::Text(pid_file_spec(p)))) == ActionView::Run(
            kill_spec(seq![decimal(p as nat)]),
        ),
{
    lemma_pid_file_round_trip(tracked_path(writer.config, t), p);
}

/// The status survey finds the pids that the start command recorded: reading
/// back the pid file of Xvfb, and then that of Chromium, yields the pids
/// written into them, whose liveness is asked next.
pub proof fn law_survey_finds_recorded_pids(s: SessionView, x: u32, c: u32)
    requires
        s.stage == Stage::Probing(Probe::ReadXvfb),
    ensures
        action_spec(s) == ActionView::ReadFile(tracked_path(s.config, Helper::Xvfb)),
        after(s, EventView::Text(pid_file_spec(x))).stage == Stage::Probing(
            Probe::ReadChromium(Some(x)),
        ),
        action_spec(after(s, EventView::Text(pid_file_spec(x)))) == ActionView::ReadFile(
            tracked_path(s.config, Helper::Chromium),
        ),
        after(after(s, EventView::Text(pid_file_spec(x))), EventView::Text(pid_file_spec(c))).stage
            == Stage::Probing(Probe::AliveXvfb(x, Some(c))),
{
    lemma_pid_file_round_trip(tracked_path(s.config, Helper::Xvfb), x);
    lemma_pid_file_round_trip(tracked_path(s.config, Helper::Chromium), c);
}

/// Input reaches the browser only once the survey found both processes
/// alive: a session enters its xdotool calls only right after the liveness
/// probe of Chromium succeeded with Xvfb found alive before it.
pub proof fn law_input_only_when_running(s: SessionView, e: EventView)
    requires
        well_formed(s),
        accepts(s.stage, e),
        !(s.stage is Input),
        after(s, e).stage is Input,
    ensures
        s.stage matches Stage::Probing(Probe::AliveChromium(_, xvfb_alive, _)) && xvfb_alive,
        succeeded(e),
        is_input(s.command),
{
}

/// The viewer starts capturing only once the survey found both processes
/// alive.
pub proof fn law_view_only_when_running(s: SessionView, e: EventView)
    requires
        well_formed(s),
        accepts(s.stage, e),
        !(s.command is Start),
        after(s, e).stage is MakeRunDir,
    ensures
        s.stage matches Stage::Probing(Probe::AliveChromium(_, xvfb_alive, _)) && xvfb_alive,
        succeeded(e),
        s.command is View,
{
}

/// When Chromium cannot be started, the tracked processes are stopped and the
/// session then fails with the message of that start: the clean-up keeps the
/// message whatever happens while it runs, and it can only end by failing.
pub proof fn law_failed_start_cleans_up(s: SessionView, e: EventView)
    requires
        accepts(s.stage, e),
        s.stage is SpawnChromium || s.stage matches Stage::Halting(_, _, AfterHalt::Abandon),
    ensures
        s.stage is SpawnChromium ==> (e matches EventView::Failed(m) ==> {
            &&& after(s, e).stage == Stage::Halting(Helper::Chromium, Halt::Read, AfterHalt::Abandon)
            &&& after(s, e).failure == "failed to start "@ + "Chromium"@ + " (`"@
                + s.config.chromium_bin + "`): "@ + m
        }),
        s.stage is Halting ==> {
            &&& after(s, e).failure == s.failure
            &&& (after(s, e).stage is Failed || after(s, e).stage matches Stage::Halting(
                _,
                _,
                AfterHalt::Abandon,
            ))
        },
{
}

/// A start stops whatever it tracked before: Xvfb is only launched right after
/// the pid file of the old Xvfb was removed in the stop that a start makes.
pub proof fn law_start_stops_stale_first(s: SessionView, e: EventView)
    requires
        accepts(s.stage, e),
        after(s, e).stage is SpawnXvfb,
    ensures
        s.stage == Stage::Halting(Helper::Xvfb, Halt::Remove, AfterHalt::Launch),
{
}

/// A process is stopped Chromium first, then Xvfb; after both, the command
/// goes on with what it stopped them for.
pub proof fn law_stop_order(s: SessionView, e: EventView, a: AfterHalt)
    requires
        accepts(s.stage, e),
    ensures
        s.stage == Stage::Halting(Helper::Chromium, Halt::Remove, a) ==> after(s, e).stage
            == Stage::Halting(Helper::Xvfb, Halt::Read, a),
        s.stage == Stage::Halting(Helper::Xvfb, Halt::Remove, a) ==> after(s, e).stage == match a {
            AfterHalt::Launch => Stage::SpawnXvfb,
            AfterHalt::Abandon => Stage::Failed,
            AfterHalt::Conclude => Stage::Discard,
        },
{
}

/// A process that still lives when its grace period is over is killed
/// outright; before that, it is asked again whether it lives.
pub proof fn law_grace_period(s: SessionView, t: Helper, p: u32, a: AfterHalt, ms: u64)
    requires
        s.stage == Stage::Halting(t, Halt::Check(p), a),
    ensures
        ms >= 2000 ==> after(s, EventView::Millis(ms)).stage == Stage::Halting(t, Halt::Force(p), a),
        ms >= 2000 ==> action_spec(after(s, EventView::Millis(ms))) == ActionView::Run(
            kill_spec(seq!["-9"@, decimal(p as nat)]),
        ),
        ms < 2000 ==> after(s, EventView::Millis(ms)).stage == Stage::Halting(t, Halt::Probe(p), a),
{
}

/// Every program started or run on the X display gets the configured display,
/// and the input, capture and browser calls always get it; `kill`, Xvfb and
/// chafa get none.
pub proof fn law_display_is_configured(s: SessionView)
    requires
        well_formed(s),
    ensures
        action_spec(s) matches ActionView::Run(i) ==> (i.display matches Some(d) ==> d
            == s.config.display),
        action_spec(s) matches ActionView::Spawn(i) ==> (i.display matches Some(d) ==> d
            == s.config.display),
        (s.stage is Input || s.stage is Capture) ==> (action_spec(s) matches ActionView::Run(i)
            && i.display == Some(s.config.display)),
        s.stage is SpawnChromium ==> (action_spec(s) matches ActionView::Spawn(i) && i.display
            == Some(s.config.display)),
        (s.stage is Halting || s.stage is Probing || s.stage is Render || s.stage is SpawnXvfb)
            ==> match action_spec(s) {
            ActionView::Run(i) => i.display is None,
            ActionView::Spawn(i) => i.display is None,
            _ => true,
        },
{
}

/// A session asks to finish exactly when it is over, and takes no outcome
/// once it is.
pub proof fn law_finish_at_end(s: SessionView, e: EventView)
    ensures
        (action_spec(s) is Finish) <==> (s.stage is Succeeded || s.stage is Failed),
        (s.stage is Succeeded || s.stage is Failed) ==> !accepts(s.stage, e),
{
}

/// Every step a session takes keeps it well formed.
pub proof fn law_steps_stay_well_formed(s: SessionView, e: EventView)
    requires
        well_formed(s),
        accepts(s.stage, e),
    ensures
        well_formed(after(s, e)),
{
}

/// A pointer command is only carried out at a pixel of the framebuffer.
pub proof fn law_pointer_in_bounds(args: Seq<Seq<char>>, env: EnvView)
    requires
        run_spec(args, env) is Ok,
        is_pointer(run_spec(args, env)->Ok_0.command),
    ensures
        pointer_xy(run_spec(args, env)->Ok_0.command).0 < run_spec(args, env)->Ok_0.config.width,
        pointer_xy(run_spec(args, env)->Ok_0.command).1 < run_spec(args, env)->Ok_0.config.height,
{
}

/// Without settings of its own, the controller uses display `:99` with a
/// 1024x768 screen of depth 24, looks every 200 ms, waits 12 s after a start,
/// and keeps its state in `.brausi` in the home directory: pid files and
/// screenshots under `run`, the browser profile under `profile`.
pub proof fn law_defaults(env: EnvView, home: Seq<char>)
    requires
        setting(env, "BRAUSI_DISPLAY"@) is None,
        setting(env, "BRAUSI_WIDTH"@) is None,
        setting(env, "BRAUSI_HEIGHT"@) is None,
        setting(env, "BRAUSI_DEPTH"@) is None,
        setting(env, "BRAUSI_VIEW_INTERVAL_MS"@) is None,
        setting(env, "BRAUSI_START_WAIT_MS"@) is None,
        setting(env, "BRAUSI_STATE_DIR"@) is None,
        lookup(env.vars, "HOME"@) == Some(home),
    ensures
        config_spec(env) is Ok,
        config_spec(env)->Ok_0.display == ":99"@,
        config_spec(env)->Ok_0.width == 1024,
        config_spec(env)->Ok_0.height == 768,
        config_spec(env)->Ok_0.depth == 24,
        config_spec(env)->Ok_0.view_interval_ms == 200,
        config_spec(env)->Ok_0.start_wait_ms == 12000,
        config_spec(env)->Ok_0.state_dir == path_join(home, ".brausi"@),
        config_spec(env)->Ok_0.run_dir == path_join(path_join(home, ".brausi"@), "run"@),
        config_spec(env)->Ok_0.profile_dir == path_join(path_join(home, ".brausi"@), "profile"@),
{
}

/// Numbers written in decimal read back as themselves.
pub proof fn law_decimal_round_trip(n: u32)
    ensures
        parse_unsigned(decimal(n as nat), u32::MAX as nat) == Ok::<nat, IntErrorKind>(n as nat),
{
    lemma_parse_decimal(n as nat, u32::MAX as nat);
}

/// Each pointer word names its own pointer command at the coordinates that
/// follow it: `click`, `move`, `down` or `mousedown`, `up` or `mouseup`.
pub proof fn law_pointer_words(x: u32, y: u32)
    ensures
        parse_spec(seq!["click"@, decimal(x as nat), decimal(y as nat)]) == Ok::<
            CommandView,
            Seq<char>,
        >(CommandView::Click { x, y }),
        parse_spec(seq!["move"@, decimal(x as nat), decimal(y as nat)]) == Ok::<
            CommandView,
            Seq<char>,
        >(CommandView::Move { x, y }),
        parse_spec(seq!["down"@, decimal(x as nat), decimal(y as nat)]) == Ok::<
            CommandView,
            Seq<char>,
        >(CommandView::Down { x, y }),
        parse_spec(seq!["mousedown"@, decimal(x as nat), decimal(y as nat)]) == Ok::<
            CommandView,
            Seq<char>,
        >(CommandView::Down { x, y }),
        parse_spec(seq!["up"@, decimal(x as nat), decimal(y as nat)]) == Ok::<
            CommandView,
            Seq<char>,
        >(CommandView::Up { x, y }),
        parse_spec(seq!["mouseup"@, decimal(x as nat), decimal(y as nat)]) == Ok::<
            CommandView,
            Seq<char>,
        >(CommandView::Up { x, y }),
{
    reveal_strlit("start");
    reveal_strlit("view");
    reveal_strlit("click");
    reveal_strlit("move");
    reveal_strlit("down");
    reveal_strlit("mousedown");
    reveal_strlit("up");
    reveal_strlit("mouseup");
    reveal_strlit("type");
    reveal_strlit("go");
    reveal_strlit("back");
    reveal_strlit("forward");
    reveal_strlit("reload");
    reveal_strlit("stop");
    reveal_strlit("status");
    reveal_strlit("help");
    reveal_strlit("-h");
    reveal_strlit("--help");
    assert("click"@[0] != "start"@[0]);
    assert("move"@[0] != "view"@[0]);
    lemma_parse_decimal(x as nat, u32::MAX as nat);
    lemma_parse_decimal(y as nat, u32::MAX as nat);
}

/// Each command word names its own command: `start` with the page to open,
/// `type` and `go` with their text, the plain commands alone, and `help`,
/// `-h`, `--help` or no word at all for the usage.
pub proof fn law_command_words(t: Seq<char>)
    ensures
        parse_spec(seq![]) == Ok::<CommandView, Seq<char>>(CommandView::Help),
        parse_spec(seq!["start"@]) == Ok::<CommandView, Seq<char>>(CommandView::Start { url: None }),
        parse_spec(seq!["start"@, t]) == Ok::<CommandView, Seq<char>>(
            CommandView::Start { url: Some(t) },
        ),
        parse_spec(seq!["view"@]) == Ok::<CommandView, Seq<char>>(CommandView::View),
        parse_spec(seq!["type"@, t]) == Ok::<CommandView, Seq<char>>(CommandView::Type { text: t }),
        parse_spec(seq!["go"@, t]) == Ok::<CommandView, Seq<char>>(CommandView::Go { url: t }),
        parse_spec(seq!["back"@]) == Ok::<CommandView, Seq<char>>(CommandView::Back),
        parse_spec(seq!["forward"@]) == Ok::<CommandView, Seq<char>>(CommandView::Forward),
        parse_spec(seq!["reload"@]) == Ok::<CommandView, Seq<char>>(CommandView::Reload),
        parse_spec(seq!["stop"@]) == Ok::<CommandView, Seq<char>>(CommandView::Stop),
        parse_spec(seq!["status"@]) == Ok::<CommandView, Seq<char>>(CommandView::Status),
        parse_spec(seq!["help"@]) == Ok::<CommandView, Seq<char>>(CommandView::Help),
        parse_spec(seq!["-h"@]) == Ok::<CommandView, Seq<char>>(CommandView::Help),
        parse_spec(seq!["--help"@]) == Ok::<CommandView, Seq<char>>(CommandView::Help),
{

    reveal_strlit("start");
    reveal_strlit("view");
    reveal_strlit("click");
    reveal_strlit("move");
    reveal_strlit("down");
    reveal_strlit("mousedown");
    reveal_strlit("up");
    reveal_strlit("mouseup");
    reveal_strlit("type");
    reveal_strlit("go");
    reveal_strlit("back");
    reveal_strlit("forward");
    reveal_strlit("reload");
    reveal_strlit("stop");
    reveal_strlit("status");
    reveal_strlit("help");
    reveal_strlit("-h");
    reveal_strlit("--help");
    assert(seq!["type"@, t].subrange(1, 2) =~= seq![t]);
    assert(seq!["go"@, t].subrange(1, 2) =~= seq![t]);
    assert("type"@[0] != "view"@[0] && "type"@[0] != "move"@[0] && "type"@[0] != "down"@[0]);
    assert("back"@[0] != "view"@[0] && "back"@[0] != "move"@[0] && "back"@[0] != "down"@[0]);
    assert("back"@[0] != "type"@[0]);
    assert("stop"@[0] != "view"@[0] && "stop"@[0] != "move"@[0] && "stop"@[0] != "down"@[0]);
    assert("stop"@[0] != "type"@[0] && "stop"@[0] != "back"@[0]);
    assert("help"@[0] != "view"@[0] && "help"@[0] != "move"@[0] && "help"@[0] != "down"@[0]);
    assert("help"@[0] != "type"@[0] && "help"@[0] != "back"@[0] && "help"@[0] != "stop"@[0]);
    assert("start"@[0] != "click"@[0]);
    assert("reload"@[0] != "status"@[0]);
    assert("-h"@[0] != "go"@[0] && "-h"@[0] != "up"@[0]);
    assert("go"@[0] != "up"@[0]);
    assert("forward"@[0] != "mouseup"@[0]);
}

/// A program run that ended successfully.
pub open spec fn ran_ok(status: Seq<char>) -> EventView {
    EventView::Exited { success: true, status }
}

/// The xdotool call with `args` on the configured display.
pub open spec fn xdotool_call(s: SessionView, args: Seq<Seq<char>>) -> ActionView {
    ActionView::Run(InvocationView { program: s.config.xdotool_bin, args, display: Some(s.config.display) })
}

/// An input command makes all of its xdotool calls, in order: a call that
/// succeeds leads to the next one, and only the success of the last one ends
/// the command, successfully.
pub proof fn law_input_runs_every_call(s: SessionView, i: usize, status: Seq<char>)
    requires
        well_formed(s),
        s.stage == Stage::Input(i),
    ensures
        i + 1 < input_steps(s.command).len() ==> after(s, ran_ok(status)).stage == Stage::Input(
            (i + 1) as usize,
        ),
        i + 1 < input_steps(s.command).len() ==> action_spec(after(s, ran_ok(status)))
            == xdotool_call(s, input_steps(s.command)[i + 1]),
        i + 1 == input_steps(s.command).len() ==> after(s, ran_ok(status)).stage
            == Stage::Succeeded,
        i + 1 == input_steps(s.command).len() ==> action_spec(after(s, ran_ok(status)))
            == ActionView::Finish(Ok(())),
{
}

/// `go` focuses the address bar, types the address and presses Return, each
/// on the display, and only then succeeds.
pub proof fn law_go_opens_the_address(s: SessionView, url: Seq<char>, a: Seq<char>, b: Seq<char>, c: Seq<char>)
    requires
        s.command == (CommandView::Go { url }),
        s.stage == Stage::Input(0),
    ensures
        action_spec(s) == xdotool_call(s, seq!["key"@, "ctrl+l"@]),
        action_spec(after(s, ran_ok(a))) == xdotool_call(s, seq!["type"@, url]),
        action_spec(after(after(s, ran_ok(a)), ran_ok(b))) == xdotool_call(
            s,
            seq!["key"@, "Return"@],
        ),
        action_spec(after(after(after(s, ran_ok(a)), ran_ok(b)), ran_ok(c))) == ActionView::Finish(
            Ok(()),
        ),
{
}

/// A pointer command moves the pointer to its coordinates and acts there in
/// one xdotool call on the display, then succeeds: `click` clicks, `down`
/// presses and `up` releases the first button, `move` only moves.
pub proof fn law_pointer_calls(s: SessionView, x: u32, y: u32, a: Seq<char>)
    requires
        s.stage == Stage::Input(0),
        s.command is Click || s.command is Move || s.command is Down || s.command is Up,
        is_pointer_at(s.command, x, y),
    ensures
        s.command is Click ==> action_spec(s) == xdotool_call(
            s,
            seq!["mousemove"@, decimal(x as nat), decimal(y as nat), "click"@, "1"@],
        ),
        s.command is Move ==> action_spec(s) == xdotool_call(
            s,
            seq!["mousemove"@, decimal(x as nat), decimal(y as nat)],
        ),
        s.command is Down ==> action_spec(s) == xdotool_call(
            s,
            seq!["mousemove"@, decimal(x as nat), decimal(y as nat), "mousedown"@, "1"@],
        ),
        s.command is Up ==> action_spec(s) == xdotool_call(
            s,
            seq!["mousemove"@, decimal(x as nat), decimal(y as nat), "mouseup"@, "1"@],
        ),
        action_spec(after(s, ran_ok(a))) == ActionView::Finish(Ok(())),
{
}

pub open spec fn is_pointer_at(cmd: CommandView, x: u32, y: u32) -> bool {
    pointer_xy(cmd) == (x, y)
}

/// How the status report words a process that has a pid file.
pub open spec fn state_word(alive: bool) -> Seq<char> {
    if alive {
        "running pid="@
    } else {
        "stale pid="@
    }
}

/// The status command reads both pid files, asks whether each pid lives, and
/// prints the state directory, the display, then for Xvfb and for Chromium
/// `running pid=P` when its probe succeeded and `stale pid=P` when it did not;
/// then it succeeds.
pub proof fn law_status_report(
    s: SessionView,
    x: u32,
    c: u32,
    xvfb_alive: bool,
    chromium_alive: bool,
    t1: Seq<char>,
    t2: Seq<char>,
)
    requires
        s.command is Status,
        s.stage == Stage::Probing(Probe::ReadXvfb),
    ensures
        ({
            let s1 = after(s, EventView::Text(pid_file_spec(x)));
            let s2 = after(s1, EventView::Text(pid_file_spec(c)));
            let s3 = after(s2, EventView::Exited { success: xvfb_alive, status: t1 });
            let s4 = after(s3, EventView::Exited { success: chromium_alive, status: t2 });
            let s5 = after(s4, EventView::Done);
            let s6 = after(s5, EventView::Done);
            let s7 = after(s6, EventView::Done);
            let s8 = after(s7, EventView::Done);
            &&& action_spec(s2) == ActionView::Run(kill_spec(seq!["-0"@, decimal(x as nat)]))
            &&& action_spec(s3) == ActionView::Run(kill_spec(seq!["-0"@, decimal(c as nat)]))
            &&& action_spec(s4) == ActionView::Print("state_dir="@ + s.config.state_dir)
            &&& action_spec(s5) == ActionView::Print("display="@ + s.config.display)
            &&& action_spec(s6) == ActionView::Print(
                "xvfb="@ + state_word(xvfb_alive) + decimal(x as nat),
            )
            &&& action_spec(s7) == ActionView::Print(
                "chromium="@ + state_word(chromium_alive) + decimal(c as nat),
            )
            &&& action_spec(s8) == ActionView::Finish(Ok(()))
        }),
{
    lemma_pid_file_round_trip(tracked_path(s.config, Helper::Xvfb), x);
    lemma_pid_file_round_trip(tracked_path(s.config, Helper::Chromium), c);
    let s1 = after(s, EventView::Text(pid_file_spec(x)));
    assert(s1.stage == Stage::Probing(Probe::ReadChromium(Some(x))));
    let s2 = after(s1, EventView::Text(pid_file_spec(c)));
    assert(s2.stage == Stage::Probing(Probe::AliveXvfb(x, Some(c))));
    let s3 = after(s2, EventView::Exited { success: xvfb_alive, status: t1 });
    assert(s3.stage == Stage::Probing(Probe::AliveChromium(Some(x), xvfb_alive, c)));
    let st = crate::process::ProcessStatus {
        xvfb_pid: Some(x),
        xvfb_alive,
        chromium_pid: Some(c),
        chromium_alive,
    };
    let s4 = after(s3, EventView::Exited { success: chromium_alive, status: t2 });
    assert(s4.stage == Stage::Report(0, st));
    let s5 = after(s4, EventView::Done);
    assert(s5.stage == Stage::Report(1, st));
    let s6 = after(s5, EventView::Done);
    assert(s6.stage == Stage::Report(2, st));
    let s7 = after(s6, EventView::Done);
    assert(s7.stage == Stage::Report(3, st));
    assert(s7.config == s.config);
    assert("xvfb="@ + (state_word(xvfb_alive) + decimal(x as nat)) =~= "xvfb="@ + state_word(
        xvfb_alive,
    ) + decimal(x as nat));
    assert("chromium="@ + (state_word(chromium_alive) + decimal(c as nat)) =~= "chromium="@
        + state_word(chromium_alive) + decimal(c as nat));
}

/// Without pid files, the status command reports both processes as stopped.
pub proof fn law_status_without_pid_files(s: SessionView)
    requires
        s.command is Status,
        s.stage == Stage::Probing(Probe::ReadXvfb),
    ensures
        ({
            let s1 = after(s, EventView::Missing);
            let s2 = after(s1, EventView::Missing);
            let s4 = after(after(s2, EventView::Done), EventView::Done);
            &&& action_spec(s4) == ActionView::Print("xvfb="@ + "stopped"@)
            &&& action_spec(after(s4, EventView::Done)) == ActionView::Print(
                "chromium="@ + "stopped"@,
            )
        }),
{
}

/// Every setting the configuration holds comes from its own variable: a text
/// setting is the variable's trimmed value, or its default where that is
/// blank or unset; a number is what the variable writes, or its default.
/// Runtime files and the browser profile live in the state directory, which
/// is `BRAUSI_STATE_DIR` where set and `.brausi` in the home directory
/// otherwise.
pub proof fn law_config_from_settings(env: EnvView)
    requires
        config_spec(env) is Ok,
    ensures
        ({
            let c = config_spec(env)->Ok_0;
            &&& c.state_dir == match setting(env, "BRAUSI_STATE_DIR"@) {
                Some(d) => d,
                None => match lookup(env.vars, "HOME"@) {
                    Some(h) => path_join(h, ".brausi"@),
                    None => path_join("."@, ".brausi"@),
                },
            }
            &&& c.run_dir == path_join(c.state_dir, "run"@)
            &&& c.profile_dir == path_join(c.state_dir, "profile"@)
            &&& c.capture_path == path_join(path_join(c.state_dir, "run"@), "live.png"@)
            &&& c.display == match setting(env, "BRAUSI_DISPLAY"@) {
                Some(d) => d,
                None => ":99"@,
            }
            &&& match setting(env, "BRAUSI_WIDTH"@) {
                Some(t) => parse_unsigned(t, u32::MAX as nat) == Ok::<nat, IntErrorKind>(
                    c.width as nat,
                ),
                None => c.width == 1024,
            }
            &&& match setting(env, "BRAUSI_HEIGHT"@) {
                Some(t) => parse_unsigned(t, u32::MAX as nat) == Ok::<nat, IntErrorKind>(
                    c.height as nat,
                ),
                None => c.height == 768,
            }
            &&& match setting(env, "BRAUSI_DEPTH"@) {
                Some(t) => parse_unsigned(t, u32::MAX as nat) == Ok::<nat, IntErrorKind>(
                    c.depth as nat,
                ),
                None => c.depth == 24,
            }
            &&& match setting(env, "BRAUSI_VIEW_INTERVAL_MS"@) {
                Some(t) => parse_unsigned(t, u64::MAX as nat) == Ok::<nat, IntErrorKind>(
                    c.view_interval_ms as nat,
                ),
                None => c.view_interval_ms == 200,
            }
            &&& match setting(env, "BRAUSI_START_WAIT_MS"@) {
                Some(t) => parse_unsigned(t, u64::MAX as nat) == Ok::<nat, IntErrorKind>(
                    c.start_wait_ms as nat,
                ),
                None => c.start_wait_ms == 12000,
            }
            &&& c.xvfb_bin == match setting(env, "BRAUSI_XVFB"@) {
                Some(b) => b,
                None => "Xvfb"@,
            }
            &&& c.chromium_bin == match setting(env, "BRAUSI_CHROMIUM"@) {
                Some(b) => b,
                None => if env.macos {
                    "/Applications/Chromium.app/Contents/MacOS/Chromium"@
                } else {
                    "chromium"@
                },
            }
            &&& c.scrot_bin == match setting(env, "BRAUSI_SCROT"@) {
                Some(b) => b,
                None => "scrot"@,
            }
            &&& c.chafa_bin == match setting(env, "BRAUSI_CHAFA"@) {
                Some(b) => b,
                None => "chafa"@,
            }
            &&& c.xdotool_bin == match setting(env, "BRAUSI_XDOTOOL"@) {
                Some(b) => b,
                None => "xdotool"@,
            }
        }),
{
    match setting(env, "BRAUSI_WIDTH"@) {
        Some(t) => crate::text::lemma_parse_bound(t, u32::MAX as nat),
        None => {},
    }
    match setting(env, "BRAUSI_HEIGHT"@) {
        Some(t) => crate::text::lemma_parse_bound(t, u32::MAX as nat),
        None => {},
    }
    match setting(env, "BRAUSI_DEPTH"@) {
        Some(t) => crate::text::lemma_parse_bound(t, u32::MAX as nat),
        None => {},
    }
    match setting(env, "BRAUSI_VIEW_INTERVAL_MS"@) {
        Some(t) => crate::text::lemma_parse_bound(t, u64::MAX as nat),
        None => {},
    }
    match setting(env, "BRAUSI_START_WAIT_MS"@) {
        Some(t) => crate::text::lemma_parse_bound(t, u64::MAX as nat),
        None => {},
    }
}

/// The start command launches Xvfb with a screen of the configured width,
/// height and depth on the configured display, and Chromium on that display in
/// kiosk mode with a window of the same width and height, its profile in the
/// profile directory, and the page to open last unless it is blank.
pub proof fn law_start_launches_matching_sizes(s: SessionView, url: Option<Seq<char>>)
    requires
        s.command == (CommandView::Start { url }),
    ensures
        s.stage is SpawnXvfb ==> action_spec(s) == ActionView::Spawn(
            InvocationView {
                program: s.config.xvfb_bin,
                args: seq![
                    s.config.display,
                    "-screen"@,
                    "0"@,
                    decimal(s.config.width as nat) + "x"@ + decimal(s.config.height as nat) + "x"@
                        + decimal(s.config.depth as nat),
                ],
                display: None,
            },
        ),
        s.stage is SpawnChromium ==> action_spec(s) == ActionView::Spawn(
            chromium_spec(s.config, url),
        ),
        ({
            let i = chromium_spec(s.config, url);
            let blank = match url {
                Some(u) => trimmed(u).len() == 0,
                None => true,
            };
            &&& i.program == s.config.chromium_bin
            &&& i.display == Some(s.config.display)
            &&& i.args.len() == if blank {
                11nat
            } else {
                12nat
            }
            &&& i.args.subrange(0, 9) == seq![
                "--kiosk"@,
                "--no-first-run"@,
                "--disable-gpu"@,
                "--no-sandbox"@,
                "--disable-dev-shm-usage"@,
                "--mute-audio"@,
                "--disable-software-rasterizer"@,
                "--disable-gpu-sandbox"@,
                "--use-gl=swiftshader"@,
            ]
            &&& i.args[9] == "--window-size="@ + decimal(s.config.width as nat) + ","@ + decimal(
                s.config.height as nat,
            )
            &&& i.args[10] == "--user-data-dir="@ + s.config.profile_dir
            &&& !blank ==> i.args[11] == url->Some_0
        }),
{
    let i = chromium_spec(s.config, url);
    assert(i.args.subrange(0, 9) =~= seq![
        "--kiosk"@,
        "--no-first-run"@,
        "--disable-gpu"@,
        "--no-sandbox"@,
        "--disable-dev-shm-usage"@,
        "--mute-audio"@,
        "--disable-software-rasterizer"@,
        "--disable-gpu-sandbox"@,
        "--use-gl=swiftshader"@,
    ]);
}

/// A pointer command needs exactly two operands, each a `u32`; otherwise the
/// command line is refused with the usage, or with the operand that is no
/// coordinate.
pub proof fn law_pointer_errors(a: Seq<char>, b: Seq<char>, extra: Seq<char>)
    ensures
        parse_spec(seq!["click"@, a]) == Err::<CommandView, Seq<char>>(
            "usage: brausi "@ + "click"@ + " <x> <y>"@,
        ),
        parse_spec(seq!["up"@, a, b, extra]) == Err::<CommandView, Seq<char>>(
            "usage: brausi "@ + "up"@ + " <x> <y>"@,
        ),
        parse_unsigned(a, u32::MAX as nat) is Err ==> parse_spec(seq!["move"@, a, b]) == Err::<
            CommandView,
            Seq<char>,
        >("invalid x coordinate `"@ + a + "`"@),
        parse_unsigned(a, u32::MAX as nat) is Ok && parse_unsigned(b, u32::MAX as nat) is Err
            ==> parse_spec(seq!["down"@, a, b]) == Err::<CommandView, Seq<char>>(
            "invalid y coordinate `"@ + b + "`"@,
        ),
{

    reveal_strlit("start");
    reveal_strlit("view");
    reveal_strlit("click");
    reveal_strlit("move");
    reveal_strlit("down");
    reveal_strlit("mousedown");
    reveal_strlit("up");
    reveal_strlit("mouseup");
    reveal_strlit("type");
    reveal_strlit("go");
    reveal_strlit("back");
    reveal_strlit("forward");
    reveal_strlit("reload");
    reveal_strlit("stop");
    reveal_strlit("status");
    reveal_strlit("help");
    reveal_strlit("-h");
    reveal_strlit("--help");
    assert("click"@[0] != "start"@[0]);
    assert("move"@[0] != "view"@[0]);
}

/// A word longer than every command word names no command; it is refused,
/// naming the word.
pub proof fn law_unknown_word(w: Seq<char>, rest: Seq<Seq<char>>)
    requires
        w.len() > 9,
    ensures
        parse_spec(seq![w] + rest) == Err::<CommandView, Seq<char>>(
            "unknown command `"@ + w + "`"@,
        ),
{

    reveal_strlit("start");
    reveal_strlit("view");
    reveal_strlit("click");
    reveal_strlit("move");
    reveal_strlit("down");
    reveal_strlit("mousedown");
    reveal_strlit("up");
    reveal_strlit("mouseup");
    reveal_strlit("type");
    reveal_strlit("go");
    reveal_strlit("back");
    reveal_strlit("forward");
    reveal_strlit("reload");
    reveal_strlit("stop");
    reveal_strlit("status");
    reveal_strlit("help");
    reveal_strlit("-h");
    reveal_strlit("--help");
    assert((seq![w] + rest)[0] == w);
}

/// Input and the viewer are refused, with the advice to start the browser,
/// when the survey finds Xvfb or Chromium not alive.
pub proof fn law_not_running_refused(s: SessionView, xp: Option<u32>, xa: bool, c: u32, e: EventView)
    requires
        is_input(s.command) || s.command is View,
        s.stage == Stage::Probing(Probe::AliveChromium(xp, xa, c)),
        !xa || !succeeded(e),
    ensures
        after(s, e).stage == Stage::Failed,
        action_spec(after(s, e)) == ActionView::Finish(
            Err("browser is not running; use `brausi start [url]` first"@),
        ),
{
}

/// The start command, when every step succeeds: it makes the run and profile
/// directories, stops what it tracked before (here: no pid files), launches
/// Xvfb and records its pid, waits 750 ms, launches Chromium and records its
/// pid, waits the configured start time, prints what it started, and succeeds.
pub proof fn law_start_sequence(s: SessionView, url: Option<Seq<char>>, x: u32, c: u32)
    requires
        s.command == (CommandView::Start { url }),
        s.stage == Stage::MakeRunDir,
    ensures
        ({
            let s1 = after(s, EventView::Done);
            let s2 = after(s1, EventView::Done);
            let s3 = after(s2, EventView::Missing);
            let s4 = after(s3, EventView::Done);
            let s5 = after(s4, EventView::Missing);
            let s6 = after(s5, EventView::Done);
            let s7 = after(s6, EventView::Started(x));
            let s8 = after(s7, EventView::Done);
            let s9 = after(s8, EventView::Done);
            let s10 = after(s9, EventView::Started(c));
            let s11 = after(s10, EventView::Done);
            let s12 = after(s11, EventView::Done);
            let s13 = after(s12, EventView::Done);
            let s14 = after(s13, EventView::Done);
            let s15 = after(s14, EventView::Done);
            let s16 = after(s15, EventView::Done);
            &&& action_spec(s) == ActionView::MakeDir(s.config.run_dir)
            &&& action_spec(s1) == ActionView::MakeDir(s.config.profile_dir)
            &&& action_spec(s2) == ActionView::ReadFile(tracked_path(s.config, Helper::Chromium))
            &&& action_spec(s3) == ActionView::RemoveFile(tracked_path(s.config, Helper::Chromium))
            &&& action_spec(s4) == ActionView::ReadFile(tracked_path(s.config, Helper::Xvfb))
            &&& action_spec(s5) == ActionView::RemoveFile(tracked_path(s.config, Helper::Xvfb))
            &&& action_spec(s6) == ActionView::Spawn(xvfb_spec(s.config))
            &&& action_spec(s7) == (ActionView::WriteFile {
                path: tracked_path(s.config, Helper::Xvfb),
                contents: decimal(x as nat) + "\n"@,
            })
            &&& action_spec(s8) == ActionView::Sleep(750)
            &&& action_spec(s9) == ActionView::Spawn(chromium_spec(s.config, url))
            &&& action_spec(s10) == (ActionView::WriteFile {
                path: tracked_path(s.config, Helper::Chromium),
                contents: decimal(c as nat) + "\n"@,
            })
            &&& action_spec(s11) == ActionView::Sleep(s.config.start_wait_ms)
            &&& action_spec(s12) == ActionView::Print("started"@)
            &&& action_spec(s13) == ActionView::Print("display="@ + s.config.display)
            &&& action_spec(s14) == ActionView::Print(
                "size="@ + decimal(s.config.width as nat) + "x"@ + decimal(s.config.height as nat),
            )
            &&& action_spec(s15) == ActionView::Print("state="@ + s.config.state_dir)
            &&& action_spec(s16) == ActionView::Finish(Ok(()))
        }),
{
    let s1 = after(s, EventView::Done);
    let s2 = after(s1, EventView::Done);
    assert(s2.stage == Stage::Halting(Helper::Chromium, Halt::Read, AfterHalt::Launch));
    let s3 = after(s2, EventView::Missing);
    assert(s3.stage == Stage::Halting(Helper::Chromium, Halt::Remove, AfterHalt::Launch));
    let s4 = after(s3, EventView::Done);
    let s5 = after(s4, EventView::Missing);
    let s6 = after(s5, EventView::Done);
    assert(s6.stage == Stage::SpawnXvfb);
    let s7 = after(s6, EventView::Started(x));
    let s8 = after(s7, EventView::Done);
    let s9 = after(s8, EventView::Done);
    assert(s9.stage == Stage::SpawnChromium);
    let s10 = after(s9, EventView::Started(c));
    let s11 = after(s10, EventView::Done);
    let s12 = after(s11, EventView::Done);
    assert(s12.stage == Stage::Announce(0));
    let s13 = after(s12, EventView::Done);
    let s14 = after(s13, EventView::Done);
    let s15 = after(s14, EventView::Done);
    assert(s15.stage == Stage::Announce(3));
    assert(s15.config == s.config);
}

/// The viewer repeats forever: capture the display with scrot, and where the
/// capture file exists, clear the terminal, draw the file with chafa and flush;
/// then wait the view interval and capture again.
pub proof fn law_view_loop(s: SessionView, a: Seq<char>, b: Seq<char>)
    requires
        s.command is View,
        s.stage == Stage::Capture,
    ensures
        ({
            let s1 = after(s, ran_ok(a));
            let s2 = after(s1, EventView::Flag(true));
            let s3 = after(s2, EventView::Done);
            let s4 = after(s3, ran_ok(b));
            let s5 = after(s4, EventView::Done);
            let s6 = after(s5, EventView::Done);
            &&& action_spec(s) == ActionView::Run(
                InvocationView {
                    program: s.config.scrot_bin,
                    args: seq!["-o"@, s.config.capture_path],
                    display: Some(s.config.display),
                },
            )
            &&& action_spec(s1) == ActionView::IsFile(s.config.capture_path)
            &&& action_spec(s2) == ActionView::ClearScreen
            &&& action_spec(s3) is Run && action_spec(s3)->Run_0.program == s.config.chafa_bin
            &&& action_spec(s3)->Run_0.args.last() == s.config.capture_path
            &&& action_spec(s4) == ActionView::Flush
            &&& action_spec(s5) == ActionView::Sleep(s.config.view_interval_ms)
            &&& s6 == s
            &&& after(s1, EventView::Flag(false)).stage == Stage::Rest
        }),
{
}

/// The render area is the one that both render settings force as positive
/// numbers; failing that, the terminal's columns and lines where both are
/// positive numbers; failing that, 80 by 24.
pub proof fn law_render_area(env: EnvView, c: nat, l: nat, tc: nat, tl: nat)
    ensures
        setting(env, "BRAUSI_RENDER_COLS"@) matches Some(t) && parse_unsigned(t, u32::MAX as nat)
            == Ok::<nat, IntErrorKind>(c) && c > 0 ==> (setting(env, "BRAUSI_RENDER_LINES"@) matches Some(
            u,
        ) && parse_unsigned(u, u32::MAX as nat) == Ok::<nat, IntErrorKind>(l) && l > 0
            ==> crate::commands::terminal_size_spec(env) == decimal(c) + "x"@ + decimal(l)),
        setting(env, "BRAUSI_RENDER_COLS"@) is None && setting(env, "BRAUSI_RENDER_LINES"@) is None
            ==> (setting(env, "COLUMNS"@) matches Some(t) && parse_unsigned(t, u32::MAX as nat)
            == Ok::<nat, IntErrorKind>(tc) && tc > 0 ==> (setting(env, "LINES"@) matches Some(u)
            && parse_unsigned(u, u32::MAX as nat) == Ok::<nat, IntErrorKind>(tl) && tl > 0
            ==> crate::commands::terminal_size_spec(env) == decimal(tc) + "x"@ + decimal(tl))),
        setting(env, "BRAUSI_RENDER_COLS"@) is None && setting(env, "COLUMNS"@) is None
            ==> crate::commands::terminal_size_spec(env) == "80x24"@,
{
}

} // verus!
