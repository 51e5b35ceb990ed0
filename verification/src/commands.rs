//! The helper programs: how each is called, and the messages that say how a
//! call failed.

use vstd::prelude::*;

use crate::cli::{pointer_view, CliCommand, CommandView, PointerAction};
use crate::config::{read_env, setting, Config, ConfigView, EnvView, Environment};
use crate::text::{concat2, decimal, decimal_text, parse_u32, parse_unsigned, texts, trim,
    trimmed};

verus! {

/// A call of a helper program: the program, its arguments, and the X display
/// it is given through `DISPLAY`, if any.
#[derive(Debug, PartialEq, Eq)]
pub struct Invocation {
    pub program: String,
    pub args: Vec<String>,
    pub display: Option<String>,
}

pub struct InvocationView {
    pub program: Seq<char>,
    pub args: Seq<Seq<char>>,
    pub display: Option<Seq<char>>,
}

impl View for Invocation {
    type V = InvocationView;

    open spec fn view(&self) -> InvocationView {
        InvocationView {
            program: self.program@,
            args: texts(self.args@),
            display: match &self.display {
                Some(d) => Some(d@),
                None => None,
            },
        }
    }
}

/// Xvfb serving the display with one screen of the configured size.
pub open spec fn xvfb_spec(cfg: ConfigView) -> InvocationView {
    InvocationView {
        program: cfg.xvfb_bin,
        args: seq![
            cfg.display,
            "-screen"@,
            "0"@,
            decimal(cfg.width as nat) + "x"@ + decimal(cfg.height as nat) + "x"@ + decimal(
                cfg.depth as nat,
            ),
        ],
        display: None,
    }
}

/// The switches Chromium always gets.
pub open spec fn chromium_flags() -> Seq<Seq<char>> {
    seq![
        "--kiosk"@,
        "--no-first-run"@,
        "--disable-gpu"@,
        "--no-sandbox"@,
        "--disable-dev-shm-usage"@,
        "--mute-audio"@,
        "--disable-software-rasterizer"@,
        "--disable-gpu-sandbox"@,
        "--use-gl=swiftshader"@,
    ]
}

/// Chromium in kiosk mode on the display, sized to the framebuffer, with its
/// profile in the profile directory, opening `url` unless it is blank.
pub open spec fn chromium_spec(cfg: ConfigView, url: Option<Seq<char>>) -> InvocationView {
    let base = chromium_flags() + seq![
        "--window-size="@ + decimal(cfg.width as nat) + ","@ + decimal(cfg.height as nat),
        "--user-data-dir="@ + cfg.profile_dir,
    ];
    InvocationView {
        program: cfg.chromium_bin,
        args: match url {
            Some(u) => if trimmed(u).len() > 0 {
                base.push(u)
            } else {
                base
            },
            None => base,
        },
        display: Some(cfg.display),
    }
}

/// The xdotool arguments of each call that an input command makes, in order.
pub open spec fn input_steps(cmd: CommandView) -> Seq<Seq<Seq<char>>> {
    match cmd {
        CommandView::Click { x, y } => seq![
            seq!["mousemove"@, decimal(x as nat), decimal(y as nat), "click"@, "1"@],
        ],
        CommandView::Move { x, y } => seq![seq!["mousemove"@, decimal(x as nat), decimal(y as nat)]],
        CommandView::Down { x, y } => seq![
            seq!["mousemove"@, decimal(x as nat), decimal(y as nat), "mousedown"@, "1"@],
        ],
        CommandView::Up { x, y } => seq![
            seq!["mousemove"@, decimal(x as nat), decimal(y as nat), "mouseup"@, "1"@],
        ],
        CommandView::Type { text } => seq![seq!["type"@, text]],
        CommandView::Go { url } => seq![
            seq!["key"@, "ctrl+l"@],
            seq!["type"@, url],
            seq!["key"@, "Return"@],
        ],
        CommandView::Back => seq![seq!["key"@, "Alt+Left"@]],
        CommandView::Forward => seq![seq!["key"@, "Alt+Right"@]],
        CommandView::Reload => seq![seq!["key"@, "ctrl+r"@]],
        _ => seq![],
    }
}

/// Whether a command sends input to the browser through xdotool.
pub open spec fn is_input(cmd: CommandView) -> bool {
    input_steps(cmd).len() > 0
}

/// The `i`-th xdotool call of an input command, on the display.
pub open spec fn input_spec(cfg: ConfigView, cmd: CommandView, i: int) -> InvocationView {
    InvocationView { program: cfg.xdotool_bin, args: input_steps(cmd)[i], display: Some(cfg.display) }
}

/// scrot writing a screenshot of the display to the capture file.
pub open spec fn capture_spec(cfg: ConfigView) -> InvocationView {
    InvocationView {
        program: cfg.scrot_bin,
        args: seq!["-o"@, cfg.capture_path],
        display: Some(cfg.display),
    }
}

/// A positive size that the setting `name` writes in decimal, if it does.
pub open spec fn size_spec(env: EnvView, name: Seq<char>) -> Option<nat> {
    match setting(env, name) {
        Some(t) => match parse_unsigned(t, u32::MAX as nat) {
            Ok(v) => if v > 0 {
                Some(v)
            } else {
                None
            },
            Err(_) => None,
        },
        None => None,
    }
}

/// The area `cols` by `lines` where both settings give a positive size.
pub open spec fn area_spec(env: EnvView, cols: Seq<char>, lines: Seq<char>) -> Option<
    Seq<char>,
> {
    match (size_spec(env, cols), size_spec(env, lines)) {
        (Some(c), Some(l)) => Some(decimal(c) + "x"@ + decimal(l)),
        _ => None,
    }
}

/// The render area: the one that `BRAUSI_RENDER_COLS` and
/// `BRAUSI_RENDER_LINES` force where both give a positive size (`auto`, or
/// leaving them unset, does not force one); otherwise the terminal's columns
/// and lines where both are set and positive; otherwise 80 by 24.
pub open spec fn terminal_size_spec(env: EnvView) -> Seq<char> {
    match area_spec(env, "BRAUSI_RENDER_COLS"@, "BRAUSI_RENDER_LINES"@) {
        Some(a) => a,
        None => match area_spec(env, "COLUMNS"@, "LINES"@) {
            Some(a) => a,
            None => "80x24"@,
        },
    }
}

/// chafa drawing the capture file into the terminal with blocks of colour.
pub open spec fn render_spec(cfg: ConfigView, env: EnvView) -> InvocationView {
    InvocationView {
        program: cfg.chafa_bin,
        args: seq![
            "--symbols=space"@,
            "--color-space=din99d"@,
            "--size"@,
            terminal_size_spec(env),
            cfg.capture_path,
        ],
        display: None,
    }
}

/// `kill` with the given arguments.
pub open spec fn kill_spec(args: Seq<Seq<char>>) -> InvocationView {
    InvocationView { program: "kill"@, args, display: None }
}

fn text(s: &str) -> (r: String)
    ensures
        r@ == s@,
{
    String::from_str(s)
}

/// Xvfb serving the display.
pub fn xvfb_invocation(config: &Config) -> (r: Invocation)
    ensures
        r@ == xvfb_spec(config@),
{
    let mut args: Vec<String> = Vec::new();
    args.push(config.display.clone());
    args.push(text("-screen"));
    args.push(text("0"));
    args.push(config.screen_arg());
    let r = Invocation { program: config.xvfb_bin.clone(), args, display: None };
    assert(r@.args =~= xvfb_spec(config@).args);
    r
}

/// Chromium on the display, opening `url` unless it is blank.
pub fn chromium_invocation(config: &Config, url: Option<&str>) -> (r: Invocation)
    ensures
        r@ == chromium_spec(
            config@,
            match url {
                Some(u) => Some(u@),
                None => None,
            },
        ),
{
    let mut args: Vec<String> = Vec::new();
    args.push(text("--kiosk"));
    args.push(text("--no-first-run"));
    args.push(text("--disable-gpu"));
    args.push(text("--no-sandbox"));
    args.push(text("--disable-dev-shm-usage"));
    args.push(text("--mute-audio"));
    args.push(text("--disable-software-rasterizer"));
    args.push(text("--disable-gpu-sandbox"));
    args.push(text("--use-gl=swiftshader"));
    let mut size: String = text("--window-size=");
    let w: String = decimal_text(config.width);
    size.append(w.as_str());
    size.append(",");
    let h: String = decimal_text(config.height);
    size.append(h.as_str());
    args.push(size);
    args.push(concat2("--user-data-dir=", config.profile_dir.as_str()));
    let ghost base: Seq<Seq<char>> = texts(args@);
    assert(base =~= chromium_flags() + seq![
        "--window-size="@ + decimal(config.width as nat) + ","@ + decimal(config.height as nat),
        "--user-data-dir="@ + config.profile_dir@,
    ]);
    match url {
        Some(u) => {
            if trim(u).unicode_len() > 0 {
                args.push(text(u));
                assert(texts(args@) =~= base.push(u@));
            }
        },
        None => {},
    }
    Invocation {
        program: config.chromium_bin.clone(),
        args,
        display: Some(config.display.clone()),
    }
}

/// The xdotool arguments that move the pointer to `(x, y)` and act there.
pub fn pointer_command(x: u32, y: u32, action: PointerAction) -> (r: Vec<String>)
    ensures
        texts(r@) == input_steps(pointer_view(action, x, y))[0],
{
    let mut args: Vec<String> = Vec::new();
    args.push(text("mousemove"));
    args.push(decimal_text(x));
    args.push(decimal_text(y));
    match action {
        PointerAction::Click => {
            args.push(text("click"));
            args.push(text("1"));
        },
        PointerAction::Move => {},
        PointerAction::Down => {
            args.push(text("mousedown"));
            args.push(text("1"));
        },
        PointerAction::Up => {
            args.push(text("mouseup"));
            args.push(text("1"));
        },
    }
    assert(texts(args@) =~= input_steps(pointer_view(action, x, y))[0]);
    args
}

fn pair(a: &str, b: &str) -> (r: Vec<String>)
    ensures
        texts(r@) == seq![a@, b@],
{
    let mut args: Vec<String> = Vec::new();
    args.push(text(a));
    args.push(text(b));
    assert(texts(args@) =~= seq![a@, b@]);
    args
}

/// The xdotool arguments that type `t` into the focused element.
pub fn type_text(t: &str) -> (r: Vec<String>)
    ensures
        texts(r@) == seq!["type"@, t@],
{
    pair("type", t)
}

/// The xdotool arguments that press the key combination `name`.
pub fn key(name: &str) -> (r: Vec<String>)
    ensures
        texts(r@) == seq!["key"@, name@],
{
    pair("key", name)
}

/// The xdotool arguments of the `i`-th of the three calls that open `url`:
/// focus the address bar, type the address, press Return.
pub fn go_url(url: &str, i: usize) -> (r: Vec<String>)
    requires
        i < 3,
    ensures
        texts(r@) == input_steps(CommandView::Go { url: url@ })[i as int],
{
    if i == 0 {
        key("ctrl+l")
    } else if i == 1 {
        type_text(url)
    } else {
        key("Return")
    }
}

/// The xdotool arguments of the `i`-th call that an input command makes.
pub fn input_args(cmd: &CliCommand, i: usize) -> (r: Vec<String>)
    requires
        i < input_steps(cmd@).len(),
    ensures
        texts(r@) == input_steps(cmd@)[i as int],
{
    match cmd {
        CliCommand::Click { x, y } => pointer_command(*x, *y, PointerAction::Click),
        CliCommand::Move { x, y } => pointer_command(*x, *y, PointerAction::Move),
        CliCommand::Down { x, y } => pointer_command(*x, *y, PointerAction::Down),
        CliCommand::Up { x, y } => pointer_command(*x, *y, PointerAction::Up),
        CliCommand::Type { text: t } => type_text(t.as_str()),
        CliCommand::Go { url } => go_url(url.as_str(), i),
        CliCommand::Back => key("Alt+Left"),
        CliCommand::Forward => key("Alt+Right"),
        _ => key("ctrl+r"),
    }
}

/// How many xdotool calls a command makes.
pub fn input_count(cmd: &CliCommand) -> (r: usize)
    ensures
        r == input_steps(cmd@).len(),
{
    match cmd {
        CliCommand::Click { .. } | CliCommand::Move { .. } | CliCommand::Down { .. }
        | CliCommand::Up { .. } | CliCommand::Type { .. } | CliCommand::Back
        | CliCommand::Forward | CliCommand::Reload => 1,
        CliCommand::Go { .. } => 3,
        _ => 0,
    }
}

/// The `i`-th xdotool call of an input command.
pub fn input_invocation(config: &Config, cmd: &CliCommand, i: usize) -> (r: Invocation)
    requires
        i < input_steps(cmd@).len(),
    ensures
        r@ == input_spec(config@, cmd@, i as int),
{
    Invocation {
        program: config.xdotool_bin.clone(),
        args: input_args(cmd, i),
        display: Some(config.display.clone()),
    }
}

/// scrot capturing the display.
pub fn capture(config: &Config) -> (r: Invocation)
    ensures
        r@ == capture_spec(config@),
{
    let mut args: Vec<String> = Vec::new();
    args.push(text("-o"));
    args.push(config.capture_path.clone());
    let r = Invocation {
        program: config.scrot_bin.clone(),
        args,
        display: Some(config.display.clone()),
    };
    assert(r@.args =~= capture_spec(config@).args);
    r
}

fn size_setting(env: &Environment, name: &str) -> (r: Option<u32>)
    ensures
        match size_spec(env@, name@) {
            Some(v) => r matches Some(x) && x as nat == v,
            None => r is None,
        },
{
    proof {
        match setting(env@, name@) {
            Some(t) => crate::text::lemma_parse_bound(t, u32::MAX as nat),
            None => {},
        }
    }
    match read_env(env, name) {
        Some(t) => match parse_u32(t.as_str()) {
            Ok(v) => {
                if v > 0 {
                    Some(v)
                } else {
                    None
                }
            },
            Err(_) => None,
        },
        None => None,
    }
}

fn area(env: &Environment, cols: &str, lines: &str) -> (r: Option<String>)
    ensures
        match area_spec(env@, cols@, lines@) {
            Some(a) => r matches Some(x) && x@ == a,
            None => r is None,
        },
{
    match (size_setting(env, cols), size_setting(env, lines)) {
        (Some(c), Some(l)) => {
            let mut r: String = decimal_text(c);
            r.append("x");
            let ls: String = decimal_text(l);
            r.append(ls.as_str());
            Some(r)
        },
        _ => None,
    }
}

/// The render area, columns by lines.
pub fn terminal_size(env: &Environment) -> (r: String)
    ensures
        r@ == terminal_size_spec(env@),
{
    match area(env, "BRAUSI_RENDER_COLS", "BRAUSI_RENDER_LINES") {
        Some(a) => a,
        None => match area(env, "COLUMNS", "LINES") {
            Some(a) => a,
            None => text("80x24"),
        },
    }
}

/// chafa drawing the capture file.
pub fn render_invocation(config: &Config, env: &Environment) -> (r: Invocation)
    ensures
        r@ == render_spec(config@, env@),
{
    let mut args: Vec<String> = Vec::new();
    args.push(text("--symbols=space"));
    args.push(text("--color-space=din99d"));
    args.push(text("--size"));
    args.push(terminal_size(env));
    args.push(config.capture_path.clone());
    let r = Invocation { program: config.chafa_bin.clone(), args, display: None };
    assert(r@.args =~= render_spec(config@, env@).args);
    r
}

/// `kill` with an optional signal switch before the pid.
pub fn kill_invocation(signal: Option<&str>, pid: u32) -> (r: Invocation)
    ensures
        r@ == kill_spec(
            match signal {
                Some(s) => seq![s@, decimal(pid as nat)],
                None => seq![decimal(pid as nat)],
            },
        ),
{
    let mut args: Vec<String> = Vec::new();
    match signal {
        Some(s) => {
            args.push(text(s));
        },
        None => {},
    }
    args.push(decimal_text(pid));
    let r = Invocation { program: text("kill"), args, display: None };
    assert(r@.args =~= kill_spec(
        match signal {
            Some(s) => seq![s@, decimal(pid as nat)],
            None => seq![decimal(pid as nat)],
        },
    ).args);
    r
}

/// The message for a helper program that could not be started.
pub fn start_failure(label: &str, program: &str, error: &str) -> (r: String)
    ensures
        r@ == "failed to start "@ + label@ + " (`"@ + program@ + "`): "@ + error@,
{
    let mut r: String = text("failed to start ");
    r.append(label);
    r.append(" (`");
    r.append(program);
    r.append("`): ");
    r.append(error);
    r
}

/// The message for a helper program that could not be run.
pub fn run_failure(program: &str, error: &str) -> (r: String)
    ensures
        r@ == "failed to run `"@ + program@ + "`: "@ + error@,
{
    let mut r: String = text("failed to run `");
    r.append(program);
    r.append("`: ");
    r.append(error);
    r
}

/// The message for a helper program that ended unsuccessfully.
pub fn exit_failure(program: &str, status: &str) -> (r: String)
    ensures
        r@ == "`"@ + program@ + "` exited with status "@ + status@,
{
    let mut r: String = text("`");
    r.append(program);
    r.append("` exited with status ");
    r.append(status);
    r
}

} // verus!
