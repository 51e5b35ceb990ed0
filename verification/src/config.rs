//! The configuration: display, screen size, timings, where state lives and
//! which helper programs to call, read from the environment variables.

use vstd::prelude::*;

use crate::text::{
    concat2, concat3, decimal, decimal_text, parse_u32, parse_u64, parse_unsigned, same_text,
    trim, trimmed,
};

verus! {

pub const DEFAULT_WIDTH: u32 = 1024;

pub const DEFAULT_HEIGHT: u32 = 768;

pub const DEFAULT_DEPTH: u32 = 24;

pub const DEFAULT_VIEW_INTERVAL_MS: u64 = 200;

pub const DEFAULT_START_WAIT_MS: u64 = 12000;

/// The environment variables of the process, in the order the operating system
/// lists them, and whether the program runs on macOS.
pub struct Environment {
    pub vars: Vec<(String, String)>,
    pub macos: bool,
}

pub struct EnvView {
    pub vars: Seq<(Seq<char>, Seq<char>)>,
    pub macos: bool,
}

impl View for Environment {
    type V = EnvView;

    open spec fn view(&self) -> EnvView {
        EnvView {
            vars: self.vars@.map_values(|p: (String, String)| (p.0@, p.1@)),
            macos: self.macos,
        }
    }
}

/// The value of the first variable called `name`.
pub open spec fn lookup(vars: Seq<(Seq<char>, Seq<char>)>, name: Seq<char>) -> Option<Seq<char>>
    decreases vars.len(),
{
    if vars.len() == 0 {
        None
    } else if vars[0].0 == name {
        Some(vars[0].1)
    } else {
        lookup(vars.drop_first(), name)
    }
}

/// A variable's value without surrounding whitespace, where it is set and that
/// leaves something.
pub open spec fn setting(env: EnvView, name: Seq<char>) -> Option<Seq<char>> {
    match lookup(env.vars, name) {
        Some(v) => if trimmed(v).len() > 0 {
            Some(trimmed(v))
        } else {
            None
        },
        None => None,
    }
}

/// A numeric setting: `default` where the variable gives nothing, otherwise
/// the unsigned integer no greater than `max` that it writes.
pub open spec fn number_setting(env: EnvView, name: Seq<char>, default: nat, max: nat) -> Result<
    nat,
    Seq<char>,
> {
    match setting(env, name) {
        None => Ok(default),
        Some(t) => match parse_unsigned(t, max) {
            Ok(v) => Ok(v),
            Err(_) => Err(name + " must be an unsigned integer"@),
        },
    }
}

/// A text setting with a fallback.
pub open spec fn text_setting(env: EnvView, name: Seq<char>, default: Seq<char>) -> Seq<char> {
    match setting(env, name) {
        Some(t) => t,
        None => default,
    }
}

/// `rel` appended to the path `base`, with a separator unless `base` is empty
/// or ends in one, as `Path::join` does for a relative `rel`.
pub open spec fn path_join(base: Seq<char>, rel: Seq<char>) -> Seq<char> {
    if base.len() == 0 || base.last() == '/' {
        base + rel
    } else {
        base + "/"@ + rel
    }
}

/// `.brausi` in the home directory, or in the working directory without one.
pub open spec fn default_state_dir_spec(env: EnvView) -> Seq<char> {
    match lookup(env.vars, "HOME"@) {
        Some(home) => path_join(home, ".brausi"@),
        None => path_join("."@, ".brausi"@),
    }
}

pub open spec fn default_chromium_spec(macos: bool) -> Seq<char> {
    if macos {
        "/Applications/Chromium.app/Contents/MacOS/Chromium"@
    } else {
        "chromium"@
    }
}

/// Everything the commands need to know.
pub struct Config {
    pub display: String,
    pub width: u32,
    pub height: u32,
    pub depth: u32,
    pub view_interval_ms: u64,
    pub start_wait_ms: u64,
    pub state_dir: String,
    pub run_dir: String,
    pub profile_dir: String,
    pub capture_path: String,
    pub xvfb_bin: String,
    pub chromium_bin: String,
    pub scrot_bin: String,
    pub chafa_bin: String,
    pub xdotool_bin: String,
}

pub struct ConfigView {
    pub display: Seq<char>,
    pub width: u32,
    pub height: u32,
    pub depth: u32,
    pub view_interval_ms: u64,
    pub start_wait_ms: u64,
    pub state_dir: Seq<char>,
    pub run_dir: Seq<char>,
    pub profile_dir: Seq<char>,
    pub capture_path: Seq<char>,
    pub xvfb_bin: Seq<char>,
    pub chromium_bin: Seq<char>,
    pub scrot_bin: Seq<char>,
    pub chafa_bin: Seq<char>,
    pub xdotool_bin: Seq<char>,
}

impl View for Config {
    type V = ConfigView;

    open spec fn view(&self) -> ConfigView {
        ConfigView {
            display: self.display@,
            width: self.width,
            height: self.height,
            depth: self.depth,
            view_interval_ms: self.view_interval_ms,
            start_wait_ms: self.start_wait_ms,
            state_dir: self.state_dir@,
            run_dir: self.run_dir@,
            profile_dir: self.profile_dir@,
            capture_path: self.capture_path@,
            xvfb_bin: self.xvfb_bin@,
            chromium_bin: self.chromium_bin@,
            scrot_bin: self.scrot_bin@,
            chafa_bin: self.chafa_bin@,
            xdotool_bin: self.xdotool_bin@,
        }
    }
}

/// The configuration with the given numbers, and every text taken from the
/// environment or its default.
pub open spec fn config_with(
    env: EnvView,
    width: u32,
    height: u32,
    depth: u32,
    view_interval_ms: u64,
    start_wait_ms: u64,
) -> ConfigView {
    let state_dir = text_setting(env, "BRAUSI_STATE_DIR"@, default_state_dir_spec(env));
    let run_dir = path_join(state_dir, "run"@);
    ConfigView {
        display: text_setting(env, "BRAUSI_DISPLAY"@, ":99"@),
        width,
        height,
        depth,
        view_interval_ms,
        start_wait_ms,
        state_dir,
        run_dir,
        profile_dir: path_join(state_dir, "profile"@),
        capture_path: path_join(run_dir, "live.png"@),
        xvfb_bin: text_setting(env, "BRAUSI_XVFB"@, "Xvfb"@),
        chromium_bin: text_setting(env, "BRAUSI_CHROMIUM"@, default_chromium_spec(env.macos)),
        scrot_bin: text_setting(env, "BRAUSI_SCROT"@, "scrot"@),
        chafa_bin: text_setting(env, "BRAUSI_CHAFA"@, "chafa"@),
        xdotool_bin: text_setting(env, "BRAUSI_XDOTOOL"@, "xdotool"@),
    }
}

/// The configuration that the environment gives, or the message of the first
/// numeric setting that is no number: width, height, depth, view interval and
/// start wait are read in this order.
pub open spec fn config_spec(env: EnvView) -> Result<ConfigView, Seq<char>> {
    match number_setting(env, "BRAUSI_WIDTH"@, DEFAULT_WIDTH as nat, u32::MAX as nat) {
        Err(m) => Err(m),
        Ok(width) => match number_setting(
            env,
            "BRAUSI_HEIGHT"@,
            DEFAULT_HEIGHT as nat,
            u32::MAX as nat,
        ) {
            Err(m) => Err(m),
            Ok(height) => match number_setting(
                env,
                "BRAUSI_DEPTH"@,
                DEFAULT_DEPTH as nat,
                u32::MAX as nat,
            ) {
                Err(m) => Err(m),
                Ok(depth) => match number_setting(
                    env,
                    "BRAUSI_VIEW_INTERVAL_MS"@,
                    DEFAULT_VIEW_INTERVAL_MS as nat,
                    u64::MAX as nat,
                ) {
                    Err(m) => Err(m),
                    Ok(view) => match number_setting(
                        env,
                        "BRAUSI_START_WAIT_MS"@,
                        DEFAULT_START_WAIT_MS as nat,
                        u64::MAX as nat,
                    ) {
                        Err(m) => Err(m),
                        Ok(wait) => Ok(
                            config_with(
                                env,
                                width as u32,
                                height as u32,
                                depth as u32,
                                view as u64,
                                wait as u64,
                            ),
                        ),
                    },
                },
            },
        },
    }
}

pub open spec fn config_result_view(r: Result<Config, String>) -> Result<ConfigView, Seq<char>> {
    match r {
        Ok(c) => Ok(c@),
        Err(m) => Err(m@),
    }
}

impl Environment {
    /// An environment without variables.
    pub fn new(macos: bool) -> (r: Environment)
        ensures
            r@.vars.len() == 0,
            r@.macos == macos,
    {
        Environment { vars: Vec::new(), macos }
    }

    /// Adds a variable after those already there.
    pub fn push(&mut self, name: String, value: String)
        ensures
            final(self)@.vars == old(self)@.vars.push((name@, value@)),
            final(self)@.macos == old(self)@.macos,
    {
        self.vars.push((name, value));
        assert(self@.vars =~= old(self)@.vars.push((name@, value@)));
    }

    /// The value of the first variable called `name`.
    pub fn get(&self, name: &str) -> (r: Option<&String>)
        ensures
            match r {
                Some(v) => lookup(self@.vars, name@) == Some(v@),
                None => lookup(self@.vars, name@) is None,
            },
    {
        let ghost all: Seq<(Seq<char>, Seq<char>)> = self@.vars;
        let n: usize = self.vars.len();
        let mut i: usize = 0;
        assert(all.subrange(0, n as int) =~= all);
        while i < n
            invariant
                i <= n,
                n == self.vars@.len(),
                all == self@.vars,
                lookup(all, name@) == lookup(all.subrange(i as int, n as int), name@),
            decreases n - i,
        {
            let pair: &(String, String) = &self.vars[i];
            let ghost rest: Seq<(Seq<char>, Seq<char>)> = all.subrange(i as int, n as int);
            assert(rest[0] == (pair.0@, pair.1@));
            if same_text(pair.0.as_str(), name) {
                return Some(&pair.1);
            }
            assert(rest.drop_first() =~= all.subrange(i + 1, n as int));
            i = i + 1;
        }
        assert(all.subrange(i as int, n as int) =~= Seq::<(Seq<char>, Seq<char>)>::empty());
        None
    }
}

/// A variable's value without surrounding whitespace, if it is set and that
/// leaves something.
pub fn read_env(env: &Environment, name: &str) -> (r: Option<String>)
    ensures
        match r {
            Some(v) => setting(env@, name@) == Some(v@),
            None => setting(env@, name@) is None,
        },
{
    match env.get(name) {
        Some(v) => {
            let t: &str = trim(v.as_str());
            if t.unicode_len() == 0 {
                None
            } else {
                Some(String::from_str(t))
            }
        },
        None => None,
    }
}

/// A `u32` setting, `default` where the variable gives nothing.
pub fn read_u32(env: &Environment, name: &str, default: u32) -> (r: Result<u32, String>)
    ensures
        match r {
            Ok(v) => number_setting(env@, name@, default as nat, u32::MAX as nat) == Ok::<
                nat,
                Seq<char>,
            >(v as nat),
            Err(m) => number_setting(env@, name@, default as nat, u32::MAX as nat) == Err::<
                nat,
                Seq<char>,
            >(m@),
        },
{
    match read_env(env, name) {
        None => Ok(default),
        Some(value) => match parse_u32(value.as_str()) {
            Ok(v) => Ok(v),
            Err(_) => Err(concat2(name, " must be an unsigned integer")),
        },
    }
}

/// A `u64` setting, `default` where the variable gives nothing.
pub fn read_u64(env: &Environment, name: &str, default: u64) -> (r: Result<u64, String>)
    ensures
        match r {
            Ok(v) => number_setting(env@, name@, default as nat, u64::MAX as nat) == Ok::<
                nat,
                Seq<char>,
            >(v as nat),
            Err(m) => number_setting(env@, name@, default as nat, u64::MAX as nat) == Err::<
                nat,
                Seq<char>,
            >(m@),
        },
{
    match read_env(env, name) {
        None => Ok(default),
        Some(value) => match parse_u64(value.as_str()) {
            Ok(v) => Ok(v),
            Err(_) => Err(concat2(name, " must be an unsigned integer")),
        },
    }
}

fn text_or(env: &Environment, name: &str, default: &str) -> (r: String)
    ensures
        r@ == text_setting(env@, name@, default@),
{
    match read_env(env, name) {
        Some(v) => v,
        None => String::from_str(default),
    }
}

/// `rel` appended to the path `base`.
pub fn join_path(base: &str, rel: &str) -> (r: String)
    ensures
        r@ == path_join(base@, rel@),
{
    let n: usize = base.unicode_len();
    if n == 0 || base.get_char(n - 1) == '/' {
        concat2(base, rel)
    } else {
        concat3(base, "/", rel)
    }
}

/// `.brausi` in the home directory, or in the working directory without one.
pub fn default_state_dir(env: &Environment) -> (r: String)
    ensures
        r@ == default_state_dir_spec(env@),
{
    match env.get("HOME") {
        Some(home) => join_path(home.as_str(), ".brausi"),
        None => join_path(".", ".brausi"),
    }
}

/// The Chromium program of the platform.
pub fn default_chromium_bin(macos: bool) -> (r: String)
    ensures
        r@ == default_chromium_spec(macos),
{
    if macos {
        String::from_str("/Applications/Chromium.app/Contents/MacOS/Chromium")
    } else {
        String::from_str("chromium")
    }
}

impl Config {
    /// The configuration that the environment gives.
    pub fn from_env(env: &Environment) -> (r: Result<Config, String>)
        ensures
            config_result_view(r) == config_spec(env@),
    {
        let display: String = text_or(env, "BRAUSI_DISPLAY", ":99");
        let width: u32 = match read_u32(env, "BRAUSI_WIDTH", DEFAULT_WIDTH) {
            Ok(v) => v,
            Err(m) => {
                return Err(m);
            },
        };
        let height: u32 = match read_u32(env, "BRAUSI_HEIGHT", DEFAULT_HEIGHT) {
            Ok(v) => v,
            Err(m) => {
                return Err(m);
            },
        };
        let depth: u32 = match read_u32(env, "BRAUSI_DEPTH", DEFAULT_DEPTH) {
            Ok(v) => v,
            Err(m) => {
                return Err(m);
            },
        };
        let view_interval_ms: u64 = match read_u64(
            env,
            "BRAUSI_VIEW_INTERVAL_MS",
            DEFAULT_VIEW_INTERVAL_MS,
        ) {
            Ok(v) => v,
            Err(m) => {
                return Err(m);
            },
        };
        let start_wait_ms: u64 = match read_u64(env, "BRAUSI_START_WAIT_MS", DEFAULT_START_WAIT_MS) {
            Ok(v) => v,
            Err(m) => {
                return Err(m);
            },
        };
        let state_dir: String = match read_env(env, "BRAUSI_STATE_DIR") {
            Some(v) => v,
            None => default_state_dir(env),
        };
        let run_dir: String = join_path(state_dir.as_str(), "run");
        let profile_dir: String = join_path(state_dir.as_str(), "profile");
        let capture_path: String = join_path(run_dir.as_str(), "live.png");
        let xvfb_bin: String = text_or(env, "BRAUSI_XVFB", "Xvfb");
        let chromium_bin: String = match read_env(env, "BRAUSI_CHROMIUM") {
            Some(v) => v,
            None => default_chromium_bin(env.macos),
        };
        let scrot_bin: String = text_or(env, "BRAUSI_SCROT", "scrot");
        let chafa_bin: String = text_or(env, "BRAUSI_CHAFA", "chafa");
        let xdotool_bin: String = text_or(env, "BRAUSI_XDOTOOL", "xdotool");
        Ok(
            Config {
                display,
                width,
                height,
                depth,
                view_interval_ms,
                start_wait_ms,
                state_dir,
                run_dir,
                profile_dir,
                capture_path,
                xvfb_bin,
                chromium_bin,
                scrot_bin,
                chafa_bin,
                xdotool_bin,
            },
        )
    }

    /// The screen argument of Xvfb: width, height and depth separated by `x`.
    pub fn screen_arg(&self) -> (r: String)
        ensures
            r@ == decimal(self.width as nat) + "x"@ + decimal(self.height as nat) + "x"@ + decimal(
                self.depth as nat,
            ),
    {
        let mut r: String = decimal_text(self.width);
        r.append("x");
        let h: String = decimal_text(self.height);
        r.append(h.as_str());
        r.append("x");
        let d: String = decimal_text(self.depth);
        r.append(d.as_str());
        r
    }
}

} // verus!
