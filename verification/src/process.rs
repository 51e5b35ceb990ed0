//! The tracked processes: their pid files, what a pid file says, how the
//! status is reported, and the checks made before input reaches the browser.

use vstd::prelude::*;

use crate::config::{join_path, path_join, Config, ConfigView};
use crate::text::{
    concat2, decimal, decimal_text, int_error_text, is_digit, is_white, lemma_decimal_digits,
    lemma_parse_decimal, parse_u32, parse_unsigned, trim, trim_end, trim_start, trimmed,
};

verus! {

/// What is known of the two tracked processes.
#[derive(Clone, Copy, Debug, PartialEq, Eq, Structural)]
pub struct ProcessStatus {
    pub xvfb_pid: Option<u32>,
    pub xvfb_alive: bool,
    pub chromium_pid: Option<u32>,
    pub chromium_alive: bool,
}

/// The pid file of the process called `name`, in the run directory.
pub open spec fn pid_path_spec(cfg: ConfigView, name: Seq<char>) -> Seq<char> {
    path_join(cfg.run_dir, name + ".pid"@)
}

/// The pid file of the process called `name`.
pub fn pid_path(config: &Config, name: &str) -> (r: String)
    ensures
        r@ == pid_path_spec(config@, name@),
{
    let file: String = concat2(name, ".pid");
    join_path(config.run_dir.as_str(), file.as_str())
}

/// What a pid file holds: the pid in decimal and a line break.
pub open spec fn pid_file_spec(pid: u32) -> Seq<char> {
    decimal(pid as nat) + "\n"@
}

/// The contents written to a pid file.
pub fn pid_file_text(pid: u32) -> (r: String)
    ensures
        r@ == pid_file_spec(pid),
{
    let mut r: String = decimal_text(pid);
    r.append("\n");
    r
}

/// What reading a pid file yields: the pid it holds, nothing when the file
/// does not exist, or a message. `read` is the outcome of reading the file at
/// `path`: its text, `None` for a missing file, or the error's message.
pub open spec fn read_pid_spec(path: Seq<char>, read: Result<Option<Seq<char>>, Seq<char>>) -> Result<
    Option<u32>,
    Seq<char>,
> {
    match read {
        Ok(Some(text)) => match parse_unsigned(trimmed(text), u32::MAX as nat) {
            Ok(v) => Ok(Some(v as u32)),
            Err(k) => Err("invalid pid file `"@ + path + "`: "@ + int_error_text(k)),
        },
        Ok(None) => Ok(None),
        Err(m) => Err(m),
    }
}

pub open spec fn read_view(read: Result<Option<String>, String>) -> Result<
    Option<Seq<char>>,
    Seq<char>,
> {
    match read {
        Ok(Some(t)) => Ok(Some(t@)),
        Ok(None) => Ok(None),
        Err(m) => Err(m@),
    }
}

pub open spec fn pid_result_view(r: Result<Option<u32>, String>) -> Result<Option<u32>, Seq<char>> {
    match r {
        Ok(p) => Ok(p),
        Err(m) => Err(m@),
    }
}

/// The pid that the file at `path` holds, given the outcome of reading it.
pub fn read_pid(path: &str, read: Result<Option<String>, String>) -> (r: Result<Option<u32>, String>)
    ensures
        pid_result_view(r) == read_pid_spec(path@, read_view(read)),
{
    match read {
        Ok(Some(text)) => {
            let value: &str = trim(text.as_str());
            match parse_u32(value) {
                Ok(v) => Ok(Some(v)),
                Err(k) => {
                    let mut m: String = String::from_str("invalid pid file `");
                    m.append(path);
                    m.append("`: ");
                    m.append(k.describe());
                    Err(m)
                },
            }
        },
        Ok(None) => Ok(None),
        Err(m) => Err(m),
    }
}

proof fn lemma_digits_not_white(n: nat)
    ensures
        forall|i: int| 0 <= i < decimal(n).len() ==> !is_white(#[trigger] decimal(n)[i]),
{
    lemma_decimal_digits(n);
    assert forall|i: int| 0 <= i < decimal(n).len() implies !is_white(#[trigger] decimal(n)[i]) by {
        assert(is_digit(decimal(n)[i]));
    }
}

/// A pid file reads back as the pid that was written into it.
pub proof fn lemma_pid_file_round_trip(path: Seq<char>, pid: u32)
    ensures
        read_pid_spec(path, Ok(Some(pid_file_spec(pid)))) == Ok::<Option<u32>, Seq<char>>(
            Some(pid),
        ),
{
    let d = decimal(pid as nat);
    let text = pid_file_spec(pid);
    reveal_strlit("\n");
    lemma_decimal_digits(pid as nat);
    lemma_digits_not_white(pid as nat);
    assert(text =~= d.push('\n'));
    assert(!is_white(text[0]));
    assert(trim_start(text) == text);
    assert(text.last() == '\n');
    assert(text.drop_last() =~= d);
    assert(!is_white(d.last()));
    assert(trim_end(d) == d);
    assert(trimmed(text) == d);
    lemma_parse_decimal(pid as nat, u32::MAX as nat);
}

/// How the status report describes one process.
pub open spec fn process_line_spec(pid: Option<u32>, alive: bool) -> Seq<char> {
    match pid {
        Some(p) => if alive {
            "running pid="@ + decimal(p as nat)
        } else {
            "stale pid="@ + decimal(p as nat)
        },
        None => "stopped"@,
    }
}

/// How the status report describes one process.
pub fn process_line(pid: Option<u32>, alive: bool) -> (r: String)
    ensures
        r@ == process_line_spec(pid, alive),
{
    match pid {
        Some(p) => {
            let n: String = decimal_text(p);
            if alive {
                concat2("running pid=", n.as_str())
            } else {
                concat2("stale pid=", n.as_str())
            }
        },
        None => String::from_str("stopped"),
    }
}

/// Whether both tracked processes run; the message says what to do otherwise.
pub fn ensure_running(status: &ProcessStatus) -> (r: Result<(), String>)
    ensures
        r is Ok <==> status.xvfb_alive && status.chromium_alive,
        r matches Err(m) ==> m@ == "browser is not running; use `brausi start [url]` first"@,
{
    if status.xvfb_alive && status.chromium_alive {
        Ok(())
    } else {
        Err(String::from_str("browser is not running; use `brausi start [url]` first"))
    }
}

/// `n - 1`, or 0 for 0.
pub open spec fn last_index(n: u32) -> nat {
    if n == 0 {
        0
    } else {
        (n - 1) as nat
    }
}

/// The message for coordinates outside the framebuffer.
pub open spec fn out_of_bounds_spec(cfg: ConfigView, x: u32, y: u32) -> Seq<char> {
    "coordinates out of bounds: "@ + decimal(x as nat) + ","@ + decimal(y as nat)
        + "; expected x=0.."@ + decimal(last_index(cfg.width)) + " y=0.."@ + decimal(
        last_index(cfg.height),
    )
}

/// Whether `(x, y)` is a pixel of the framebuffer.
pub fn validate_coords(config: &Config, x: u32, y: u32) -> (r: Result<(), String>)
    ensures
        r is Ok <==> x < config.width && y < config.height,
        r matches Err(m) ==> m@ == out_of_bounds_spec(config@, x, y),
{
    if x >= config.width || y >= config.height {
        let mut m: String = String::from_str("coordinates out of bounds: ");
        let xs: String = decimal_text(x);
        m.append(xs.as_str());
        m.append(",");
        let ys: String = decimal_text(y);
        m.append(ys.as_str());
        m.append("; expected x=0..");
        let w: String = decimal_text(config.width.saturating_sub(1));
        m.append(w.as_str());
        m.append(" y=0..");
        let h: String = decimal_text(config.height.saturating_sub(1));
        m.append(h.as_str());
        return Err(m);
    }
    Ok(())
}

} // verus!
