//! The command line: which command the arguments name, and its operands.

use vstd::prelude::*;

use crate::text::{
    concat3, join_words, joined, parse_u32, parse_unsigned, same_text, texts,
};

verus! {

/// A command of the controller with its operands.
#[allow(inconsistent_fields)]
#[derive(Debug, Clone, PartialEq, Eq)]
pub enum CliCommand {
    Start { url: Option<String> },
    View,
    Click { x: u32, y: u32 },
    Move { x: u32, y: u32 },
    Down { x: u32, y: u32 },
    Up { x: u32, y: u32 },
    Type { text: String },
    Go { url: String },
    Back,
    Forward,
    Reload,
    Stop,
    Status,
    Help,
}

/// A command with its text operands taken as character sequences.
#[allow(inconsistent_fields)]
pub enum CommandView {
    Start { url: Option<Seq<char>> },
    View,
    Click { x: u32, y: u32 },
    Move { x: u32, y: u32 },
    Down { x: u32, y: u32 },
    Up { x: u32, y: u32 },
    Type { text: Seq<char> },
    Go { url: Seq<char> },
    Back,
    Forward,
    Reload,
    Stop,
    Status,
    Help,
}

impl View for CliCommand {
    type V = CommandView;

    open spec fn view(&self) -> CommandView {
        match self {
            CliCommand::Start { url } => CommandView::Start {
                url: match url {
                    Some(u) => Some(u@),
                    None => None,
                },
            },
            CliCommand::View => CommandView::View,
            CliCommand::Click { x, y } => CommandView::Click { x: *x, y: *y },
            CliCommand::Move { x, y } => CommandView::Move { x: *x, y: *y },
            CliCommand::Down { x, y } => CommandView::Down { x: *x, y: *y },
            CliCommand::Up { x, y } => CommandView::Up { x: *x, y: *y },
            CliCommand::Type { text } => CommandView::Type { text: text@ },
            CliCommand::Go { url } => CommandView::Go { url: url@ },
            CliCommand::Back => CommandView::Back,
            CliCommand::Forward => CommandView::Forward,
            CliCommand::Reload => CommandView::Reload,
            CliCommand::Stop => CommandView::Stop,
            CliCommand::Status => CommandView::Status,
            CliCommand::Help => CommandView::Help,
        }
    }
}

/// What a pointer command does at its coordinates.
#[derive(Clone, Copy, Debug, PartialEq, Eq, Structural)]
pub enum PointerAction {
    Click,
    Move,
    Down,
    Up,
}

pub open spec fn pointer_view(action: PointerAction, x: u32, y: u32) -> CommandView {
    match action {
        PointerAction::Click => CommandView::Click { x, y },
        PointerAction::Move => CommandView::Move { x, y },
        PointerAction::Down => CommandView::Down { x, y },
        PointerAction::Up => CommandView::Up { x, y },
    }
}

/// The view of a parse result.
pub open spec fn parsed_view(r: Result<CliCommand, String>) -> Result<CommandView, Seq<char>> {
    match r {
        Ok(c) => Ok(c@),
        Err(m) => Err(m@),
    }
}

/// The two coordinates of a pointer command: exactly two operands, each a
/// `u32`.
pub open spec fn coords_spec(args: Seq<Seq<char>>) -> Result<(u32, u32), Seq<char>>
    recommends
        args.len() >= 1,
{
    if args.len() != 3 {
        Err("usage: brausi "@ + args[0] + " <x> <y>"@)
    } else {
        match parse_unsigned(args[1], u32::MAX as nat) {
            Err(_) => Err("invalid x coordinate `"@ + args[1] + "`"@),
            Ok(x) => match parse_unsigned(args[2], u32::MAX as nat) {
                Err(_) => Err("invalid y coordinate `"@ + args[2] + "`"@),
                Ok(y) => Ok((x as u32, y as u32)),
            },
        }
    }
}

/// A pointer command of kind `action` at the coordinates the operands give.
pub open spec fn pointer_spec(args: Seq<Seq<char>>, action: PointerAction) -> Result<
    CommandView,
    Seq<char>,
> {
    match coords_spec(args) {
        Ok((x, y)) => Ok(pointer_view(action, x, y)),
        Err(m) => Err(m),
    }
}

/// The operands of a text command, joined by spaces; there must be one at
/// least.
pub open spec fn one_text_spec(args: Seq<Seq<char>>, name: Seq<char>) -> Result<
    Seq<char>,
    Seq<char>,
> {
    if args.len() < 2 {
        Err("usage: brausi "@ + name + " <text>"@)
    } else {
        Ok(joined(args.subrange(1, args.len() as int)))
    }
}

/// `command`, provided that no operand follows the command word.
pub open spec fn no_extra_spec(args: Seq<Seq<char>>, command: CommandView) -> Result<
    CommandView,
    Seq<char>,
>
    recommends
        args.len() >= 1,
{
    if args.len() == 1 {
        Ok(command)
    } else {
        Err("usage: brausi "@ + args[0])
    }
}

/// The command that the arguments (without the program name) ask for.
pub open spec fn parse_spec(args: Seq<Seq<char>>) -> Result<CommandView, Seq<char>> {
    if args.len() == 0 {
        Ok(CommandView::Help)
    } else {
        let c = args[0];
        if c == "start"@ {
            Ok(
                CommandView::Start {
                    url: if args.len() > 1 {
                        Some(args[1])
                    } else {
                        None
                    },
                },
            )
        } else if c == "view"@ {
            no_extra_spec(args, CommandView::View)
        } else if c == "click"@ {
            pointer_spec(args, PointerAction::Click)
        } else if c == "move"@ {
            pointer_spec(args, PointerAction::Move)
        } else if c == "down"@ || c == "mousedown"@ {
            pointer_spec(args, PointerAction::Down)
        } else if c == "up"@ || c == "mouseup"@ {
            pointer_spec(args, PointerAction::Up)
        } else if c == "type"@ {
            match one_text_spec(args, "type"@) {
                Ok(t) => Ok(CommandView::Type { text: t }),
                Err(m) => Err(m),
            }
        } else if c == "go"@ {
            match one_text_spec(args, "go"@) {
                Ok(t) => Ok(CommandView::Go { url: t }),
                Err(m) => Err(m),
            }
        } else if c == "back"@ {
            no_extra_spec(args, CommandView::Back)
        } else if c == "forward"@ {
            no_extra_spec(args, CommandView::Forward)
        } else if c == "reload"@ {
            no_extra_spec(args, CommandView::Reload)
        } else if c == "stop"@ {
            no_extra_spec(args, CommandView::Stop)
        } else if c == "status"@ {
            no_extra_spec(args, CommandView::Status)
        } else if c == "help"@ || c == "-h"@ || c == "--help"@ {
            Ok(CommandView::Help)
        } else {
            Err("unknown command `"@ + c + "`"@)
        }
    }
}

/// Reads the command line (without the program name) into a command.
pub fn parse_args(args: &[String]) -> (r: Result<CliCommand, String>)
    ensures
        parsed_view(r) == parse_spec(texts(args@)),
{
    if args.len() == 0 {
        return Ok(CliCommand::Help);
    }
    let ghost a: Seq<Seq<char>> = texts(args@);
    let command: &str = args[0].as_str();
    assert(command@ == a[0]);
    if same_text(command, "start") {
        let url: Option<String> = if args.len() > 1 {
            Some(args[1].clone())
        } else {
            None
        };
        Ok(CliCommand::Start { url })
    } else if same_text(command, "view") {
        no_extra(args, CliCommand::View)
    } else if same_text(command, "click") {
        pointer(args, PointerAction::Click)
    } else if same_text(command, "move") {
        pointer(args, PointerAction::Move)
    } else if same_text(command, "down") || same_text(command, "mousedown") {
        pointer(args, PointerAction::Down)
    } else if same_text(command, "up") || same_text(command, "mouseup") {
        pointer(args, PointerAction::Up)
    } else if same_text(command, "type") {
        match one_text(args, "type") {
            Ok(text) => Ok(CliCommand::Type { text }),
            Err(m) => Err(m),
        }
    } else if same_text(command, "go") {
        match one_text(args, "go") {
            Ok(url) => Ok(CliCommand::Go { url }),
            Err(m) => Err(m),
        }
    } else if same_text(command, "back") {
        no_extra(args, CliCommand::Back)
    } else if same_text(command, "forward") {
        no_extra(args, CliCommand::Forward)
    } else if same_text(command, "reload") {
        no_extra(args, CliCommand::Reload)
    } else if same_text(command, "stop") {
        no_extra(args, CliCommand::Stop)
    } else if same_text(command, "status") {
        no_extra(args, CliCommand::Status)
    } else if same_text(command, "help") || same_text(command, "-h") || same_text(
        command,
        "--help",
    ) {
        Ok(CliCommand::Help)
    } else {
        Err(concat3("unknown command `", command, "`"))
    }
}

fn pointer(args: &[String], action: PointerAction) -> (r: Result<CliCommand, String>)
    requires
        args@.len() >= 1,
    ensures
        parsed_view(r) == pointer_spec(texts(args@), action),
{
    match coords(args) {
        Ok((x, y)) => Ok(
            match action {
                PointerAction::Click => CliCommand::Click { x, y },
                PointerAction::Move => CliCommand::Move { x, y },
                PointerAction::Down => CliCommand::Down { x, y },
                PointerAction::Up => CliCommand::Up { x, y },
            },
        ),
        Err(m) => Err(m),
    }
}

/// The two coordinates of a pointer command.
pub fn coords(args: &[String]) -> (r: Result<(u32, u32), String>)
    requires
        args@.len() >= 1,
    ensures
        match r {
            Ok(p) => coords_spec(texts(args@)) == Ok::<(u32, u32), Seq<char>>(p),
            Err(m) => coords_spec(texts(args@)) == Err::<(u32, u32), Seq<char>>(m@),
        },
{
    let ghost a: Seq<Seq<char>> = texts(args@);
    if args.len() != 3 {
        return Err(concat3("usage: brausi ", args[0].as_str(), " <x> <y>"));
    }
    assert(a[1] == args@[1]@ && a[2] == args@[2]@);
    let x: u32 = match parse_u32(args[1].as_str()) {
        Ok(v) => v,
        Err(_) => {
            return Err(concat3("invalid x coordinate `", args[1].as_str(), "`"));
        },
    };
    let y: u32 = match parse_u32(args[2].as_str()) {
        Ok(v) => v,
        Err(_) => {
            return Err(concat3("invalid y coordinate `", args[2].as_str(), "`"));
        },
    };
    Ok((x, y))
}

/// The operands of a text command joined by spaces.
pub fn one_text(args: &[String], name: &str) -> (r: Result<String, String>)
    ensures
        match r {
            Ok(t) => one_text_spec(texts(args@), name@) == Ok::<Seq<char>, Seq<char>>(t@),
            Err(m) => one_text_spec(texts(args@), name@) == Err::<Seq<char>, Seq<char>>(m@),
        },
{
    if args.len() < 2 {
        return Err(concat3("usage: brausi ", name, " <text>"));
    }
    Ok(join_words(args, 1))
}

/// `command`, provided that no operand follows the command word.
pub fn no_extra(args: &[String], command: CliCommand) -> (r: Result<CliCommand, String>)
    requires
        args@.len() >= 1,
    ensures
        parsed_view(r) == no_extra_spec(texts(args@), command@),
{
    if args.len() == 1 {
        Ok(command)
    } else {
        Err(crate::text::concat2("usage: brausi ", args[0].as_str()))
    }
}

} // verus!
