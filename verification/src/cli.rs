//! The client's side of the line protocol: the line that carries a request.

use crate::protocol::{decimal, decimal_text, Request, StageArgs, UnstageArgs};
use vstd::prelude::*;
use vstd::string::*;

verus! {

/// A command word alone on its line.
pub open spec fn command_line(command: Seq<char>) -> Seq<char> {
    command + "\n"@
}

/// A command word and its argument on a line, with a space between them.
pub open spec fn argument_line(command: Seq<char>, argument: Seq<char>) -> Seq<char> {
    command + " "@ + argument + "\n"@
}

/// The line that asks the daemon for `request`. Of the flags of a `stage`
/// or `unstage` request the first that is set decides, before a window; a
/// request of these two kinds that names nothing has no line.
pub open spec fn line_of(request: Request) -> Option<Seq<char>> {
    match request {
        Request::Add { window_id } => Some(argument_line("add"@, decimal(window_id as nat))),
        Request::Remove { window_id } => Some(argument_line("remove"@, decimal(window_id as nat))),
        Request::List => Some(command_line("list"@)),
        Request::ToggleActive => Some(command_line("toggle_active"@)),
        Request::Stage(args) => if args.all {
            Some(argument_line("stage"@, "--all"@))
        } else if args.list {
            Some(argument_line("stage"@, "--list"@))
        } else if args.active {
            Some(argument_line("stage"@, "--active"@))
        } else {
            match args.window_id {
                Some(window_id) => Some(argument_line("stage"@, decimal(window_id as nat))),
                None => None,
            }
        },
        Request::Unstage(args) => if args.all {
            Some(argument_line("unstage"@, "--all"@))
        } else if args.active {
            Some(argument_line("unstage"@, "--active"@))
        } else {
            match args.window_id {
                Some(window_id) => Some(argument_line("unstage"@, decimal(window_id as nat))),
                None => None,
            }
        },
    }
}

/// The request as the daemon reads it from the line: with the one target
/// that decides, and nothing else.
pub open spec fn as_read(request: Request) -> Request {
    match request {
        Request::Stage(args) => if args.all {
            Request::Stage(StageArgs { window_id: None, all: true, list: false, active: false })
        } else if args.list {
            Request::Stage(StageArgs { window_id: None, all: false, list: true, active: false })
        } else if args.active {
            Request::Stage(StageArgs { window_id: None, all: false, list: false, active: true })
        } else {
            request
        },
        Request::Unstage(args) => if args.all {
            Request::Unstage(UnstageArgs { window_id: None, all: true, active: false })
        } else if args.active {
            Request::Unstage(UnstageArgs { window_id: None, all: false, active: true })
        } else {
            request
        },
        _ => request,
    }
}

/// Writes a command word alone on its line.
fn write_command(command: &str) -> (line: String)
    ensures
        line@ == command_line(command@),
{
    let mut line = String::from_str(command);
    line.append("\n");
    line
}

/// Writes a command word and its argument on a line.
fn write_with_argument(command: &str, argument: &str) -> (line: String)
    ensures
        line@ == argument_line(command@, argument@),
{
    let mut line = String::from_str(command);
    line.append(" ");
    line.append(argument);
    line.append("\n");
    line
}

/// Writes the line that asks the daemon for `request`.
pub fn request_line(request: &Request) -> (line: Option<String>)
    ensures
        match line {
            Some(text) => line_of(*request) == Some(text@),
            None => line_of(*request) is None,
        },
{
    match request {
        Request::Add { window_id } => Some(
            write_with_argument("add", decimal_text(*window_id).as_str()),
        ),
        Request::Remove { window_id } => Some(
            write_with_argument("remove", decimal_text(*window_id).as_str()),
        ),
        Request::List => Some(write_command("list")),
        Request::ToggleActive => Some(write_command("toggle_active")),
        Request::Stage(args) => {
            if args.all {
                Some(write_with_argument("stage", "--all"))
            } else if args.list {
                Some(write_with_argument("stage", "--list"))
            } else if args.active {
                Some(write_with_argument("stage", "--active"))
            } else {
                match args.window_id {
                    Some(window_id) => Some(
                        write_with_argument("stage", decimal_text(window_id).as_str()),
                    ),
                    None => None,
                }
            }
        },
        Request::Unstage(args) => {
            if args.all {
                Some(write_with_argument("unstage", "--all"))
            } else if args.active {
                Some(write_with_argument("unstage", "--active"))
            } else {
                match args.window_id {
                    Some(window_id) => Some(
                        write_with_argument("unstage", decimal_text(window_id).as_str()),
                    ),
                    None => None,
                }
            }
        },
    }
}

} // verus!
