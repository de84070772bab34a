//! Reading the command token from the argument list.

use vstd::prelude::*;
use crate::lines::{views, push_line, push_joined};

verus! {

/// The commands that the tool knows.
#[derive(Clone, Copy, Debug, PartialEq, Eq, Structural)]
pub enum Command {
    Health,
    Build,
    Start,
    Stop,
    Test,
}

/// What the argument list asks for.
#[derive(Clone, Copy, Debug, PartialEq, Eq, Structural)]
pub enum Dispatch {
    /// Fewer than two arguments: only the usage text is printed.
    Usage,
    /// The command token is none of the known names.
    Unknown,
    /// A known command, to be run.
    Run(Command),
}

/// The command that a token names; names are matched exactly, case included.
pub open spec fn command_of(token: Seq<char>) -> Option<Command> {
    if token == "health"@ {
        Some(Command::Health)
    } else if token == "build"@ {
        Some(Command::Build)
    } else if token == "start"@ {
        Some(Command::Start)
    } else if token == "stop"@ {
        Some(Command::Stop)
    } else if token == "test"@ {
        Some(Command::Test)
    } else {
        None
    }
}

/// What an argument list (program name first) asks for.
pub open spec fn dispatch_of(args: Seq<Seq<char>>) -> Dispatch {
    if args.len() < 2 {
        Dispatch::Usage
    } else {
        match command_of(args[1]) {
            Some(c) => Dispatch::Run(c),
            None => Dispatch::Unknown,
        }
    }
}

fn is_token(token: &String, name: &str) -> (r: bool)
    ensures
        r == (token@ == name@),
{
    let n = String::from_str(name);
    *token == n
}

/// The command that `token` names, if any.
pub fn parse_command(token: &String) -> (r: Option<Command>)
    ensures
        r == command_of(token@),
{
    if is_token(token, "health") {
        Some(Command::Health)
    } else if is_token(token, "build") {
        Some(Command::Build)
    } else if is_token(token, "start") {
        Some(Command::Start)
    } else if is_token(token, "stop") {
        Some(Command::Stop)
    } else if is_token(token, "test") {
        Some(Command::Test)
    } else {
        None
    }
}

/// What the argument list asks for: usage below two arguments, else the
/// command that the second argument names.
pub fn dispatch(args: &Vec<String>) -> (r: Dispatch)
    ensures
        r == dispatch_of(views(args@)),
{
    if args.len() < 2 {
        Dispatch::Usage
    } else {
        match parse_command(&args[1]) {
            Some(c) => Dispatch::Run(c),
            None => Dispatch::Unknown,
        }
    }
}

/// The title printed before anything else.
pub open spec fn banner() -> Seq<Seq<char>> {
    seq!["AI Test Application DevOps Tools"@, "=================================="@]
}

/// The usage text.
pub open spec fn usage() -> Seq<Seq<char>> {
    seq![
        ""@,
        "Usage: cargo run -- <command>"@,
        "Commands:"@,
        "  health  - Check health of backend API"@,
        "  build   - Build both frontend and backend"@,
        "  start   - Start all services"@,
        "  stop    - Stop all services"@,
        "  test    - Run API tests"@,
    ]
}

/// The line that names a token that is no command.
pub open spec fn unknown_line(token: Seq<char>) -> Seq<char> {
    "Unknown command: "@ + token
}

/// What is printed for an argument list before any command runs.
pub open spec fn opening_of(args: Seq<Seq<char>>) -> Seq<Seq<char>> {
    match dispatch_of(args) {
        Dispatch::Usage => banner() + usage(),
        Dispatch::Unknown => banner() + seq![unknown_line(args[1])] + usage(),
        Dispatch::Run(_) => banner(),
    }
}

fn push_usage(out: &mut Vec<String>)
    ensures
        views(final(out)@) == views(old(out)@) + usage(),
{
    push_line(out, "");
    push_line(out, "Usage: cargo run -- <command>");
    push_line(out, "Commands:");
    push_line(out, "  health  - Check health of backend API");
    push_line(out, "  build   - Build both frontend and backend");
    push_line(out, "  start   - Start all services");
    push_line(out, "  stop    - Stop all services");
    push_line(out, "  test    - Run API tests");
    assert(views(final(out)@) =~= views(old(out)@) + usage());
}

/// The lines printed for an argument list before any command runs: the
/// title, then the usage text where no command was recognised.
pub fn opening_lines(args: &Vec<String>) -> (r: Vec<String>)
    ensures
        views(r@) == opening_of(views(args@)),
{
    let mut out: Vec<String> = Vec::new();
    push_line(&mut out, "AI Test Application DevOps Tools");
    push_line(&mut out, "==================================");
    assert(views(out@) =~= banner());
    let d = dispatch(args);
    match d {
        Dispatch::Usage => {
            push_usage(&mut out);
        },
        Dispatch::Unknown => {
            push_joined(&mut out, "Unknown command: ", args[1].as_str());
            push_usage(&mut out);
            assert(views(out@) =~= banner() + seq![unknown_line(views(args@)[1])] + usage());
        },
        Dispatch::Run(_) => {},
    }
    out
}

/// An argument list whose command token names no command runs no command,
/// and prints the title, the line naming the token, and the usage text.
pub proof fn lemma_unknown_token_prints_usage(args: Seq<Seq<char>>)
    requires
        args.len() >= 2,
        command_of(args[1]) is None,
    ensures
        !(dispatch_of(args) is Run),
        opening_of(args) == banner() + seq![unknown_line(args[1])] + usage(),
{
}

/// An argument list of fewer than two arguments runs no command, and prints
/// the title and the usage text alone.
pub proof fn lemma_short_args_print_usage(args: Seq<Seq<char>>)
    requires
        args.len() < 2,
    ensures
        dispatch_of(args) == Dispatch::Usage,
        opening_of(args) == banner() + usage(),
{
}

} // verus!
