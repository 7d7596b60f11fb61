//! Run modes: whether a finished git command is executed, printed, copied to
//! the clipboard, or the copy is printed.

use vstd::prelude::*;

use crate::cli::DryRunAndCopyFlag;
use crate::text::views;

verus! {

/// How a finished command is handled.
#[derive(Debug, Clone, Copy, PartialEq, Eq, Structural)]
pub enum RunMode {
    Normal,
    DryRun,
    DryRunAndCopy,
    Copy,
}

/// The run mode that a pair of flags selects.
pub open spec fn run_mode_of(copy: bool, dry_run: bool) -> RunMode {
    if copy {
        if dry_run { RunMode::DryRunAndCopy } else { RunMode::Copy }
    } else {
        if dry_run { RunMode::DryRun } else { RunMode::Normal }
    }
}

/// Resolves the two flags into one of the four run modes.
pub fn get_run_mode_from_options(flags: DryRunAndCopyFlag) -> (mode: RunMode)
    ensures
        mode == run_mode_of(flags.copy, flags.dry_run),
{
    if flags.copy {
        if flags.dry_run {
            RunMode::DryRunAndCopy
        } else {
            RunMode::Copy
        }
    } else {
        if flags.dry_run {
            RunMode::DryRun
        } else {
            RunMode::Normal
        }
    }
}

/// A finished git command.
#[derive(Debug)]
pub enum GitCommand {
    /// `git checkout -b <name>`
    CheckoutNewBranch(String),
    /// `git commit -m "<message>"`
    Commit(String),
}

/// A finished git command, over character sequences.
pub enum CommandView {
    CheckoutNewBranch(Seq<char>),
    Commit(Seq<char>),
}

impl View for GitCommand {
    type V = CommandView;

    open spec fn view(&self) -> CommandView {
        match self {
            GitCommand::CheckoutNewBranch(name) => CommandView::CheckoutNewBranch(name@),
            GitCommand::Commit(message) => CommandView::Commit(message@),
        }
    }
}

/// The arguments handed to `git`.
pub open spec fn command_args(c: CommandView) -> Seq<Seq<char>> {
    match c {
        CommandView::CheckoutNewBranch(name) => seq!["checkout"@, "-b"@, name],
        CommandView::Commit(message) => seq!["commit"@, "-m"@, message],
    }
}

/// The command as one would type it in a shell.
pub open spec fn command_line(c: CommandView) -> Seq<char> {
    match c {
        CommandView::CheckoutNewBranch(name) => "git checkout -b "@ + name,
        CommandView::Commit(message) => "git commit -m \""@ + message + "\""@,
    }
}

/// What is to be done with a finished command.
#[derive(Debug)]
pub enum Dispatch {
    /// Run `git` with these arguments and show what it prints.
    RunGit(Vec<String>),
    /// Show this text; nothing is run.
    Print(String),
    /// Hand `text` to the clipboard program `program`.
    CopyToClipboard { program: String, text: String },
}

/// What is to be done, over character sequences.
pub enum DispatchView {
    RunGit(Seq<Seq<char>>),
    Print(Seq<char>),
    CopyToClipboard { program: Seq<char>, text: Seq<char> },
}

impl View for Dispatch {
    type V = DispatchView;

    open spec fn view(&self) -> DispatchView {
        match self {
            Dispatch::RunGit(args) => DispatchView::RunGit(views(args@)),
            Dispatch::Print(text) => DispatchView::Print(text@),
            Dispatch::CopyToClipboard { program, text } => DispatchView::CopyToClipboard {
                program: program@,
                text: text@,
            },
        }
    }
}

/// The plan for command `c` in run mode `mode`, with `copy_program` as the
/// clipboard's copy program.
pub open spec fn dispatch_view(c: CommandView, mode: RunMode, copy_program: Seq<char>) -> DispatchView {
    match mode {
        RunMode::Normal => DispatchView::RunGit(command_args(c)),
        RunMode::DryRun => DispatchView::Print("Going to run:\n"@ + command_line(c)),
        RunMode::Copy => DispatchView::CopyToClipboard { program: copy_program, text: command_line(c) },
        RunMode::DryRunAndCopy => DispatchView::Print(
            "Going to run:\necho '"@ + command_line(c) + "' | "@ + copy_program,
        ),
    }
}

/// The command as one would type it in a shell.
pub fn format_command_line(command: &GitCommand) -> (r: String)
    ensures
        r@ == command_line(command@),
{
    match command {
        GitCommand::CheckoutNewBranch(name) => {
            let mut line = "git checkout -b ".to_owned();
            line.append(name.as_str());
            line
        },
        GitCommand::Commit(message) => {
            let mut line = "git commit -m \"".to_owned();
            line.append(message.as_str());
            line.append("\"");
            line
        },
    }
}

/// Plans what happens to a finished command: run it (`Normal`), show it
/// (`DryRun`), copy it (`Copy`), or show how it would be copied (`DryRunAndCopy`).
pub fn dispatch(command: GitCommand, mode: RunMode, copy_program: &String) -> (r: Dispatch)
    ensures
        r@ == dispatch_view(command@, mode, copy_program@),
{
    let line = format_command_line(&command);
    match mode {
        RunMode::Normal => {
            let ghost c = command@;
            let args = match command {
                GitCommand::CheckoutNewBranch(name) => vec!["checkout".to_owned(), "-b".to_owned(), name],
                GitCommand::Commit(message) => vec!["commit".to_owned(), "-m".to_owned(), message],
            };
            assert(views(args@) =~= command_args(c));
            Dispatch::RunGit(args)
        },
        RunMode::DryRun => {
            let mut text = "Going to run:\n".to_owned();
            text.append(line.as_str());
            Dispatch::Print(text)
        },
        RunMode::Copy => Dispatch::CopyToClipboard { program: copy_program.clone(), text: line },
        RunMode::DryRunAndCopy => {
            let mut text = "Going to run:\necho '".to_owned();
            text.append(line.as_str());
            text.append("' | ");
            text.append(copy_program.as_str());
            Dispatch::Print(text)
        },
    }
}

} // verus!
