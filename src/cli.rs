//! Arguments of the operations, as the command line hands them over.

use vstd::prelude::*;

verus! {

/// The operations that the command line offers.
#[derive(Debug, Clone, Copy, PartialEq, Eq, Structural)]
pub enum Operation {
    Commit,
    BranchFromClipboard,
    BranchFromTemplate,
    SetCommitFormat,
    SetBranchFormat,
    SetBranchPrefix,
    Show,
}

/// A key and the template or prefix to store under it.
#[derive(Debug)]
pub struct SetFormat {
    pub key: String,
    pub value: String,
}

/// Check out a branch named from the clipboard, with the prefix stored under `prefix_key`.
#[derive(Debug)]
pub struct CheckoutToPrefix {
    pub prefix_key: String,
    pub copy: bool,
    pub dry_run: bool,
}

/// The two independent flags that select a run mode.
#[derive(Debug, Clone, Copy, PartialEq, Eq, Structural)]
pub struct DryRunAndCopyFlag {
    pub dry_run: bool,
    pub copy: bool,
}

/// Use the template stored under `key` with the given positional values.
#[derive(Debug)]
pub struct UseTemplate {
    pub key: String,
    pub interpolate_values: Vec<String>,
    pub use_autocomplete: bool,
    pub copy: bool,
    pub dry_run: bool,
}

/// Flags of the commit operation.
#[derive(Debug, Clone, Copy, PartialEq, Eq, Structural)]
pub struct CommitSubcommandFlags {
    pub use_branch_number: bool,
    pub copy: bool,
    pub dry_run: bool,
}

/// Arguments of the commit operation.
#[derive(Debug)]
pub struct CommitOperationArguments {
    pub use_template: UseTemplate,
    pub flags: CommitSubcommandFlags,
}

/// The programs that copy to and paste from the clipboard.
#[derive(Debug)]
pub struct SetClipboardCommands {
    pub copy: String,
    pub paste: String,
}

/// An operation together with its arguments.
#[derive(Debug)]
pub enum OperationWithArguments {
    Commit(CommitOperationArguments),
    BranchFromClipboard(CheckoutToPrefix),
    BranchFromTemplate(UseTemplate),
    SetCommitFormat(SetFormat),
    SetBranchFormat(SetFormat),
    SetBranchPrefix(SetFormat),
    SetClipboardCommands(SetClipboardCommands),
    Show,
    GenerateAutocompletionScript(String),
}

/// What the command line asked for, and where the configuration lives.
#[derive(Debug)]
pub struct ParsedArguments {
    pub operation_with_arguments: OperationWithArguments,
    pub path_to_config: String,
}

} // verus!
