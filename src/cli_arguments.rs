//! The positional command-line form: an operation word followed by its
//! arguments (`b <prefix-key>`, `c <values...>`, `set-commit <key> <template>`, ...).

use vstd::prelude::*;

use crate::config_file::get_path_to_config;
use crate::text::views;

verus! {

/// The raw command line: positional words, an optional configuration path,
/// and whether a template is to be used.
#[derive(Debug)]
pub struct CLIArguments {
    pub args: Vec<String>,
    pub config_path: Option<String>,
    pub use_template: bool,
}

/// The operation that the first word names.
#[derive(Debug, Clone, Copy, PartialEq, Eq, Structural)]
pub enum Operation {
    Commit,
    Branch,
    SetCommitFormat,
    SetBranchFormat,
    SetBranchPrefix,
    Delete,
    Show,
}

#[derive(Debug)]
pub struct BranchOperationArguments {
    pub branch_prefix_key: String,
}

#[derive(Debug)]
pub struct CommitOperationArguments {
    pub interpolation_values: Vec<String>,
}

#[derive(Debug)]
pub struct SetOperationArguments {
    pub key: String,
    pub value: String,
}

#[derive(Debug)]
pub struct DeleteOperationArguments {
    pub key: String,
}

#[derive(Debug)]
pub struct ShowOperationArguments {}

/// An operation with its arguments.
#[derive(Debug)]
pub enum ParsedCLIOperationWithArgs {
    Branch(BranchOperationArguments),
    Commit(CommitOperationArguments),
    SetBranchFormat(SetOperationArguments),
    SetCommitFormat(SetOperationArguments),
    SetBranchPrefix(SetOperationArguments),
    Delete(DeleteOperationArguments),
    Show(ShowOperationArguments),
}

/// The parsed command line.
#[derive(Debug)]
pub struct ParsedCLIArguments {
    pub operation_with_arguments: ParsedCLIOperationWithArgs,
    pub config_path: String,
    pub use_template: bool,
}

/// Why a command line was refused.
#[derive(Debug, Clone, Copy, PartialEq, Eq, Structural)]
pub enum CliError {
    /// No word was given.
    NoArguments,
    /// The first word names no operation.
    UnknownOperation,
    /// The operation needs more words than were given.
    TooFewArguments,
    /// No explicit path, and neither `XDG_CONFIG_HOME` nor `HOME` is set.
    NoConfigPath,
}

/// The operation that word `s` names.
pub open spec fn operation_named(s: Seq<char>) -> Option<Operation> {
    if s == "b"@ {
        Some(Operation::Branch)
    } else if s == "c"@ {
        Some(Operation::Commit)
    } else if s == "set-commit"@ {
        Some(Operation::SetCommitFormat)
    } else if s == "set-branch"@ {
        Some(Operation::SetBranchFormat)
    } else if s == "set-prefix"@ {
        Some(Operation::SetBranchPrefix)
    } else if s == "delete"@ {
        Some(Operation::Delete)
    } else if s == "show"@ {
        Some(Operation::Show)
    } else {
        None
    }
}

/// How many words, the operation word included, an operation needs.
pub open spec fn words_needed(op: Operation) -> nat {
    match op {
        Operation::Branch | Operation::Delete => 2,
        Operation::Commit | Operation::Show => 1,
        _ => 3,
    }
}

/// The arguments that operation `op` takes from the words `a`.
pub open spec fn operation_arguments(op: Operation, a: Seq<Seq<char>>) -> Seq<Seq<char>> {
    match op {
        Operation::Branch | Operation::Delete => seq![a[1]],
        Operation::Commit => a.subrange(1, a.len() as int),
        Operation::Show => Seq::empty(),
        _ => seq![a[1], a[2]],
    }
}

impl View for ParsedCLIOperationWithArgs {
    type V = (Operation, Seq<Seq<char>>);

    open spec fn view(&self) -> (Operation, Seq<Seq<char>>) {
        match self {
            ParsedCLIOperationWithArgs::Branch(b) => (Operation::Branch, seq![b.branch_prefix_key@]),
            ParsedCLIOperationWithArgs::Commit(c) => (
                Operation::Commit,
                views(c.interpolation_values@),
            ),
            ParsedCLIOperationWithArgs::SetBranchFormat(s) => (
                Operation::SetBranchFormat,
                seq![s.key@, s.value@],
            ),
            ParsedCLIOperationWithArgs::SetCommitFormat(s) => (
                Operation::SetCommitFormat,
                seq![s.key@, s.value@],
            ),
            ParsedCLIOperationWithArgs::SetBranchPrefix(s) => (
                Operation::SetBranchPrefix,
                seq![s.key@, s.value@],
            ),
            ParsedCLIOperationWithArgs::Delete(d) => (Operation::Delete, seq![d.key@]),
            ParsedCLIOperationWithArgs::Show(_) => (Operation::Show, Seq::empty()),
        }
    }
}

/// The outcome of parsing the words `a`.
pub open spec fn parse_outcome(a: Seq<Seq<char>>) -> Result<(Operation, Seq<Seq<char>>), CliError> {
    if a.len() == 0 {
        Err(CliError::NoArguments)
    } else {
        match operation_named(a[0]) {
            None => Err(CliError::UnknownOperation),
            Some(op) => if a.len() < words_needed(op) {
                Err(CliError::TooFewArguments)
            } else {
                Ok((op, operation_arguments(op, a)))
            },
        }
    }
}

fn is_word(s: &String, word: &str) -> (r: bool)
    ensures
        r == (s@ == word@),
{
    *s == word.to_owned()
}

/// Takes the key and the value (the second and third words) out of `value`.
pub fn validate_set_action(value: &mut Vec<String>) -> (r: SetOperationArguments)
    requires
        old(value)@.len() >= 3,
    ensures
        r.key@ == old(value)@[1]@,
        r.value@ == old(value)@[2]@,
        final(value)@ == old(value)@.remove(1).remove(1),
{
    let key = value.remove(1);
    let set_value = value.remove(1);
    SetOperationArguments { key, value: set_value }
}

impl ParsedCLIOperationWithArgs {
    /// Parses the words of the command line: the first names the operation,
    /// the rest are its arguments.
    pub fn from_args(value: Vec<String>) -> (r: Result<Self, CliError>)
        ensures
            match r {
                Ok(p) => parse_outcome(views(value@)) == Ok::<(Operation, Seq<Seq<char>>), CliError>(
                    p@,
                ),
                Err(e) => parse_outcome(views(value@)) == Err::<
                    (Operation, Seq<Seq<char>>),
                    CliError,
                >(e),
            },
    {
        let ghost a = views(value@);
        if value.len() < 1 {
            return Err(CliError::NoArguments);
        }
        let first_arg = &value[0];
        let operation = if is_word(first_arg, "b") {
            Operation::Branch
        } else if is_word(first_arg, "c") {
            Operation::Commit
        } else if is_word(first_arg, "set-commit") {
            Operation::SetCommitFormat
        } else if is_word(first_arg, "set-branch") {
            Operation::SetBranchFormat
        } else if is_word(first_arg, "set-prefix") {
            Operation::SetBranchPrefix
        } else if is_word(first_arg, "delete") {
            Operation::Delete
        } else if is_word(first_arg, "show") {
            Operation::Show
        } else {
            return Err(CliError::UnknownOperation);
        };
        assert(operation_named(a[0]) == Some(operation));
        let mut value = value;
        match operation {
            Operation::Branch | Operation::Delete => {
                if value.len() < 2 {
                    return Err(CliError::TooFewArguments);
                }
                let key = value.remove(1);
                if let Operation::Branch = operation {
                    let r = ParsedCLIOperationWithArgs::Branch(
                        BranchOperationArguments { branch_prefix_key: key },
                    );
                    assert(r@.1 =~= operation_arguments(operation, a));
                    Ok(r)
                } else {
                    let r = ParsedCLIOperationWithArgs::Delete(DeleteOperationArguments { key });
                    assert(r@.1 =~= operation_arguments(operation, a));
                    Ok(r)
                }
            },
            Operation::Commit => {
                let rest_of_args = value.split_off(1);
                let r = ParsedCLIOperationWithArgs::Commit(
                    CommitOperationArguments { interpolation_values: rest_of_args },
                );
                assert(r@.1 =~= operation_arguments(operation, a));
                Ok(r)
            },
            Operation::Show => {
                let r = ParsedCLIOperationWithArgs::Show(ShowOperationArguments {  });
                assert(r@.1 =~= operation_arguments(operation, a));
                Ok(r)
            },
            _ => {
                if value.len() < 3 {
                    return Err(CliError::TooFewArguments);
                }
                let set = validate_set_action(&mut value);
                let r = match operation {
                    Operation::SetBranchFormat => ParsedCLIOperationWithArgs::SetBranchFormat(set),
                    Operation::SetBranchPrefix => ParsedCLIOperationWithArgs::SetBranchPrefix(set),
                    _ => ParsedCLIOperationWithArgs::SetCommitFormat(set),
                };
                assert(r@.1 =~= operation_arguments(operation, a));
                Ok(r)
            },
        }
    }
}

impl ParsedCLIArguments {
    /// Parses the command line; the configuration path is the explicit one,
    /// else found from `XDG_CONFIG_HOME`, else from `HOME`.
    pub fn from_cli_arguments(
        value: CLIArguments,
        xdg_config_home: Option<String>,
        home: Option<String>,
    ) -> (r: Result<Self, CliError>)
        ensures
            parse_outcome(views(value.args@)) matches Err(e) ==> r == Err::<Self, CliError>(e),
            parse_outcome(views(value.args@)) is Ok ==> match crate::config_file::config_path_for(
                value.config_path,
                xdg_config_home,
                home,
            ) {
                None => r == Err::<Self, CliError>(CliError::NoConfigPath),
                Some(path) => r matches Ok(p) && parse_outcome(views(value.args@)) == Ok::<
                    (Operation, Seq<Seq<char>>),
                    CliError,
                >(p.operation_with_arguments@) && p.config_path@ == path && p.use_template
                    == value.use_template,
            },
    {
        let operation = match ParsedCLIOperationWithArgs::from_args(value.args) {
            Ok(op) => op,
            Err(e) => {
                return Err(e);
            },
        };
        let config_path = match get_path_to_config(value.config_path, xdg_config_home, home) {
            Some(path) => path,
            None => {
                return Err(CliError::NoConfigPath);
            },
        };
        Ok(
            ParsedCLIArguments {
                operation_with_arguments: operation,
                config_path,
                use_template: value.use_template,
            },
        )
    }
}

} // verus!
