//! Errors that the library reports to its callers.

use vstd::prelude::*;

verus! {

/// The kind of template that a check was about.
#[derive(Debug, Clone, Copy, PartialEq, Eq, Structural)]
pub enum TemplateKind {
    BranchTemplate,
    CommitTemplate,
}

/// What went wrong while resolving a template or a stored setting.
#[derive(Debug, Clone, Copy, PartialEq, Eq, Structural)]
pub enum HelperError {
    /// The template has `expected` placeholders but `received` values were given.
    CountMismatch { expected: usize, received: usize },
    /// Nothing is stored under the requested key.
    UnknownTemplateKey,
    /// The first line of the status text holds no digit.
    NoNumberFound,
    /// A template of this kind lacks the placeholder it needs.
    NoInterpolationMarker { template: TemplateKind },
    /// The clipboard does not hold a `git checkout -b <name>` command.
    InvalidCheckoutCommand,
}

} // verus!
