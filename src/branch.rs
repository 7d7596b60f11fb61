//! Branches: a new branch named from the clipboard with a stored prefix, or
//! from a stored template.

use vstd::prelude::*;

use crate::cli::{CheckoutToPrefix, DryRunAndCopyFlag, UseTemplate};
use crate::error::HelperError;
use crate::git_config::GitConfig;
use crate::patterns::{checkout_pattern, checkout_prefix, is_checkout_command, regex_is_match};
use crate::run_mode::{
    dispatch,
    dispatch_view,
    get_run_mode_from_options,
    run_mode_of,
    CommandView,
    Dispatch,
    GitCommand,
};
use crate::template::{
    interpolate,
    interpolation,
    placeholder_count,
    positional_marker,
    validate_interpolation_places_count,
};
use crate::text::views;
use crate::variants::lookup;

verus! {

/// The branch name that `prefix` and a checkout command taken from the
/// clipboard give: the prefix, then the name that the command holds.
pub open spec fn prefixed_branch_name(prefix: Seq<char>, clipboard: Seq<char>) -> Seq<char> {
    prefix + clipboard.subrange(checkout_prefix().len() as int, clipboard.len() as int)
}

/// Plans `git checkout -b <prefix><name>`, where the clipboard holds
/// `git checkout -b <name>` and the prefix is stored under `options.prefix_key`.
pub fn checkout_to_branch_with_prefix(
    options: CheckoutToPrefix,
    config: GitConfig,
    clipboard_text: String,
) -> (r: Result<Dispatch, HelperError>)
    ensures
        !is_checkout_command(clipboard_text@) ==> r == Err::<Dispatch, HelperError>(
            HelperError::InvalidCheckoutCommand,
        ),
        is_checkout_command(clipboard_text@) && lookup(
            config.data.branch_prefix_variants@,
            options.prefix_key@,
        ) is None ==> r == Err::<Dispatch, HelperError>(HelperError::UnknownTemplateKey),
        is_checkout_command(clipboard_text@) ==> (lookup(
            config.data.branch_prefix_variants@,
            options.prefix_key@,
        ) matches Some(p) ==> (r matches Ok(d) && d@ == dispatch_view(
            CommandView::CheckoutNewBranch(prefixed_branch_name(p, clipboard_text@)),
            run_mode_of(options.copy, options.dry_run),
            config.data.clipboard_commands.copy@,
        ))),
{
    proof {
        reveal_strlit("git checkout -b ");
    }
    if !regex_is_match("^git checkout -b [a-zA-Z0-9_.-]+$", clipboard_text.as_str()) {
        return Err(HelperError::InvalidCheckoutCommand);
    }
    let prefix_found = match config.get_branch_prefix(&options.prefix_key) {
        None => {
            return Err(HelperError::UnknownTemplateKey);
        },
        Some(prefix) => prefix,
    };
    let after_prefix = clipboard_text.as_str().substring_char(16, clipboard_text.unicode_len());
    let mut full_branch_name = prefix_found.clone();
    full_branch_name.append(after_prefix);
    let run_mode = get_run_mode_from_options(
        DryRunAndCopyFlag { dry_run: options.dry_run, copy: options.copy },
    );
    Ok(
        dispatch(
            GitCommand::CheckoutNewBranch(full_branch_name),
            run_mode,
            &config.data.clipboard_commands.copy,
        ),
    )
}

/// Plans `git checkout -b <name>`, where the name is the branch template
/// stored under `options.key` filled with `options.interpolate_values`.
pub fn checkout_to_branch_with_template(options: UseTemplate, config: GitConfig) -> (r: Result<
    Dispatch,
    HelperError,
>)
    ensures
        lookup(config.data.branch_template_variants@, options.key@) is None ==> r == Err::<
            Dispatch,
            HelperError,
        >(HelperError::UnknownTemplateKey),
        lookup(config.data.branch_template_variants@, options.key@) matches Some(t) ==> ({
            let n = options.interpolate_values@.len();
            let c = placeholder_count(t, positional_marker());
            &&& c != n ==> r == Err::<Dispatch, HelperError>(
                HelperError::CountMismatch { expected: c as usize, received: n as usize },
            )
            &&& c == n ==> (r matches Ok(d) && d@ == dispatch_view(
                CommandView::CheckoutNewBranch(
                    interpolation(t, positional_marker(), views(options.interpolate_values@)),
                ),
                run_mode_of(options.copy, options.dry_run),
                config.data.clipboard_commands.copy@,
            ))
        }),
{
    let picked_branch_format = match config.get_branch_template(&options.key) {
        None => {
            return Err(HelperError::UnknownTemplateKey);
        },
        Some(format) => format,
    };
    let checked = validate_interpolation_places_count(
        picked_branch_format,
        options.interpolate_values.len(),
    );
    if let Err(e) = checked {
        return Err(e);
    }
    let interpolated_branch = match interpolate(picked_branch_format, options.interpolate_values) {
        Ok(name) => name,
        Err(e) => {
            return Err(e);
        },
    };
    let run_mode = get_run_mode_from_options(
        DryRunAndCopyFlag { dry_run: options.dry_run, copy: options.copy },
    );
    Ok(
        dispatch(
            GitCommand::CheckoutNewBranch(interpolated_branch),
            run_mode,
            &config.data.clipboard_commands.copy,
        ),
    )
}

} // verus!
