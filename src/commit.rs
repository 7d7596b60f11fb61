//! Commits: the number of the current branch, and the commit message built
//! from a stored template.

use vstd::prelude::*;

use crate::cli::{CommitOperationArguments, DryRunAndCopyFlag};
use crate::error::{HelperError, TemplateKind};
use crate::git_config::GitConfig;
use crate::run_mode::{
    dispatch,
    dispatch_view,
    get_run_mode_from_options,
    run_mode_of,
    CommandView,
    Dispatch,
    GitCommand,
};
use crate::template::{
    derived_marker,
    interpolate,
    interpolate_on_custom_val,
    interpolation,
    placeholder_count,
    positional_marker,
    validate_interpolation_places_count,
    validate_interpolation_places_on_custom_pattern,
};
use crate::text::{push_char, views};
use crate::variants::lookup;

verus! {

/// The byte of a line feed.
pub const LINE_FEED: u8 = 10;

/// Whether `c` is an ASCII digit.
pub open spec fn is_ascii_digit(c: u8) -> bool {
    48 <= c <= 57
}

/// The position of the first line feed in `b` at or after `i`, or the length
/// of `b` when there is none.
pub open spec fn line_end_from(b: Seq<u8>, i: int) -> int
    decreases b.len() - i,
{
    if i >= b.len() || b[i] == LINE_FEED {
        i
    } else {
        line_end_from(b, i + 1)
    }
}

/// The first line of `b`, without its line feed.
pub open spec fn first_line(b: Seq<u8>) -> Seq<u8> {
    b.subrange(0, line_end_from(b, 0))
}

/// The ASCII digits of `b`, in order, as characters.
pub open spec fn digits_in(b: Seq<u8>) -> Seq<char>
    decreases b.len(),
{
    if b.len() == 0 {
        Seq::empty()
    } else {
        let rest = digits_in(b.drop_last());
        if is_ascii_digit(b.last()) {
            rest.push(b.last() as char)
        } else {
            rest
        }
    }
}

/// The number of the current branch: the digits of the first line of the
/// status text (the line that names the branch).
pub open spec fn branch_number(status: Seq<u8>) -> Seq<char> {
    digits_in(first_line(status))
}

proof fn lemma_line_end_past(line: Seq<u8>, s: Seq<u8>, i: int)
    requires
        0 <= i <= line.len(),
        line.len() < s.len(),
        s[line.len() as int] == LINE_FEED,
        forall|k: int| 0 <= k < line.len() ==> s[k] == line[k] && line[k] != LINE_FEED,
    ensures
        line_end_from(s, i) == line.len(),
    decreases line.len() - i,
{
    if i < line.len() {
        lemma_line_end_past(line, s, i + 1);
    }
}

/// The branch number comes from the first line alone: whatever follows the
/// first line feed, digits included, does not change it.
pub proof fn lemma_branch_number_reads_first_line_only(line: Seq<u8>, rest: Seq<u8>)
    requires
        forall|k: int| 0 <= k < line.len() ==> line[k] != LINE_FEED,
    ensures
        branch_number(line + seq![LINE_FEED] + rest) == digits_in(line),
{
    let s = line + seq![LINE_FEED] + rest;
    lemma_line_end_past(line, s, 0);
    assert(first_line(s) =~= line);
}

/// Collects the digits of the first line of `git status` output. Digits on
/// later lines (file names, for instance) are not looked at.
pub fn get_branch_number_from_git_status_output(git_status_output: Vec<u8>) -> (r: Result<
    String,
    HelperError,
>)
    ensures
        branch_number(git_status_output@).len() == 0 <==> r matches Err(HelperError::NoNumberFound),
        branch_number(git_status_output@).len() > 0 <==> (r matches Ok(s) && s@ == branch_number(
            git_status_output@,
        )),
{
    let b = &git_status_output;
    let n = b.len();
    let mut end: usize = 0;
    while end < n && b[end] != LINE_FEED
        invariant
            n == b@.len(),
            end <= n,
            line_end_from(b@, end as int) == line_end_from(b@, 0),
        decreases n - end,
    {
        end = end + 1;
    }
    let mut number = String::new();
    let mut i: usize = 0;
    while i < end
        invariant
            end == line_end_from(b@, 0),
            end <= n == b@.len(),
            i <= end,
            number@ == digits_in(b@.subrange(0, i as int)),
        decreases end - i,
    {
        let c = b[i];
        proof {
            assert(b@.subrange(0, i + 1).drop_last() =~= b@.subrange(0, i as int));
        }
        if 48 <= c && c <= 57 {
            push_char(&mut number, c as char);
        }
        i = i + 1;
    }
    proof {
        assert(b@.subrange(0, end as int) =~= first_line(b@));
    }
    if number.unicode_len() == 0 {
        Err(HelperError::NoNumberFound)
    } else {
        Ok(number)
    }
}

/// The outcome of building a commit message from template `t` and `vals`.
/// With `status`, the branch's number then fills the one derived placeholder.
pub open spec fn commit_message_outcome(
    t: Seq<char>,
    vals: Seq<Seq<char>>,
    status: Option<Seq<u8>>,
) -> Result<Seq<char>, HelperError> {
    let c = placeholder_count(t, positional_marker());
    if c != vals.len() {
        Err(HelperError::CountMismatch { expected: c as usize, received: vals.len() as usize })
    } else {
        let message = interpolation(t, positional_marker(), vals);
        match status {
            None => Ok(message),
            Some(s) => {
                let number = branch_number(s);
                let d = placeholder_count(message, derived_marker());
                if number.len() == 0 {
                    Err(HelperError::NoNumberFound)
                } else if d == 0 {
                    Err(HelperError::NoInterpolationMarker { template: TemplateKind::CommitTemplate })
                } else if d != 1 {
                    Err(HelperError::CountMismatch { expected: d as usize, received: 1 })
                } else {
                    Ok(interpolation(message, derived_marker(), seq![number]))
                }
            },
        }
    }
}

/// A result over character sequences.
pub open spec fn result_view(r: Result<String, HelperError>) -> Result<Seq<char>, HelperError> {
    match r {
        Ok(s) => Ok(s@),
        Err(e) => Err(e),
    }
}

/// The status text that the commit uses: none unless the branch's number is
/// wanted, and no text when none was read.
pub open spec fn status_for(use_branch_number: bool, git_status: Option<Vec<u8>>) -> Option<
    Seq<u8>,
> {
    if use_branch_number {
        match git_status {
            Some(b) => Some(b@),
            None => Some(Seq::empty()),
        }
    } else {
        None
    }
}

/// Builds a commit message: fills the positional placeholders of `template`
/// with `values`, then, given status text, the derived placeholder `{b}` with
/// the number of the current branch.
pub fn format_commit_message(
    template: &String,
    values: Vec<String>,
    branch_status: Option<&Vec<u8>>,
) -> (r: Result<String, HelperError>)
    ensures
        result_view(r) == commit_message_outcome(
            template@,
            views(values@),
            match branch_status {
                Some(b) => Some(b@),
                None => None,
            },
        ),
{
    let checked = validate_interpolation_places_count(template, values.len());
    if let Err(e) = checked {
        return Err(e);
    }
    let message = match interpolate(template, values) {
        Ok(m) => m,
        Err(e) => {
            return Err(e);
        },
    };
    match branch_status {
        None => Ok(message),
        Some(status) => {
            let number = match get_branch_number_from_git_status_output(status.clone()) {
                Ok(n) => n,
                Err(e) => {
                    return Err(e);
                },
            };
            proof {
                reveal_strlit("{b}");
                assert("{b}"@ =~= derived_marker());
            }
            match validate_interpolation_places_on_custom_pattern(&message, 1, "{b}") {
                Ok(()) => {},
                Err(HelperError::CountMismatch { expected: 0, received: _ }) => {
                    return Err(
                        HelperError::NoInterpolationMarker { template: TemplateKind::CommitTemplate },
                    );
                },
                Err(e) => {
                    return Err(e);
                },
            }
            let ghost number_view = number@;
            let numbers = vec![number];
            assert(views(numbers@) =~= seq![number_view]);
            interpolate_on_custom_val(&message, numbers, "{b}")
        },
    }
}

/// Plans `git commit -m "<message>"`, where the message is the commit template
/// stored under the chosen key, filled as `format_commit_message` fills it.
/// `git_status` is the output of `git status`, read when the branch's number
/// is wanted.
pub fn commit_with_formatted_message(
    options: CommitOperationArguments,
    config: GitConfig,
    git_status: Option<Vec<u8>>,
) -> (r: Result<Dispatch, HelperError>)
    ensures
        lookup(config.data.commit_template_variants@, options.use_template.key@) is None ==> r
            == Err::<Dispatch, HelperError>(HelperError::UnknownTemplateKey),
        lookup(config.data.commit_template_variants@, options.use_template.key@) matches Some(t)
            ==> match commit_message_outcome(
            t,
            views(options.use_template.interpolate_values@),
            status_for(options.flags.use_branch_number, git_status),
        ) {
            Err(e) => r == Err::<Dispatch, HelperError>(e),
            Ok(m) => r matches Ok(d) && d@ == dispatch_view(
                CommandView::Commit(m),
                run_mode_of(options.flags.copy, options.flags.dry_run),
                config.data.clipboard_commands.copy@,
            ),
        },
{
    let picked_commit_format = match config.get_commit_template(&options.use_template.key) {
        None => {
            return Err(HelperError::UnknownTemplateKey);
        },
        Some(format) => format,
    };
    let empty: Vec<u8> = Vec::new();
    let status = if options.flags.use_branch_number {
        match &git_status {
            Some(b) => Some(b),
            None => Some(&empty),
        }
    } else {
        None
    };
    let message = match format_commit_message(
        picked_commit_format,
        options.use_template.interpolate_values,
        status,
    ) {
        Ok(m) => m,
        Err(e) => {
            return Err(e);
        },
    };
    let run_mode = get_run_mode_from_options(
        DryRunAndCopyFlag { dry_run: options.flags.dry_run, copy: options.flags.copy },
    );
    Ok(dispatch(GitCommand::Commit(message), run_mode, &config.data.clipboard_commands.copy))
}

} // verus!
