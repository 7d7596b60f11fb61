//! The stored configuration: clipboard programs and the three variant maps
//! (branch prefixes, branch templates, commit templates).

use vstd::prelude::*;

use crate::cli::{CommitOperationArguments, SetClipboardCommands, SetFormat, UseTemplate};
use crate::error::{HelperError, TemplateKind};
use crate::patterns::{has_braced_span, placeholder_pattern, regex_is_match};
use crate::text::{debug_quoted, debug_text};
use crate::variants::{lookup, with_entry, without_key, Pair, Variants};

verus! {

/// The programs that copy to and paste from the clipboard.
#[derive(Debug)]
pub struct ClipboardCommands {
    pub copy: String,
    pub paste: String,
}

/// Everything that is persisted.
#[derive(Debug)]
pub struct Data {
    pub clipboard_commands: ClipboardCommands,
    pub commit_template_variants: Variants,
    pub branch_template_variants: Variants,
    pub branch_prefix_variants: Variants,
    pub autocomplete_values: Option<Vec<String>>,
}

/// The configuration and the file it is persisted to.
#[derive(Debug)]
pub struct GitConfig {
    pub data: Data,
    pub config_path: String,
}

/// The two template maps.
#[derive(Debug)]
pub struct Templates {
    pub commit_template_variants: Variants,
    pub branch_template_variants: Variants,
}

/// An action that takes a template.
#[derive(Debug)]
pub enum BranchOrCommitAction {
    Commit(CommitOperationArguments),
    BranchFromTemplate(UseTemplate),
}

/// `key: value`, each as `{:?}` shows it.
pub open spec fn pair_text(e: Pair) -> Seq<char> {
    debug_text(e.0) + ": "@ + debug_text(e.1)
}

/// The first `k` pairs, separated by `, `.
pub open spec fn pairs_text(p: Seq<Pair>, k: int) -> Seq<char>
    decreases k,
{
    if k <= 0 {
        Seq::empty()
    } else if k == 1 {
        pair_text(p[0])
    } else {
        pairs_text(p, k - 1) + ", "@ + pair_text(p[k - 1])
    }
}

/// A variant map as `{key: value, ...}`, in stored order.
pub open spec fn map_text(p: Seq<Pair>) -> Seq<char> {
    "{"@ + pairs_text(p, p.len() as int) + "}"@
}

/// The text that `display_config` shows.
pub open spec fn config_text(d: Data) -> Seq<char> {
    "clipboard commands: {\n    \"copy\": "@ + debug_text(d.clipboard_commands.copy@)
        + "\n    \"paste\": "@ + debug_text(d.clipboard_commands.paste@) + "\n}\nbranch formats: "@
        + map_text(d.branch_template_variants@) + "\ncommit formats: "@ + map_text(
        d.commit_template_variants@,
    ) + "\nbranch prefixes: "@ + map_text(d.branch_prefix_variants@) + "\n"@
}

fn map_description(v: &Variants) -> (r: String)
    ensures
        r@ == map_text(v@),
{
    let mut out = "{".to_owned();
    let mut i: usize = 0;
    while i < v.len()
        invariant
            i <= v@.len(),
            out@ == "{"@ + pairs_text(v@, i as int),
        decreases v@.len() - i,
    {
        let (key, value) = v.entry(i);
        if i > 0 {
            out.append(", ");
        }
        out.append(debug_quoted(key.as_str()).as_str());
        out.append(": ");
        out.append(debug_quoted(value.as_str()).as_str());
        proof {
            assert(pairs_text(v@, 0) =~= Seq::<char>::empty());
        }
        assert(out@ =~= "{"@ + pairs_text(v@, i + 1));
        i = i + 1;
    }
    out.append("}");
    out
}

impl Data {
    /// An empty configuration that copies with `pbcopy` and pastes with `pbpaste`.
    pub fn default() -> (r: Self)
        ensures
            r.clipboard_commands.copy@ == "pbcopy"@,
            r.clipboard_commands.paste@ == "pbpaste"@,
            r.commit_template_variants@.len() == 0,
            r.branch_template_variants@.len() == 0,
            r.branch_prefix_variants@.len() == 0,
            r.autocomplete_values is None,
    {
        Data {
            clipboard_commands: ClipboardCommands {
                copy: "pbcopy".to_owned(),
                paste: "pbpaste".to_owned(),
            },
            commit_template_variants: Variants::new(),
            branch_template_variants: Variants::new(),
            branch_prefix_variants: Variants::new(),
            autocomplete_values: None,
        }
    }
}

impl GitConfig {
    /// The default configuration, persisted to `config_path`.
    pub fn default_config(config_path: String) -> (r: Self)
        ensures
            r.config_path == config_path,
            r.data.clipboard_commands.copy@ == "pbcopy"@,
            r.data.clipboard_commands.paste@ == "pbpaste"@,
            r.data.commit_template_variants@.len() == 0,
            r.data.branch_template_variants@.len() == 0,
            r.data.branch_prefix_variants@.len() == 0,
            r.data.autocomplete_values is None,
    {
        GitConfig { data: Data::default(), config_path }
    }

    /// A configuration made of the given parts, persisted to `config_path`.
    pub fn new_config(
        clipboard_commands: ClipboardCommands,
        branch_prefix_variants: Variants,
        branch_format_variants: Variants,
        commit_format_variants: Variants,
        config_path: String,
    ) -> (r: Self)
        ensures
            r.config_path == config_path,
            r.data.clipboard_commands == clipboard_commands,
            r.data.branch_prefix_variants == branch_prefix_variants,
            r.data.branch_template_variants == branch_format_variants,
            r.data.commit_template_variants == commit_format_variants,
            r.data.autocomplete_values is None,
    {
        GitConfig {
            data: Data {
                clipboard_commands,
                branch_template_variants: branch_format_variants,
                commit_template_variants: commit_format_variants,
                branch_prefix_variants,
                autocomplete_values: None,
            },
            config_path,
        }
    }

    /// The file the configuration is persisted to.
    pub fn config_path(&self) -> (r: &String)
        ensures
            *r == self.config_path,
    {
        &self.config_path
    }

    /// The prefix stored under `key`.
    pub fn get_branch_prefix(&self, key: &String) -> (r: Option<&String>)
        ensures
            r is None <==> lookup(self.data.branch_prefix_variants@, key@) is None,
            r matches Some(v) ==> lookup(self.data.branch_prefix_variants@, key@) == Some(v@),
    {
        self.data.branch_prefix_variants.get(key)
    }

    /// The branch template stored under `key`.
    pub fn get_branch_template(&self, key: &String) -> (r: Option<&String>)
        ensures
            r is None <==> lookup(self.data.branch_template_variants@, key@) is None,
            r matches Some(v) ==> lookup(self.data.branch_template_variants@, key@) == Some(v@),
    {
        self.data.branch_template_variants.get(key)
    }

    /// The commit template stored under `key`.
    pub fn get_commit_template(&self, key: &String) -> (r: Option<&String>)
        ensures
            r is None <==> lookup(self.data.commit_template_variants@, key@) is None,
            r matches Some(v) ==> lookup(self.data.commit_template_variants@, key@) == Some(v@),
    {
        self.data.commit_template_variants.get(key)
    }

    /// The clipboard programs.
    pub fn get_clipboard_commands(&self) -> (r: &ClipboardCommands)
        ensures
            *r == self.data.clipboard_commands,
    {
        &self.data.clipboard_commands
    }

    /// Accepts `string_to_interpolate` if it holds a placeholder: a `{`
    /// followed, on the same line, by a `}`.
    pub fn validate_against_interpolation_regex<'a>(
        string_to_interpolate: &'a String,
        name_of_field_to_check: TemplateKind,
    ) -> (r: Result<&'a String, HelperError>)
        ensures
            has_braced_span(string_to_interpolate@) <==> r is Ok,
            r matches Ok(s) ==> s == string_to_interpolate,
            r is Err ==> r == Err::<&String, HelperError>(
                HelperError::NoInterpolationMarker { template: name_of_field_to_check },
            ),
    {
        if regex_is_match("\\{.*?\\}", string_to_interpolate.as_str()) {
            Ok(string_to_interpolate)
        } else {
            Err(HelperError::NoInterpolationMarker { template: name_of_field_to_check })
        }
    }

    /// Stores a branch template, which must hold a placeholder.
    pub fn set_branch_template_variant(&mut self, arg: SetFormat) -> (r: Result<(), HelperError>)
        ensures
            has_braced_span(arg.value@) <==> r is Ok,
            r is Ok ==> final(self).data == (Data {
                branch_template_variants: final(self).data.branch_template_variants,
                ..old(self).data
            }) && final(self).data.branch_template_variants@ == with_entry(
                old(self).data.branch_template_variants@,
                arg.key@,
                arg.value@,
            ),
            r is Err ==> *final(self) == *old(self),
            r is Err ==> r == Err::<(), HelperError>(
                HelperError::NoInterpolationMarker { template: TemplateKind::BranchTemplate },
            ),
            final(self).config_path == old(self).config_path,
    {
        let checked = Self::validate_against_interpolation_regex(&arg.value, TemplateKind::BranchTemplate);
        match checked {
            Err(e) => Err(e),
            Ok(_) => {
                self.data.branch_template_variants.insert(arg.key, arg.value);
                Ok(())
            },
        }
    }

    /// Stores a commit template, which must hold a placeholder.
    pub fn set_commit_template_variant(&mut self, arg: SetFormat) -> (r: Result<(), HelperError>)
        ensures
            has_braced_span(arg.value@) <==> r is Ok,
            r is Ok ==> final(self).data == (Data {
                commit_template_variants: final(self).data.commit_template_variants,
                ..old(self).data
            }) && final(self).data.commit_template_variants@ == with_entry(
                old(self).data.commit_template_variants@,
                arg.key@,
                arg.value@,
            ),
            r is Err ==> *final(self) == *old(self),
            r is Err ==> r == Err::<(), HelperError>(
                HelperError::NoInterpolationMarker { template: TemplateKind::CommitTemplate },
            ),
            final(self).config_path == old(self).config_path,
    {
        let checked = Self::validate_against_interpolation_regex(&arg.value, TemplateKind::CommitTemplate);
        match checked {
            Err(e) => Err(e),
            Ok(_) => {
                self.data.commit_template_variants.insert(arg.key, arg.value);
                Ok(())
            },
        }
    }

    /// Stores a branch prefix.
    pub fn set_branch_prefix_variant(&mut self, key: String, value: String) -> (r: Result<
        (),
        HelperError,
    >)
        ensures
            r is Ok,
            final(self).data == (Data {
                branch_prefix_variants: final(self).data.branch_prefix_variants,
                ..old(self).data
            }),
            final(self).data.branch_prefix_variants@ == with_entry(
                old(self).data.branch_prefix_variants@,
                key@,
                value@,
            ),
            final(self).config_path == old(self).config_path,
    {
        self.data.branch_prefix_variants.insert(key, value);
        Ok(())
    }

    /// Replaces the clipboard programs.
    pub fn set_clipboard_command(&mut self, args: SetClipboardCommands) -> (r: Result<
        (),
        HelperError,
    >)
        ensures
            r is Ok,
            final(self).data == (Data {
                clipboard_commands: ClipboardCommands { copy: args.copy, paste: args.paste },
                ..old(self).data
            }),
            final(self).config_path == old(self).config_path,
    {
        let new_clipboard_commands = ClipboardCommands { copy: args.copy, paste: args.paste };
        self.data.clipboard_commands = new_clipboard_commands;
        Ok(())
    }

    /// Removes the prefix stored under `key`, handing back what was stored.
    pub fn delete_branch_prefix_variant(&mut self, key: String) -> (r: Option<String>)
        ensures
            final(self).data == (Data {
                branch_prefix_variants: final(self).data.branch_prefix_variants,
                ..old(self).data
            }),
            final(self).data.branch_prefix_variants@ == without_key(
                old(self).data.branch_prefix_variants@,
                key@,
            ),
            r is None <==> lookup(old(self).data.branch_prefix_variants@, key@) is None,
            r matches Some(v) ==> lookup(old(self).data.branch_prefix_variants@, key@) == Some(v@),
            final(self).config_path == old(self).config_path,
    {
        self.data.branch_prefix_variants.remove(&key)
    }

    /// The clipboard programs and the three variant maps, as text.
    pub fn display_config(&self) -> (r: Result<String, HelperError>)
        ensures
            r matches Ok(s) && s@ == config_text(self.data),
    {
        let d = &self.data;
        let mut out = "clipboard commands: {\n    \"copy\": ".to_owned();
        out.append(debug_quoted(d.clipboard_commands.copy.as_str()).as_str());
        out.append("\n    \"paste\": ");
        out.append(debug_quoted(d.clipboard_commands.paste.as_str()).as_str());
        out.append("\n}\nbranch formats: ");
        out.append(map_description(&d.branch_template_variants).as_str());
        out.append("\ncommit formats: ");
        out.append(map_description(&d.commit_template_variants).as_str());
        out.append("\nbranch prefixes: ");
        out.append(map_description(&d.branch_prefix_variants).as_str());
        out.append("\n");
        Ok(out)
    }
}

} // verus!
