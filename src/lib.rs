//! Branch and commit naming helpers for git: templates with positional and
//! derived placeholders, the number of the current branch, run-mode
//! resolution and dispatch planning, and the stored configuration that holds
//! prefixes and templates.

pub mod branch;
pub mod cli;
pub mod cli_arguments;
pub mod commit;
pub mod config_file;
pub mod error;
pub mod git_config;
pub mod patterns;
pub mod run_mode;
pub mod template;
pub mod text;
pub mod variants;
