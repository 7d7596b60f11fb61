use git_helpe_rs::branch::{checkout_to_branch_with_prefix, checkout_to_branch_with_template};
use git_helpe_rs::cli::{CheckoutToPrefix, SetFormat, UseTemplate};
use git_helpe_rs::error::HelperError;
use git_helpe_rs::git_config::GitConfig;
use git_helpe_rs::run_mode::Dispatch;

fn config() -> GitConfig {
    let mut config = GitConfig::default_config(String::from("/tmp/git-helpe-rs-test-config"));
    config.set_branch_prefix_variant(String::from("f"), String::from("feature/")).unwrap();
    config
        .set_branch_template_variant(SetFormat {
            key: String::from("fu"),
            value: String::from("feature-{}/utils-{}"),
        })
        .unwrap();
    config
}

fn prefix_options(key: &str, copy: bool, dry_run: bool) -> CheckoutToPrefix {
    CheckoutToPrefix { prefix_key: String::from(key), copy, dry_run }
}

fn template_options(key: &str, values: &[&str], copy: bool, dry_run: bool) -> UseTemplate {
    UseTemplate {
        key: String::from(key),
        interpolate_values: values.iter().map(|v| String::from(*v)).collect(),
        use_autocomplete: false,
        copy,
        dry_run,
    }
}

#[test]
fn prefix_and_clipboard_command_give_prefixed_checkout() {
    let plan = checkout_to_branch_with_prefix(
        prefix_options("f", false, false),
        config(),
        String::from("git checkout -b name-of-your-branch"),
    );
    match plan {
        Ok(Dispatch::RunGit(args)) => {
            assert_eq!(args, vec!["checkout", "-b", "feature/name-of-your-branch"])
        }
        other => panic!("unexpected plan {:?}", other),
    }
}

#[test]
fn prefix_checkout_in_dry_run_and_copy_mode() {
    let plan = checkout_to_branch_with_prefix(
        prefix_options("f", true, true),
        config(),
        String::from("git checkout -b fix_1.2-a"),
    );
    match plan {
        Ok(Dispatch::Print(text)) => {
            assert_eq!(text, "Going to run:\necho 'git checkout -b feature/fix_1.2-a' | pbcopy")
        }
        other => panic!("unexpected plan {:?}", other),
    }
}

#[test]
fn clipboard_without_checkout_command_is_refused() {
    for text in [
        "git checkout -b ",
        "git checkout -b two words",
        "git checkout -b name\n",
        "echo git checkout -b name",
        "git checkout -b na/me",
    ] {
        let plan = checkout_to_branch_with_prefix(prefix_options("f", false, false), config(), String::from(text));
        assert!(matches!(plan, Err(HelperError::InvalidCheckoutCommand)), "{:?}", text);
    }
}

#[test]
fn unknown_prefix_key_is_refused() {
    let plan = checkout_to_branch_with_prefix(
        prefix_options("missing", false, false),
        config(),
        String::from("git checkout -b name"),
    );
    assert!(matches!(plan, Err(HelperError::UnknownTemplateKey)));
}

#[test]
fn branch_template_is_filled_and_checked_out() {
    let plan = checkout_to_branch_with_template(
        template_options("fu", &["123", "new-cli"], false, false),
        config(),
    );
    match plan {
        Ok(Dispatch::RunGit(args)) => {
            assert_eq!(args, vec!["checkout", "-b", "feature-123/utils-new-cli"])
        }
        other => panic!("unexpected plan {:?}", other),
    }
}

#[test]
fn branch_template_copy_mode() {
    let plan = checkout_to_branch_with_template(template_options("fu", &["1", "x"], true, false), config());
    match plan {
        Ok(Dispatch::CopyToClipboard { program, text }) => {
            assert_eq!(program, "pbcopy");
            assert_eq!(text, "git checkout -b feature-1/utils-x");
        }
        other => panic!("unexpected plan {:?}", other),
    }
}

#[test]
fn branch_template_with_wrong_value_count_is_refused() {
    let plan = checkout_to_branch_with_template(template_options("fu", &["123"], false, false), config());
    assert!(matches!(plan, Err(HelperError::CountMismatch { expected: 2, received: 1 })));
}

#[test]
fn branch_template_with_unknown_key_is_refused() {
    let plan = checkout_to_branch_with_template(template_options("nope", &[], false, false), config());
    assert!(matches!(plan, Err(HelperError::UnknownTemplateKey)));
}
