use git_helpe_rs::cli::{SetClipboardCommands, SetFormat};
use git_helpe_rs::config_file::get_path_to_config;
use git_helpe_rs::error::{HelperError, TemplateKind};
use git_helpe_rs::git_config::{ClipboardCommands, Data, GitConfig};
use git_helpe_rs::variants::Variants;

fn set(key: &str, value: &str) -> SetFormat {
    SetFormat { key: String::from(key), value: String::from(value) }
}

fn pairs(v: &Variants) -> Vec<(String, String)> {
    (0..v.len()).map(|i| {
        let (k, val) = v.entry(i);
        (k.clone(), val.clone())
    }).collect()
}

#[test]
fn variants_keep_first_insertion_order_and_replace_in_place() {
    let mut v = Variants::new();
    v.insert(String::from("a"), String::from("1"));
    v.insert(String::from("b"), String::from("2"));
    v.insert(String::from("a"), String::from("3"));
    assert_eq!(v.len(), 2);
    assert_eq!(v.get(&String::from("a")), Some(&String::from("3")));
    assert_eq!(v.get(&String::from("b")), Some(&String::from("2")));
    assert_eq!(v.get(&String::from("c")), None);
    assert_eq!(
        pairs(&v),
        vec![(String::from("a"), String::from("3")), (String::from("b"), String::from("2"))]
    );
}

#[test]
fn variants_remove_hands_back_the_value() {
    let mut v = Variants::new();
    v.insert(String::from("a"), String::from("1"));
    v.insert(String::from("b"), String::from("2"));
    assert_eq!(v.remove(&String::from("a")), Some(String::from("1")));
    assert_eq!(v.remove(&String::from("a")), None);
    assert_eq!(v.get(&String::from("a")), None);
    assert_eq!(v.get(&String::from("b")), Some(&String::from("2")));
    assert_eq!(v.len(), 1);
}

#[test]
fn default_data_uses_pbcopy_and_pbpaste() {
    let d = Data::default();
    assert_eq!(d.clipboard_commands.copy, "pbcopy");
    assert_eq!(d.clipboard_commands.paste, "pbpaste");
    assert_eq!(d.branch_prefix_variants.len(), 0);
    assert!(d.autocomplete_values.is_none());
}

#[test]
fn new_config_holds_its_parts() {
    let mut prefixes = Variants::new();
    prefixes.insert(String::from("f"), String::from("feature/"));
    let config = GitConfig::new_config(
        ClipboardCommands { copy: String::from("xclip"), paste: String::from("xclip -o") },
        prefixes,
        Variants::new(),
        Variants::new(),
        String::from("/home/u/.git-helpe-rs-config"),
    );
    assert_eq!(config.config_path(), "/home/u/.git-helpe-rs-config");
    assert_eq!(config.get_branch_prefix(&String::from("f")), Some(&String::from("feature/")));
    assert_eq!(config.get_clipboard_commands().paste, "xclip -o");
    assert_eq!(config.get_branch_template(&String::from("f")), None);
}

#[test]
fn templates_need_a_braced_placeholder() {
    let mut config = GitConfig::default_config(String::from("/tmp/c"));
    assert_eq!(config.set_commit_template_variant(set("default", "[{}] - {}")), Ok(()));
    assert_eq!(config.set_branch_template_variant(set("x", "{x}")), Ok(()));
    assert_eq!(
        config.set_branch_template_variant(set("y", "no placeholder")),
        Err(HelperError::NoInterpolationMarker { template: TemplateKind::BranchTemplate })
    );
    assert_eq!(
        config.set_commit_template_variant(set("z", "}{")),
        Err(HelperError::NoInterpolationMarker { template: TemplateKind::CommitTemplate })
    );
    assert_eq!(
        config.set_commit_template_variant(set("w", "{\n}")),
        Err(HelperError::NoInterpolationMarker { template: TemplateKind::CommitTemplate })
    );
    assert_eq!(config.get_branch_template(&String::from("y")), None);
    assert_eq!(config.get_commit_template(&String::from("z")), None);
    assert_eq!(config.get_commit_template(&String::from("default")), Some(&String::from("[{}] - {}")));
}

#[test]
fn interpolation_regex_accepts_braces_on_one_line() {
    let ok = String::from("a {b} c");
    assert!(GitConfig::validate_against_interpolation_regex(&ok, TemplateKind::CommitTemplate).is_ok());
    let bad = String::from("a { \n } c");
    assert!(GitConfig::validate_against_interpolation_regex(&bad, TemplateKind::CommitTemplate).is_err());
}

#[test]
fn clipboard_commands_and_prefixes_are_replaced() {
    let mut config = GitConfig::default_config(String::from("/tmp/c"));
    config
        .set_clipboard_command(SetClipboardCommands { copy: String::from("wl-copy"), paste: String::from("wl-paste") })
        .unwrap();
    assert_eq!(config.data.clipboard_commands.copy, "wl-copy");
    assert_eq!(config.data.clipboard_commands.paste, "wl-paste");
    config.set_branch_prefix_variant(String::from("f"), String::from("feature/")).unwrap();
    config.set_branch_prefix_variant(String::from("f"), String::from("feat/")).unwrap();
    assert_eq!(config.get_branch_prefix(&String::from("f")), Some(&String::from("feat/")));
    assert_eq!(config.delete_branch_prefix_variant(String::from("f")), Some(String::from("feat/")));
    assert_eq!(config.get_branch_prefix(&String::from("f")), None);
}

#[test]
fn display_config_lists_settings_in_stored_order() {
    let mut config = GitConfig::default_config(String::from("/tmp/c"));
    config.set_branch_template_variant(set("fu", "feature-{}")).unwrap();
    config.set_branch_template_variant(set("b2", "{}x")).unwrap();
    config.set_commit_template_variant(set("default", "[{}] \"q\"")).unwrap();
    let text = config.display_config().unwrap();
    assert_eq!(
        text,
        "clipboard commands: {\n    \"copy\": \"pbcopy\"\n    \"paste\": \"pbpaste\"\n}\n\
         branch formats: {\"fu\": \"feature-{}\", \"b2\": \"{}x\"}\n\
         commit formats: {\"default\": \"[{}] \\\"q\\\"\"}\n\
         branch prefixes: {}\n"
    );
}

fn to_json(v: &Variants) -> serde_json::Value {
    let mut m = serde_json::Map::new();
    for (k, val) in pairs(v) {
        m.insert(k, serde_json::Value::String(val));
    }
    serde_json::Value::Object(m)
}

fn from_json(value: &serde_json::Value) -> Variants {
    let mut v = Variants::new();
    for (k, val) in value.as_object().unwrap() {
        v.insert(k.clone(), String::from(val.as_str().unwrap()));
    }
    v
}

#[test]
fn variant_maps_survive_a_json_round_trip() {
    let mut config = GitConfig::default_config(String::from("/tmp/c"));
    config.set_branch_prefix_variant(String::from("f"), String::from("feature/")).unwrap();
    config.set_branch_template_variant(set("fu", "feature-{}/utils-{}")).unwrap();
    config.set_commit_template_variant(set("default", "[{}] - \"{}\"")).unwrap();
    let mut document = serde_json::Map::new();
    document.insert(String::from("branch_prefix_variants"), to_json(&config.data.branch_prefix_variants));
    document.insert(String::from("branch_template_variants"), to_json(&config.data.branch_template_variants));
    document.insert(String::from("commit_template_variants"), to_json(&config.data.commit_template_variants));
    let text = serde_json::to_string(&serde_json::Value::Object(document)).unwrap();
    let back: serde_json::Value = serde_json::from_str(&text).unwrap();
    for (name, original) in [
        ("branch_prefix_variants", &config.data.branch_prefix_variants),
        ("branch_template_variants", &config.data.branch_template_variants),
        ("commit_template_variants", &config.data.commit_template_variants),
    ] {
        let read = from_json(&back[name]);
        let mut a = pairs(&read);
        let mut b = pairs(original);
        a.sort();
        b.sort();
        assert_eq!(a, b);
    }
}

#[test]
fn config_path_prefers_explicit_then_xdg_then_home() {
    let explicit = get_path_to_config(Some(String::from("/etc/x")), Some(String::from("/xdg")), Some(String::from("/home/u")));
    assert_eq!(explicit, Some(String::from("/etc/x")));
    let xdg = get_path_to_config(None, Some(String::from("/xdg")), Some(String::from("/home/u")));
    assert_eq!(xdg, Some(String::from("/xdg/.git-helpe-rs-config")));
    let home = get_path_to_config(None, None, Some(String::from("/home/u/")));
    assert_eq!(home, Some(String::from("/home/u/.git-helpe-rs-config")));
    assert_eq!(get_path_to_config(None, None, None), None);
    assert_eq!(get_path_to_config(None, Some(String::new()), None), Some(String::from(".git-helpe-rs-config")));
}
