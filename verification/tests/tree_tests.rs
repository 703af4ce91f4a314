use spin_cli::catalog::PluginHelpEntry;
use spin_cli::tree::{build_tree, help_lines};

fn entry(name: &str, about: &str) -> PluginHelpEntry {
    PluginHelpEntry {
        name: name.to_string(),
        about: about.to_string(),
    }
}

const FOOTER: &str = "* implemented via plugin";

#[test]
fn display_text_suffixes_the_marker() {
    assert_eq!(entry("cloud", "x").display_text(), "cloud*");
    assert_eq!(entry("", "").display_text(), "*");
}

#[test]
fn empty_catalog_help_has_no_plugin_footer() {
    let tree = build_tree(&Vec::new());
    assert!(!tree.has_plugin_footer);
    assert!(tree.plugin_subcommands.is_empty());
    let lines = help_lines(&tree);
    assert!(!lines.is_empty());
    assert!(lines.iter().all(|l| l != FOOTER));
}

#[test]
fn non_empty_catalog_help_ends_with_the_footer() {
    let tree = build_tree(&vec![entry("cloud", "cloud plugin")]);
    assert!(tree.has_plugin_footer);
    let lines = help_lines(&tree);
    assert_eq!(lines.last().unwrap(), FOOTER);
    assert_eq!(lines.iter().filter(|l| *l == FOOTER).count(), 1);
    assert!(lines.iter().any(|l| l == "  cloud*  cloud plugin"));
}

#[test]
fn synthetic_nodes_carry_forwarding_friendly_settings() {
    let tree = build_tree(&vec![entry("cloud", "cloud plugin"), entry("x", "")]);
    assert_eq!(tree.plugin_subcommands.len(), 2);
    let node = &tree.plugin_subcommands[0];
    assert_eq!(node.display_name, "cloud*");
    assert_eq!(node.about, "cloud plugin");
    assert!(node.allow_hyphen_values);
    assert!(node.disable_help_flag);
    assert!(node.accepts_trailing_values);
    assert_eq!(tree.plugin_subcommands[1].display_name, "x*");
}

#[test]
fn recognized_names_cover_the_static_command_set() {
    let tree = build_tree(&Vec::new());
    let names: Vec<&str> = tree.builtins.iter().map(|s| s.as_str()).collect();
    assert_eq!(
        names,
        vec![
            "templates",
            "template",
            "new",
            "add",
            "up",
            "deploy",
            "login",
            "registry",
            "oci",
            "build",
            "plugins",
            "plugin",
            "trigger",
            "watch",
            "doctor",
        ]
    );
}
