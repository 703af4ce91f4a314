use spin_cli::catalog::{
    hide_plugin_in_help, installed_plugin_help_entries, plugin_help_entries, PluginHelpEntry,
    PluginManifest,
};

fn manifest(name: &str, description: Option<&str>) -> PluginManifest {
    PluginManifest {
        name: name.to_string(),
        description: description.map(|d| d.to_string()),
    }
}

fn pre(name: &str, about: &str) -> (String, String) {
    (name.to_string(), about.to_string())
}

#[test]
fn locally_installed_description_wins_over_predefined() {
    let manifests = vec![manifest("deploy-helper", Some("local description"))];
    let predefined = vec![
        pre("deploy-helper", "predefined description"),
        pre("cloud", "cloud plugin"),
    ];
    let entries = plugin_help_entries(&manifests, &predefined);
    assert_eq!(entries.len(), 2);
    assert_eq!(entries[0].name, "deploy-helper");
    assert_eq!(entries[0].about, "local description");
    assert_eq!(entries[1].name, "cloud");
    assert_eq!(entries[1].about, "cloud plugin");
}

#[test]
fn reserved_prefix_names_yield_no_entry_from_any_source() {
    let manifests = vec![
        manifest("trigger-sqs", Some("backend provider")),
        manifest("cloud", Some("cloud plugin")),
    ];
    let predefined = vec![pre("trigger-timer", "another backend provider")];
    let entries = plugin_help_entries(&manifests, &predefined);
    assert_eq!(entries.len(), 1);
    assert_eq!(entries[0].name, "cloud");
}

#[test]
fn hide_plugin_in_help_detects_reserved_prefix() {
    assert!(hide_plugin_in_help(&manifest("trigger-sqs", None)));
    assert!(hide_plugin_in_help(&manifest("trigger-", None)));
    assert!(!hide_plugin_in_help(&manifest("trigge", None)));
    assert!(!hide_plugin_in_help(&manifest("cloud", None)));
    assert!(!hide_plugin_in_help(&manifest("", None)));
}

#[test]
fn from_plugin_maps_description_and_hides_reserved() {
    assert!(PluginHelpEntry::from_plugin(&manifest("trigger-x", Some("d"))).is_none());
    let e = PluginHelpEntry::from_plugin(&manifest("cloud", Some("cloud plugin"))).unwrap();
    assert_eq!(e.name, "cloud");
    assert_eq!(e.about, "cloud plugin");
    let bare = PluginHelpEntry::from_plugin(&manifest("bare", None)).unwrap();
    assert_eq!(bare.name, "bare");
    assert_eq!(bare.about, "");
}

#[test]
fn installed_entries_keep_store_order_and_first_of_equal_names() {
    let manifests = vec![
        manifest("b", Some("first b")),
        manifest("a", None),
        manifest("b", Some("second b")),
    ];
    let entries = installed_plugin_help_entries(&manifests);
    assert_eq!(entries.len(), 2);
    assert_eq!(entries[0].name, "b");
    assert_eq!(entries[0].about, "first b");
    assert_eq!(entries[1].name, "a");
    assert_eq!(entries[1].about, "");
}

#[test]
fn predefined_entries_collide_first_declared_wins() {
    let manifests: Vec<PluginManifest> = Vec::new();
    let predefined = vec![pre("cloud", "first"), pre("cloud", "second")];
    let entries = plugin_help_entries(&manifests, &predefined);
    assert_eq!(entries.len(), 1);
    assert_eq!(entries[0].about, "first");
}

#[test]
fn empty_sources_yield_empty_catalog() {
    let entries = plugin_help_entries(&Vec::new(), &Vec::new());
    assert!(entries.is_empty());
}
