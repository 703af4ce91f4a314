use spin_cli::catalog::PluginHelpEntry;
use spin_cli::forward::{forward_plan, invocation_args};
use spin_cli::resolve::{resolve, Resolution, SpinApp, TriggerCommands, UsageError};

fn args(tokens: &[&str]) -> Vec<String> {
    tokens.iter().map(|t| t.to_string()).collect()
}

fn entry(name: &str) -> PluginHelpEntry {
    PluginHelpEntry {
        name: name.to_string(),
        about: String::new(),
    }
}

#[test]
fn catalog_name_always_forwards() {
    let catalog = vec![entry("deploy-helper")];
    let r = resolve(args(&["deploy-helper", "--weird-flag", "value"]), &catalog);
    match r {
        Ok(Resolution::Forward(v)) => {
            assert_eq!(v, args(&["deploy-helper", "--weird-flag", "value"]))
        }
        other => panic!("expected a forward, got {:?}", other),
    }
}

#[test]
fn catalog_name_wins_over_builtin_name() {
    let catalog = vec![entry("build")];
    let r = resolve(args(&["build", "--release"]), &catalog);
    assert!(matches!(r, Ok(Resolution::Forward(_))));
}

#[test]
fn builtin_name_invokes_builtin_never_forwards() {
    let catalog = vec![entry("deploy-helper")];
    assert!(matches!(
        resolve(args(&["build"]), &catalog),
        Ok(Resolution::BuiltIn(SpinApp::Build))
    ));
    assert!(matches!(
        resolve(args(&["doctor", "--verbose"]), &catalog),
        Ok(Resolution::BuiltIn(SpinApp::Doctor))
    ));
    assert!(matches!(
        resolve(args(&["up"]), &catalog),
        Ok(Resolution::BuiltIn(SpinApp::Up))
    ));
    assert!(matches!(
        resolve(args(&["new"]), &catalog),
        Ok(Resolution::BuiltIn(SpinApp::New))
    ));
    assert!(matches!(
        resolve(args(&["add"]), &catalog),
        Ok(Resolution::BuiltIn(SpinApp::Add))
    ));
    assert!(matches!(
        resolve(args(&["deploy"]), &catalog),
        Ok(Resolution::BuiltIn(SpinApp::Deploy))
    ));
    assert!(matches!(
        resolve(args(&["login"]), &catalog),
        Ok(Resolution::BuiltIn(SpinApp::Login))
    ));
    assert!(matches!(
        resolve(args(&["watch"]), &catalog),
        Ok(Resolution::BuiltIn(SpinApp::Watch))
    ));
}

#[test]
fn aliases_resolve_to_their_builtin() {
    let catalog: Vec<PluginHelpEntry> = Vec::new();
    assert!(matches!(
        resolve(args(&["templates"]), &catalog),
        Ok(Resolution::BuiltIn(SpinApp::Templates))
    ));
    assert!(matches!(
        resolve(args(&["template"]), &catalog),
        Ok(Resolution::BuiltIn(SpinApp::Templates))
    ));
    assert!(matches!(
        resolve(args(&["registry"]), &catalog),
        Ok(Resolution::BuiltIn(SpinApp::Registry))
    ));
    assert!(matches!(
        resolve(args(&["oci"]), &catalog),
        Ok(Resolution::BuiltIn(SpinApp::Registry))
    ));
    assert!(matches!(
        resolve(args(&["plugins"]), &catalog),
        Ok(Resolution::BuiltIn(SpinApp::Plugins))
    ));
    assert!(matches!(
        resolve(args(&["plugin"]), &catalog),
        Ok(Resolution::BuiltIn(SpinApp::Plugins))
    ));
}

#[test]
fn trigger_subtree_selects_backend_by_name() {
    let catalog: Vec<PluginHelpEntry> = Vec::new();
    assert!(matches!(
        resolve(args(&["trigger", "http"]), &catalog),
        Ok(Resolution::BuiltIn(SpinApp::Trigger(TriggerCommands::Http)))
    ));
    assert!(matches!(
        resolve(args(&["trigger", "redis"]), &catalog),
        Ok(Resolution::BuiltIn(SpinApp::Trigger(TriggerCommands::Redis)))
    ));
    assert!(matches!(
        resolve(args(&["trigger", "help-args-only"]), &catalog),
        Ok(Resolution::BuiltIn(SpinApp::Trigger(
            TriggerCommands::HelpArgsOnly
        )))
    ));
}

#[test]
fn trigger_without_known_backend_is_a_usage_error() {
    let catalog: Vec<PluginHelpEntry> = Vec::new();
    assert!(matches!(
        resolve(args(&["trigger"]), &catalog),
        Err(UsageError::UnknownTriggerType)
    ));
    assert!(matches!(
        resolve(args(&["trigger", "bogus"]), &catalog),
        Err(UsageError::UnknownTriggerType)
    ));
}

#[test]
fn no_subcommand_is_a_usage_error() {
    let catalog: Vec<PluginHelpEntry> = Vec::new();
    assert!(matches!(
        resolve(Vec::new(), &catalog),
        Err(UsageError::MissingSubcommand)
    ));
}

#[test]
fn unknown_name_forwards_as_external_subcommand() {
    let catalog = vec![entry("deploy-helper")];
    let r = resolve(args(&["frobnicate", "-x", "1"]), &catalog);
    match r {
        Ok(Resolution::Forward(v)) => assert_eq!(v, args(&["frobnicate", "-x", "1"])),
        other => panic!("expected a forward, got {:?}", other),
    }
}

#[test]
fn forwarding_preserves_tokens_exactly() {
    let plan = forward_plan(args(&["deploy-helper", "--weird-flag", "value"]));
    let (name, rest) = plan.unwrap();
    assert_eq!(name, "deploy-helper");
    assert_eq!(rest, args(&["--weird-flag", "value"]));
}

#[test]
fn forward_plan_of_nothing_is_none() {
    assert!(forward_plan(Vec::new()).is_none());
}

#[test]
fn invocation_args_strips_only_the_program_name() {
    let v = invocation_args(args(&["spin", "deploy-helper", "--weird-flag", "value"]));
    assert_eq!(v, args(&["deploy-helper", "--weird-flag", "value"]));
    let lone = invocation_args(args(&["spin"]));
    assert!(lone.is_empty());
}
