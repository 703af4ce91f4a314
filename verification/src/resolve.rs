//! Invocation resolver: decides, for one parsed invocation, which of three
//! paths applies — a statically compiled built-in, a trigger backend, or an
//! external plugin forward — by name matching against the catalog and the
//! static command set.

use vstd::prelude::*;
use crate::catalog::{EntryView, PluginHelpEntry, any_entry_named, contains_name, entry_views};

verus! {

/// The hidden generic trigger sub-tree: one variant per backend capability
/// the binary was compiled with.
#[derive(Debug, PartialEq, Eq, Structural)]
pub enum TriggerCommands {
    Http,
    Redis,
    HelpArgsOnly,
}

/// The statically declared command set, plus the parser's catch-all variant
/// for tokens that match no declared name.
#[derive(Debug)]
pub enum SpinApp {
    Templates,
    New,
    Add,
    Up,
    Deploy,
    Login,
    Registry,
    Build,
    Plugins,
    Trigger(TriggerCommands),
    External(Vec<String>),
    Watch,
    Doctor,
}

/// A usage error: the invocation could not be matched against the merged
/// tree at all.
#[derive(Debug, PartialEq, Eq, Structural)]
pub enum UsageError {
    /// No subcommand was named.
    MissingSubcommand,
    /// The hidden trigger sub-tree was named without a recognized backend
    /// type.
    UnknownTriggerType,
}

/// The resolved route of one invocation: run a built-in handler in process,
/// or forward the token sequence to an external plugin executable.
#[derive(Debug)]
pub enum Resolution {
    BuiltIn(SpinApp),
    Forward(Vec<String>),
}

/// Whether `n` names a statically declared subcommand, aliases and the
/// hidden trigger sub-tree included.
pub open spec fn is_builtin_name(n: Seq<char>) -> bool {
    ||| n == "templates"@
    ||| n == "template"@
    ||| n == "new"@
    ||| n == "add"@
    ||| n == "up"@
    ||| n == "deploy"@
    ||| n == "login"@
    ||| n == "registry"@
    ||| n == "oci"@
    ||| n == "build"@
    ||| n == "plugins"@
    ||| n == "plugin"@
    ||| n == "trigger"@
    ||| n == "watch"@
    ||| n == "doctor"@
}

/// What parsing the trigger sub-tree yields: a backend by name, or a usage
/// error when none is recognized.
pub open spec fn trigger_parses_to(args: Seq<String>, r: Result<SpinApp, UsageError>) -> bool {
    if args.len() >= 2 && args[1]@ == "http"@ {
        r == Ok::<SpinApp, UsageError>(SpinApp::Trigger(TriggerCommands::Http))
    } else if args.len() >= 2 && args[1]@ == "redis"@ {
        r == Ok::<SpinApp, UsageError>(SpinApp::Trigger(TriggerCommands::Redis))
    } else if args.len() >= 2 && args[1]@ == "help-args-only"@ {
        r == Ok::<SpinApp, UsageError>(SpinApp::Trigger(TriggerCommands::HelpArgsOnly))
    } else {
        r == Err::<SpinApp, UsageError>(UsageError::UnknownTriggerType)
    }
}

/// What parsing `args` against the static command set yields: the named
/// built-in variant, the catch-all `External` carrying the tokens unchanged
/// when no declared name matches, or a usage error.
pub open spec fn parses_to(args: Seq<String>, r: Result<SpinApp, UsageError>) -> bool {
    if args.len() == 0 {
        r == Err::<SpinApp, UsageError>(UsageError::MissingSubcommand)
    } else {
        let name = args[0]@;
        if name == "templates"@ || name == "template"@ {
            r == Ok::<SpinApp, UsageError>(SpinApp::Templates)
        } else if name == "new"@ {
            r == Ok::<SpinApp, UsageError>(SpinApp::New)
        } else if name == "add"@ {
            r == Ok::<SpinApp, UsageError>(SpinApp::Add)
        } else if name == "up"@ {
            r == Ok::<SpinApp, UsageError>(SpinApp::Up)
        } else if name == "deploy"@ {
            r == Ok::<SpinApp, UsageError>(SpinApp::Deploy)
        } else if name == "login"@ {
            r == Ok::<SpinApp, UsageError>(SpinApp::Login)
        } else if name == "registry"@ || name == "oci"@ {
            r == Ok::<SpinApp, UsageError>(SpinApp::Registry)
        } else if name == "build"@ {
            r == Ok::<SpinApp, UsageError>(SpinApp::Build)
        } else if name == "plugins"@ || name == "plugin"@ {
            r == Ok::<SpinApp, UsageError>(SpinApp::Plugins)
        } else if name == "trigger"@ {
            trigger_parses_to(args, r)
        } else if name == "watch"@ {
            r == Ok::<SpinApp, UsageError>(SpinApp::Watch)
        } else if name == "doctor"@ {
            r == Ok::<SpinApp, UsageError>(SpinApp::Doctor)
        } else {
            r matches Ok(SpinApp::External(v)) && v@ == args
        }
    }
}

/// What resolution yields: a missing subcommand is a usage error; a
/// subcommand named in the catalog always forwards, tokens unchanged; any
/// other name parses against the static set, with unmatched names forwarded
/// as unknown external subcommands.
pub open spec fn resolves_to(
    args: Seq<String>,
    catalog: Seq<EntryView>,
    r: Result<Resolution, UsageError>,
) -> bool {
    if args.len() == 0 {
        r == Err::<Resolution, UsageError>(UsageError::MissingSubcommand)
    } else if contains_name(catalog, args[0]@) {
        r matches Ok(Resolution::Forward(v)) && v@ == args
    } else {
        match r {
            Ok(Resolution::BuiltIn(app)) => !(app is External) && parses_to(
                args,
                Ok::<SpinApp, UsageError>(app),
            ),
            Ok(Resolution::Forward(v)) => v@ == args && parses_to(
                args,
                Ok::<SpinApp, UsageError>(SpinApp::External(v)),
            ),
            Err(e) => parses_to(args, Err::<SpinApp, UsageError>(e)),
        }
    }
}

fn str_eq(a: &str, b: &str) -> (r: bool)
    ensures
        r == (a@ == b@),
{
    let la = a.unicode_len();
    let lb = b.unicode_len();
    if la != lb {
        return false;
    }
    let mut i: usize = 0;
    while i < la
        invariant
            la == a@.len(),
            lb == b@.len(),
            la == lb,
            i <= la,
            forall|j: int| 0 <= j < i ==> a@[j] == b@[j],
        decreases la - i,
    {
        if a.get_char(i) != b.get_char(i) {
            return false;
        }
        i += 1;
    }
    assert(a@ =~= b@);
    true
}

fn token_is(t: &String, lit: &str) -> (r: bool)
    ensures
        r == (t@ == lit@),
{
    str_eq(t.as_str(), lit)
}

/// Parses a token sequence (the process arguments without the program name)
/// against the static command set alone, as the derived parser would: known
/// names select their variant, anything else becomes the catch-all
/// `External` carrying the tokens unchanged.
pub fn parse_invocation(args: Vec<String>) -> (r: Result<SpinApp, UsageError>)
    ensures
        parses_to(args@, r),
{
    if args.len() == 0 {
        return Err(UsageError::MissingSubcommand);
    }
    if token_is(&args[0], "templates") || token_is(&args[0], "template") {
        return Ok(SpinApp::Templates);
    }
    if token_is(&args[0], "new") {
        return Ok(SpinApp::New);
    }
    if token_is(&args[0], "add") {
        return Ok(SpinApp::Add);
    }
    if token_is(&args[0], "up") {
        return Ok(SpinApp::Up);
    }
    if token_is(&args[0], "deploy") {
        return Ok(SpinApp::Deploy);
    }
    if token_is(&args[0], "login") {
        return Ok(SpinApp::Login);
    }
    if token_is(&args[0], "registry") || token_is(&args[0], "oci") {
        return Ok(SpinApp::Registry);
    }
    if token_is(&args[0], "build") {
        return Ok(SpinApp::Build);
    }
    if token_is(&args[0], "plugins") || token_is(&args[0], "plugin") {
        return Ok(SpinApp::Plugins);
    }
    if token_is(&args[0], "trigger") {
        if args.len() >= 2 {
            if token_is(&args[1], "http") {
                return Ok(SpinApp::Trigger(TriggerCommands::Http));
            }
            if token_is(&args[1], "redis") {
                return Ok(SpinApp::Trigger(TriggerCommands::Redis));
            }
            if token_is(&args[1], "help-args-only") {
                return Ok(SpinApp::Trigger(TriggerCommands::HelpArgsOnly));
            }
        }
        return Err(UsageError::UnknownTriggerType);
    }
    if token_is(&args[0], "watch") {
        return Ok(SpinApp::Watch);
    }
    if token_is(&args[0], "doctor") {
        return Ok(SpinApp::Doctor);
    }
    Ok(SpinApp::External(args))
}

impl SpinApp {
    /// The dispatch decision of the main entry point: the catch-all
    /// `External` variant is forwarded, tokens unchanged; every other
    /// variant is handled by its own built-in handler.
    pub fn run(self) -> (r: Resolution)
        ensures
            match self {
                SpinApp::External(v) => r == Resolution::Forward(v),
                _ => r == Resolution::BuiltIn(self),
            },
    {
        match self {
            SpinApp::External(v) => Resolution::Forward(v),
            other => Resolution::BuiltIn(other),
        }
    }
}

/// Resolves one invocation: `args` is the process argument vector without
/// the program name, `catalog` the merged plugin catalog. A first token
/// named in the catalog always forwards — the synthetic tree node of that
/// name exists only for help — and any token matching no declared name
/// forwards as an unknown external subcommand.
pub fn resolve(args: Vec<String>, catalog: &Vec<PluginHelpEntry>) -> (r: Result<
    Resolution,
    UsageError,
>)
    ensures
        resolves_to(args@, entry_views(catalog@), r),
{
    if args.len() == 0 {
        return Err(UsageError::MissingSubcommand);
    }
    if any_entry_named(catalog, &args[0]) {
        return Ok(Resolution::Forward(args));
    }
    match parse_invocation(args) {
        Ok(app) => Ok(app.run()),
        Err(e) => Err(e),
    }
}

/// Law: a subcommand name listed in the catalog always forwards externally,
/// with the token sequence unchanged, even though a synthetic tree node of
/// that name exists — the node is there only to render help.
pub proof fn lemma_catalog_name_always_forwards(
    args: Seq<String>,
    catalog: Seq<EntryView>,
    r: Result<Resolution, UsageError>,
)
    requires
        args.len() > 0,
        contains_name(catalog, args[0]@),
        resolves_to(args, catalog, r),
    ensures
        r matches Ok(Resolution::Forward(v)) && v@ == args,
{
}

/// Law: the resolver and the command tree agree on what is statically
/// declared: a name satisfies the resolver's built-in test exactly when the
/// tree's recognized-name list carries it.
pub proof fn lemma_resolver_and_tree_agree(n: Seq<char>)
    ensures
        is_builtin_name(n) <==> crate::tree::builtin_names().contains(n),
{
    let names = crate::tree::builtin_names();
    if is_builtin_name(n) {
        if n == "templates"@ {
            assert(names[0] == n);
        } else if n == "template"@ {
            assert(names[1] == n);
        } else if n == "new"@ {
            assert(names[2] == n);
        } else if n == "add"@ {
            assert(names[3] == n);
        } else if n == "up"@ {
            assert(names[4] == n);
        } else if n == "deploy"@ {
            assert(names[5] == n);
        } else if n == "login"@ {
            assert(names[6] == n);
        } else if n == "registry"@ {
            assert(names[7] == n);
        } else if n == "oci"@ {
            assert(names[8] == n);
        } else if n == "build"@ {
            assert(names[9] == n);
        } else if n == "plugins"@ {
            assert(names[10] == n);
        } else if n == "plugin"@ {
            assert(names[11] == n);
        } else if n == "trigger"@ {
            assert(names[12] == n);
        } else if n == "watch"@ {
            assert(names[13] == n);
        } else {
            assert(names[14] == n);
        }
    }
    if names.contains(n) {
        let i = choose|i: int| 0 <= i < names.len() && names[i] == n;
        assert(is_builtin_name(n)) by {
            if i == 0 {
            } else if i == 1 {
            } else if i == 2 {
            } else if i == 3 {
            } else if i == 4 {
            } else if i == 5 {
            } else if i == 6 {
            } else if i == 7 {
            } else if i == 8 {
            } else if i == 9 {
            } else if i == 10 {
            } else if i == 11 {
            } else if i == 12 {
            } else if i == 13 {
            } else {
                assert(i == 14);
            }
        }
    }
}

/// Law: a statically declared subcommand name that no catalog entry claims
/// never forwards: resolution invokes the built-in handler — or reports a
/// usage error where the hidden trigger sub-tree lacks a recognized backend
/// type. Declared names are reserved and do not normally appear in the
/// catalog; where one did, the catalog would win, so that case stands
/// outside this law.
pub proof fn lemma_builtin_name_never_forwards(
    args: Seq<String>,
    catalog: Seq<EntryView>,
    r: Result<Resolution, UsageError>,
)
    requires
        args.len() > 0,
        is_builtin_name(args[0]@),
        !contains_name(catalog, args[0]@),
        resolves_to(args, catalog, r),
    ensures
        !(r matches Ok(Resolution::Forward(_))),
        args[0]@ != "trigger"@ ==> r matches Ok(Resolution::BuiltIn(_)),
{
}

} // verus!
