//! Command tree: the full set of recognized subcommand names, one synthetic
//! node per catalog entry, and the help surface that blends both.

use vstd::prelude::*;
use crate::catalog::PluginHelpEntry;

verus! {

/// One synthetic subcommand node standing for a plugin. It exists to render
/// help: its displayed name carries a trailing marker, it accepts
/// hyphen-prefixed and unbounded trailing values uninterpreted, and it
/// suppresses its own help flag so `--help` after the plugin name is
/// forwarded rather than intercepted.
pub struct PluginSubcommand {
    pub display_name: String,
    pub about: String,
    pub allow_hyphen_values: bool,
    pub disable_help_flag: bool,
    pub accepts_trailing_values: bool,
}

/// The merged command tree: every statically recognized subcommand name
/// (aliases and the hidden trigger sub-tree included), one synthetic node per
/// catalog entry, and whether help ends with the plugin-marker footer.
pub struct CommandTree {
    pub builtins: Vec<String>,
    pub plugin_subcommands: Vec<PluginSubcommand>,
    pub has_plugin_footer: bool,
}

/// The marker character suffixed to a plugin's displayed name, indicating
/// "implemented via plugin".
pub open spec fn plugin_marker() -> Seq<char> {
    "*"@
}

/// The help footer explaining the marker.
pub open spec fn plugin_footer_text() -> Seq<char> {
    "* implemented via plugin"@
}

/// Every statically recognized top-level subcommand name, aliases and the
/// hidden trigger sub-tree included.
pub open spec fn builtin_names() -> Seq<Seq<char>> {
    seq![
        "templates"@,
        "template"@,
        "new"@,
        "add"@,
        "up"@,
        "deploy"@,
        "login"@,
        "registry"@,
        "oci"@,
        "build"@,
        "plugins"@,
        "plugin"@,
        "trigger"@,
        "watch"@,
        "doctor"@,
    ]
}

/// The statically declared subcommand names listed in help: no aliases, and
/// not the hidden trigger sub-tree.
pub open spec fn visible_builtin_names() -> Seq<Seq<char>> {
    seq![
        "templates"@,
        "new"@,
        "add"@,
        "up"@,
        "deploy"@,
        "login"@,
        "registry"@,
        "build"@,
        "plugins"@,
        "watch"@,
        "doctor"@,
    ]
}

impl PluginHelpEntry {
    /// The entry's displayed name: the plugin name suffixed with the marker
    /// character.
    pub fn display_text(&self) -> (r: String)
        ensures
            r@ == self.name@ + plugin_marker(),
    {
        self.name.clone().concat("*")
    }
}

/// The views of the recognized-name list.
pub open spec fn name_views(s: Seq<String>) -> Seq<Seq<char>> {
    s.map_values(|n: String| n@)
}

/// Whether `tree` is the command tree built from `catalog`: the fixed
/// recognized-name list, one marker-named synthetic node per catalog entry in
/// catalog order, and the footer exactly when the catalog is non-empty.
pub open spec fn tree_built_from(tree: CommandTree, catalog: Seq<PluginHelpEntry>) -> bool {
    &&& name_views(tree.builtins@) == builtin_names()
    &&& tree.plugin_subcommands@.len() == catalog.len()
    &&& forall|i: int|
        0 <= i < catalog.len() ==> (#[trigger] tree.plugin_subcommands@[i]).display_name@
            == catalog[i].name@ + plugin_marker()
    &&& forall|i: int|
        0 <= i < catalog.len() ==> (#[trigger] tree.plugin_subcommands@[i]).about@
            == catalog[i].about@
    &&& forall|i: int|
        0 <= i < catalog.len() ==> (#[trigger] tree.plugin_subcommands@[i]).allow_hyphen_values
            && tree.plugin_subcommands@[i].disable_help_flag
            && tree.plugin_subcommands@[i].accepts_trailing_values
    &&& tree.has_plugin_footer == (catalog.len() > 0)
}

fn recognized_builtins() -> (r: Vec<String>)
    ensures
        name_views(r@) == builtin_names(),
{
    let mut r: Vec<String> = Vec::new();
    r.push(String::from_str("templates"));
    r.push(String::from_str("template"));
    r.push(String::from_str("new"));
    r.push(String::from_str("add"));
    r.push(String::from_str("up"));
    r.push(String::from_str("deploy"));
    r.push(String::from_str("login"));
    r.push(String::from_str("registry"));
    r.push(String::from_str("oci"));
    r.push(String::from_str("build"));
    r.push(String::from_str("plugins"));
    r.push(String::from_str("plugin"));
    r.push(String::from_str("trigger"));
    r.push(String::from_str("watch"));
    r.push(String::from_str("doctor"));
    assert(name_views(r@) =~= builtin_names());
    r
}

/// Builds the merged command tree for one invocation: the static names, one
/// synthetic node per catalog entry, and the footer if any entry exists.
pub fn build_tree(catalog: &Vec<PluginHelpEntry>) -> (tree: CommandTree)
    ensures
        tree_built_from(tree, catalog@),
{
    let mut nodes: Vec<PluginSubcommand> = Vec::new();
    let mut i: usize = 0;
    while i < catalog.len()
        invariant
            i <= catalog.len(),
            nodes@.len() == i,
            forall|j: int|
                0 <= j < i ==> (#[trigger] nodes@[j]).display_name@ == catalog@[j].name@
                    + plugin_marker(),
            forall|j: int| 0 <= j < i ==> (#[trigger] nodes@[j]).about@ == catalog@[j].about@,
            forall|j: int|
                0 <= j < i ==> (#[trigger] nodes@[j]).allow_hyphen_values
                    && nodes@[j].disable_help_flag && nodes@[j].accepts_trailing_values,
        decreases catalog.len() - i,
    {
        let node = PluginSubcommand {
            display_name: catalog[i].display_text(),
            about: catalog[i].about.clone(),
            allow_hyphen_values: true,
            disable_help_flag: true,
            accepts_trailing_values: true,
        };
        nodes.push(node);
        i += 1;
    }
    CommandTree {
        builtins: recognized_builtins(),
        plugin_subcommands: nodes,
        has_plugin_footer: catalog.len() > 0,
    }
}

/// The views of a sequence of string slices.
pub open spec fn str_views(s: Seq<&str>) -> Seq<Seq<char>> {
    s.map_values(|n: &str| n@)
}

fn spaced(n: &str) -> (r: String)
    ensures
        r@ == "  "@ + n@,
{
    String::from_str("  ").concat(n)
}

/// The help surface of the merged tree, one line per listed subcommand: the
/// visible statically declared names first, then each plugin entry under its
/// marker-suffixed name with its description, then — exactly when the tree
/// carries it — the footer explaining the marker. No other line ever equals
/// the footer text: every listing line is indented, the footer is not.
pub fn help_lines(tree: &CommandTree) -> (r: Vec<String>)
    ensures
        r@.len() == visible_builtin_names().len() + tree.plugin_subcommands@.len() + (
        if tree.has_plugin_footer {
            1int
        } else {
            0int
        }),
        forall|i: int|
            0 <= i < visible_builtin_names().len() ==> (#[trigger] r@[i])@ == "  "@
                + visible_builtin_names()[i],
        forall|i: int|
            0 <= i < tree.plugin_subcommands@.len() ==> r@[visible_builtin_names().len() + i]@
                == "  "@ + (#[trigger] tree.plugin_subcommands@[i]).display_name@ + "  "@
                + tree.plugin_subcommands@[i].about@,
        tree.has_plugin_footer ==> r@[r@.len() - 1]@ == plugin_footer_text(),
        forall|i: int|
            0 <= i < r@.len() ==> ((#[trigger] r@[i])@ == plugin_footer_text() <==> (
            tree.has_plugin_footer && i == r@.len() - 1)),
{
    proof {
        reveal_strlit("  ");
        reveal_strlit("* implemented via plugin");
    }
    let names: Vec<&str> = visible_names();
    let mut r: Vec<String> = Vec::new();
    let mut i: usize = 0;
    while i < names.len()
        invariant
            i <= names.len(),
            str_views(names@) == visible_builtin_names(),
            names@.len() == visible_builtin_names().len(),
            r@.len() == i,
            forall|j: int|
                0 <= j < i ==> (#[trigger] r@[j])@ == "  "@ + visible_builtin_names()[j],
            forall|j: int| 0 <= j < i ==> (#[trigger] r@[j])@.len() >= 2 && r@[j]@[0] == ' ',
            "  "@.len() == 2 && "  "@[0] == ' ',
        decreases names.len() - i,
    {
        let line = spaced(names[i]);
        assert(names@[i as int]@ == visible_builtin_names()[i as int]);
        r.push(line);
        i += 1;
    }
    let mut p: usize = 0;
    while p < tree.plugin_subcommands.len()
        invariant
            p <= tree.plugin_subcommands@.len(),
            r@.len() == visible_builtin_names().len() + p,
            forall|j: int|
                0 <= j < visible_builtin_names().len() ==> (#[trigger] r@[j])@ == "  "@
                    + visible_builtin_names()[j],
            forall|j: int|
                0 <= j < p ==> r@[visible_builtin_names().len() + j]@ == "  "@
                    + (#[trigger] tree.plugin_subcommands@[j]).display_name@ + "  "@
                    + tree.plugin_subcommands@[j].about@,
            forall|j: int| 0 <= j < r@.len() ==> (#[trigger] r@[j])@.len() >= 2 && r@[j]@[0] == ' ',
            "  "@.len() == 2 && "  "@[0] == ' ',
        decreases tree.plugin_subcommands@.len() - p,
    {
        let node = &tree.plugin_subcommands[p];
        let line = spaced(node.display_name.as_str()).concat("  ").concat(node.about.as_str());
        r.push(line);
        p += 1;
    }
    assert(plugin_footer_text().len() >= 1 && plugin_footer_text()[0] == '*');
    if tree.has_plugin_footer {
        r.push(String::from_str("* implemented via plugin"));
    }
    r
}

/// Law: the marker suffix keeps the merged naming space collision-free: a
/// synthetic node's displayed name, which always ends in the marker, never
/// equals a statically declared subcommand name, which never does.
pub proof fn lemma_marker_prevents_collision(
    tree: CommandTree,
    catalog: Seq<PluginHelpEntry>,
    i: int,
    n: Seq<char>,
)
    requires
        tree_built_from(tree, catalog),
        0 <= i < catalog.len(),
        builtin_names().contains(n),
    ensures
        tree.plugin_subcommands@[i].display_name@ != n,
{
    let d = tree.plugin_subcommands@[i].display_name@;
    reveal_strlit("*");
    assert(d == catalog[i].name@ + plugin_marker());
    assert(d[d.len() - 1] == '*');
    let names = builtin_names();
    let k = choose|k: int| 0 <= k < names.len() && names[k] == n;
    reveal_strlit("templates");
    reveal_strlit("template");
    reveal_strlit("new");
    reveal_strlit("add");
    reveal_strlit("up");
    reveal_strlit("deploy");
    reveal_strlit("login");
    reveal_strlit("registry");
    reveal_strlit("oci");
    reveal_strlit("build");
    reveal_strlit("plugins");
    reveal_strlit("plugin");
    reveal_strlit("trigger");
    reveal_strlit("watch");
    reveal_strlit("doctor");
    assert(n.len() >= 1 && n[n.len() - 1] != '*') by {
        if k == 0 {
            assert(n[n.len() - 1] == 's');
        } else if k == 1 {
            assert(n[n.len() - 1] == 'e');
        } else if k == 2 {
            assert(n[n.len() - 1] == 'w');
        } else if k == 3 {
            assert(n[n.len() - 1] == 'd');
        } else if k == 4 {
            assert(n[n.len() - 1] == 'p');
        } else if k == 5 {
            assert(n[n.len() - 1] == 'y');
        } else if k == 6 {
            assert(n[n.len() - 1] == 'n');
        } else if k == 7 {
            assert(n[n.len() - 1] == 'y');
        } else if k == 8 {
            assert(n[n.len() - 1] == 'i');
        } else if k == 9 {
            assert(n[n.len() - 1] == 'd');
        } else if k == 10 {
            assert(n[n.len() - 1] == 's');
        } else if k == 11 {
            assert(n[n.len() - 1] == 'n');
        } else if k == 12 {
            assert(n[n.len() - 1] == 'r');
        } else if k == 13 {
            assert(n[n.len() - 1] == 'h');
        } else {
            assert(k == 14);
            assert(n[n.len() - 1] == 'r');
        }
    }
}

fn visible_names() -> (r: Vec<&'static str>)
    ensures
        str_views(r@) == visible_builtin_names(),
{
    let mut r: Vec<&'static str> = Vec::new();
    r.push("templates");
    r.push("new");
    r.push("add");
    r.push("up");
    r.push("deploy");
    r.push("login");
    r.push("registry");
    r.push("build");
    r.push("plugins");
    r.push("watch");
    r.push("doctor");
    assert(str_views(r@) =~= visible_builtin_names());
    r
}

} // verus!
