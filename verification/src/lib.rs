//! Command-resolution and dispatch front-end of an extensible command-line
//! tool.
//!
//! Given raw process arguments, the library decides whether an invocation
//! targets a statically compiled subcommand, a generic trigger subcommand,
//! or a dynamically discovered plugin, and routes execution accordingly,
//! while producing a single help surface that blends all three sources.

use vstd::prelude::*;

pub mod catalog;
pub mod error_chain;
pub mod forward;
pub mod resolve;
pub mod tree;
pub mod trigger;

use crate::catalog::{PluginHelpEntry, PluginManifest, assembled, candidate_views, entry_views,
    plugin_help_entries};
use crate::forward::invocation_args;
use crate::resolve::{Resolution, UsageError, resolve, resolves_to};
use crate::tree::{CommandTree, build_tree, tree_built_from};

verus! {

/// The tool's version line: the release version followed by the commit hash
/// and commit date in parentheses.
pub fn build_info(version: &str, commit_sha: &str, commit_date: &str) -> (r: String)
    ensures
        r@ == version@ + " ("@ + commit_sha@ + " "@ + commit_date@ + ")"@,
{
    String::from_str(version).concat(" (").concat(commit_sha).concat(" ").concat(commit_date)
        .concat(")")
}

/// One invocation's whole resolution pass, run before any long-running work
/// begins: assemble the plugin catalog from the installed manifests and the
/// predefined table, build the merged command tree from it, and resolve the
/// argument vector (program name first) to a route. The catalog and tree
/// are returned alongside the route: the tree renders help and usage
/// errors, also for a forwarded invocation whose executable is missing.
pub fn route_invocation(
    argv: Vec<String>,
    manifests: &Vec<PluginManifest>,
    predefined: &Vec<(String, String)>,
) -> (r: (Vec<PluginHelpEntry>, CommandTree, Result<Resolution, UsageError>))
    requires
        argv@.len() >= 1,
    ensures
        entry_views(r.0@) == assembled(candidate_views(manifests@, predefined@)),
        tree_built_from(r.1, r.0@),
        resolves_to(argv@.subrange(1, argv@.len() as int), entry_views(r.0@), r.2),
{
    let catalog = plugin_help_entries(manifests, predefined);
    let cmd_tree = build_tree(&catalog);
    let args = invocation_args(argv);
    let route = resolve(args, &catalog);
    (catalog, cmd_tree, route)
}

} // verus!
