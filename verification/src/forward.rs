//! External forwarder: re-serializes the original argument vector for an
//! out-of-process plugin executable, preserving every token byte for byte.

use vstd::prelude::*;

verus! {

/// The process argument vector without the program name: what resolution and
/// forwarding work on. Every remaining token is kept, unchanged and in
/// order.
pub fn invocation_args(argv: Vec<String>) -> (r: Vec<String>)
    requires
        argv@.len() >= 1,
    ensures
        r@ == argv@.subrange(1, argv@.len() as int),
{
    let mut r = argv;
    r.remove(0);
    assert(r@ =~= argv@.subrange(1, argv@.len() as int));
    r
}

/// What the external plugin executable is handed: the plugin name to locate
/// the binary by, and the remaining tokens exactly as the user typed them —
/// program name and subcommand name stripped, nothing else altered.
pub fn forward_plan(args: Vec<String>) -> (r: Option<(String, Vec<String>)>)
    ensures
        args@.len() == 0 ==> r is None,
        args@.len() >= 1 ==> (r matches Some((name, rest)) && name == args@[0] && rest@ == args@
            .subrange(1, args@.len() as int)),
{
    if args.len() == 0 {
        return None;
    }
    let mut rest = args;
    let name = rest.remove(0);
    assert(rest@ =~= args@.subrange(1, args@.len() as int));
    Some((name, rest))
}

} // verus!
