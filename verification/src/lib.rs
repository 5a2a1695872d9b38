//! A minimal greeting library: one pure command that formats a
//! caller-supplied name into a fixed template. The surrounding desktop
//! shell (window creation, web-view embedding, command dispatch) is the
//! host framework's job and lives outside the verified library.

use vstd::prelude::*;
use vstd::string::StringExecFns;

verus! {

/// The greeting owed for a given name: the fixed prefix, the name
/// itself, and the fixed suffix, concatenated in that order.
pub open spec fn greeting(name: Seq<char>) -> Seq<char> {
    "Hello, "@ + name + "! You've been greeted from Rust!"@
}

/// The greeting command. Every name is accepted as it is: no
/// validation, no error path, and no state is touched. The result is
/// exactly the template with the name spliced in.
pub fn greet(name: &str) -> (r: String)
    ensures
        r@ == greeting(name@),
{
    let mut r = String::new();
    r.append("Hello, ");
    r.append(name);
    r.append("! You've been greeted from Rust!");
    r
}

/// The command is idempotent: any two results returned for the same
/// name are equal, character for character. Together with `greet`'s
/// postcondition this pins every repeated call to one output.
pub proof fn lemma_greet_deterministic(name: Seq<char>, r1: Seq<char>, r2: Seq<char>)
    requires
        r1 == greeting(name),
        r2 == greeting(name),
    ensures
        r1 == r2,
{
}

} // verus!
