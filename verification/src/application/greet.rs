//! The greeting use case.

use vstd::prelude::*;

verus! {

/// The greeting for a name.
pub open spec fn greeting(name: Seq<char>) -> Seq<char> {
    "Hello, "@ + name + "! You've been greeted from Rust!"@
}

/// Builds the greeting for a name that already passed the command's boundary checks.
pub fn greet(name: &str) -> (g: String)
    ensures
        g@ == greeting(name@),
{
    let mut g = String::from_str("Hello, ");
    g.append(name);
    g.append("! You've been greeted from Rust!");
    g
}

} // verus!
