//! Commands that the web front end invokes on the shell.

use vstd::prelude::*;

verus! {

/// The greeting for `name`: the name between a fixed opening and a fixed
/// close, unchanged and unescaped.
pub open spec fn greeting(name: Seq<char>) -> Seq<char> {
    "Hello, "@ + name + "! You've been greeted from Rust!"@
}

/// Greets `name`.
pub fn greet(name: &str) -> (message: String)
    ensures
        message@ == greeting(name@),
{
    let mut message = String::from_str("Hello, ");
    message.append(name);
    message.append("! You've been greeted from Rust!");
    message
}

} // verus!
