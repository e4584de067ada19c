use vstd::prelude::*;
use vstd::string::StringExecFns;

verus! {

/// The text that opens a greeting.
pub open spec fn greeting_prefix() -> Seq<char> {
    seq!['H', 'e', 'l', 'l', 'o', ',', ' ']
}

/// The greeting for `name`: `Hello, <name>! You've been greeted from Rust!`.
pub open spec fn greeting_text(name: Seq<char>) -> Seq<char> {
    greeting_prefix() + name + "! You've been greeted from Rust!"@
}

/// Formats the greeting that the front-end shows for `name`.
pub fn greet(name: &str) -> (r: String)
    ensures
        r@ == greeting_text(name@),
{
    let mut r = String::from_str("Hello, ");
    proof {
        reveal_strlit("Hello, ");
    }
    assert(r@ =~= greeting_prefix());
    r.append(name);
    r.append("! You've been greeted from Rust!");
    r
}

} // verus!
