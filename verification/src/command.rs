//! The command table of the shell: a single, pure greeting.

use vstd::prelude::*;
use vstd::string::*;

verus! {

/// The greeting for `name`: a fixed opening, the name exactly as given, a
/// fixed closing. Nothing in the name is escaped, trimmed or checked.
pub open spec fn greeting(name: Seq<char>) -> Seq<char> {
    "Hello, "@ + name + "! You've been greeted from Rust!"@
}

/// Greets `name`. Pure: the result depends on the argument alone.
pub fn greet(name: &str) -> (out: String)
    ensures
        out@ == greeting(name@),
{
    let mut out = String::from_str("Hello, ");
    out.append(name);
    out.append("! You've been greeted from Rust!");
    out
}

/// The name stands in its greeting unchanged, between the opening and the
/// closing: nothing of it is escaped, cut or added to, whatever it holds and
/// however long it is.
pub proof fn lemma_greeting_holds_name(name: Seq<char>)
    ensures
        greeting(name).len() == name.len() + 39,
        greeting(name).subrange(0, 7) == "Hello, "@,
        greeting(name).subrange(7, 7 + name.len() as int) == name,
        greeting(name).subrange(7 + name.len() as int, 39 + name.len() as int)
            == "! You've been greeted from Rust!"@,
{
    reveal_strlit("Hello, ");
    reveal_strlit("! You've been greeted from Rust!");
}

/// Different names get different greetings.
pub proof fn lemma_greeting_tells_names_apart(a: Seq<char>, b: Seq<char>)
    requires
        greeting(a) == greeting(b),
    ensures
        a == b,
{
    lemma_greeting_holds_name(a);
    lemma_greeting_holds_name(b);
}

} // verus!
