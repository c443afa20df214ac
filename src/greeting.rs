use vstd::prelude::*;
use vstd::string::*;

verus! {

/// The text that comes before the name in a greeting.
pub open spec fn greeting_prefix() -> Seq<char> {
    "Hello, "@
}

/// The text that ends every greeting.
pub open spec fn greeting_suffix() -> Seq<char> {
    "! You've been greeted from Rust!"@
}

/// The greeting addressed to `name`.
pub open spec fn greeting_text(name: Seq<char>) -> Seq<char> {
    greeting_prefix() + name + greeting_suffix()
}

/// Formats the greeting for `name`; any string is accepted.
pub fn greet(name: &str) -> (r: String)
    ensures
        r@ == greeting_text(name@),
{
    let head = String::from_str("Hello, ");
    let with_name = head.concat(name);
    with_name.concat("! You've been greeted from Rust!")
}

/// Every greeting holds the name it was given, and ends with the fixed
/// greeting suffix.
pub proof fn lemma_greeting_holds_name(name: Seq<char>)
    ensures
        exists|i: int|
            0 <= i && i + name.len() <= greeting_text(name).len()
                && #[trigger] greeting_text(name).subrange(i, i + name.len()) == name,
        greeting_text(name).len() >= greeting_suffix().len(),
        greeting_text(name).subrange(
            greeting_text(name).len() - greeting_suffix().len(),
            greeting_text(name).len() as int,
        ) == greeting_suffix(),
{
    let g = greeting_text(name);
    let p = greeting_prefix().len() as int;
    assert(g.subrange(p, p + name.len()) =~= name);
    assert(g.subrange(g.len() - greeting_suffix().len(), g.len() as int) =~= greeting_suffix());
}

} // verus!
