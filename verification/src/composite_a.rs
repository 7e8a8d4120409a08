use vstd::prelude::*;
use vstd::string::StringExecFns;
use crate::composite_b::{B, BView, b_made, b_greeting};
use crate::text::{contains_substring, lemma_prefix_contains};

verus! {

/// The mathematical content of a composite `A`: its name and the view of
/// its child `B`.
pub struct AView {
    pub name: Seq<char>,
    pub b: BView,
}

/// A composite greeting component labelled "A". It holds a name and
/// exclusively owns one child `B`, both fixed at construction.
#[derive(Debug)]
pub struct A {
    pub name: String,
    pub b: B,
}

impl View for A {
    type V = AView;

    open spec fn view(&self) -> AView {
        AView { name: self.name@, b: self.b@ }
    }
}

/// The view of the `A` that `A::new` constructs: the given name, and a
/// child `B` manufactured with the fixed name "from A".
pub open spec fn a_made(name: Seq<char>) -> AView {
    AView { name, b: b_made("from A"@) }
}

/// The greeting an `A` produces: its own label and name, a comma and a
/// space, then the full recursive greeting of its child `B`.
pub open spec fn a_greeting(a: AView) -> Seq<char> {
    "Hello from A: "@ + a.name + ", "@ + b_greeting(a.b)
}

impl A {
    /// Stores the name verbatim and manufactures the child `B` with the
    /// fixed name "from A"; never fails.
    pub fn new(name: String) -> (r: A)
        ensures
            r@ == a_made(name@),
    {
        A { name, b: B::new(String::from_str("from A")) }
    }

    /// Returns exactly "Hello from A: <name>, <greeting of the child B>".
    pub fn greet(&self) -> (r: String)
        ensures
            r@ == a_greeting(self@),
    {
        let mut s = String::from_str("Hello from A: ");
        s.append(self.name.as_str());
        s.append(", ");
        let child = self.b.greet();
        s.append(child.as_str());
        s
    }
}

/// For every name, the greeting of an `A` built from that name contains
/// the substring "Hello from A".
pub proof fn lemma_a_greeting_contains_label(name: Seq<char>)
    ensures
        contains_substring(a_greeting(a_made(name)), "Hello from A"@),
{
    let g = a_greeting(a_made(name));
    reveal_strlit("Hello from A: ");
    reveal_strlit("Hello from A");
    assert(g.subrange(0, "Hello from A"@.len() as int) =~= "Hello from A"@);
    lemma_prefix_contains(g, "Hello from A"@);
}

} // verus!
