use vstd::prelude::*;
use vstd::string::StringExecFns;
use crate::leaf_c::{C, CView, c_made, c_greeting};
use crate::text::{contains_substring, lemma_prefix_contains};

verus! {

/// The mathematical content of a composite `B`: its name and the view of
/// its child `C`.
pub struct BView {
    pub name: Seq<char>,
    pub c: CView,
}

/// A composite greeting component labelled "B". It holds a name and
/// exclusively owns one child `C`, both fixed at construction.
#[derive(Debug)]
pub struct B {
    pub name: String,
    pub c: C,
}

impl View for B {
    type V = BView;

    open spec fn view(&self) -> BView {
        BView { name: self.name@, c: self.c@ }
    }
}

/// The view of the `B` that `B::new` constructs: the given name, and a
/// child `C` manufactured with the fixed name "from B".
pub open spec fn b_made(name: Seq<char>) -> BView {
    BView { name, c: c_made("from B"@) }
}

/// The greeting a `B` produces: its own label and name, a comma and a
/// space, then the full greeting of its child `C`.
pub open spec fn b_greeting(b: BView) -> Seq<char> {
    "Hello from B: "@ + b.name + ", "@ + c_greeting(b.c)
}

impl B {
    /// Stores the name verbatim and manufactures the child `C` with the
    /// fixed name "from B"; never fails.
    pub fn new(name: String) -> (r: B)
        ensures
            r@ == b_made(name@),
    {
        B { name, c: C::new(String::from_str("from B")) }
    }

    /// Returns exactly "Hello from B: <name>, <greeting of the child C>".
    pub fn greet(&self) -> (r: String)
        ensures
            r@ == b_greeting(self@),
    {
        let mut s = String::from_str("Hello from B: ");
        s.append(self.name.as_str());
        s.append(", ");
        let child = self.c.greet();
        s.append(child.as_str());
        s
    }
}

/// For every name, the greeting of a `B` built from that name contains
/// the substring "Hello from B".
pub proof fn lemma_b_greeting_contains_label(name: Seq<char>)
    ensures
        contains_substring(b_greeting(b_made(name)), "Hello from B"@),
{
    let g = b_greeting(b_made(name));
    reveal_strlit("Hello from B: ");
    reveal_strlit("Hello from B");
    assert(g.subrange(0, "Hello from B"@.len() as int) =~= "Hello from B"@);
    lemma_prefix_contains(g, "Hello from B"@);
}

} // verus!
