use vstd::prelude::*;
use vstd::string::StringExecFns;

verus! {

/// The mathematical content of a leaf `D`: its name, as a sequence of
/// characters.
pub struct DView {
    pub name: Seq<char>,
}

/// A leaf greeting component labelled "D". It holds a name, set at
/// construction and immutable thereafter, and owns nothing else.
#[derive(Debug)]
pub struct D {
    pub name: String,
}

impl View for D {
    type V = DView;

    open spec fn view(&self) -> DView {
        DView { name: self.name@ }
    }
}

/// The view of the `D` that `D::new` constructs from a given name.
pub open spec fn d_made(name: Seq<char>) -> DView {
    DView { name }
}

/// The greeting a `D` produces: its label followed by its stored name.
pub open spec fn d_greeting(d: DView) -> Seq<char> {
    "Hello from D: "@ + d.name
}

impl D {
    /// Stores the name verbatim; never fails.
    pub fn new(name: String) -> (r: D)
        ensures
            r@ == d_made(name@),
    {
        D { name }
    }

    /// Returns exactly "Hello from D: " followed by the stored name.
    pub fn greet(&self) -> (r: String)
        ensures
            r@ == d_greeting(self@),
    {
        let mut s = String::from_str("Hello from D: ");
        s.append(self.name.as_str());
        s
    }
}

/// For every name, a `D` built from that name greets "Hello from D: "
/// followed by that name, verbatim.
pub proof fn lemma_d_new_greet(name: Seq<char>)
    ensures
        d_greeting(d_made(name)) == "Hello from D: "@ + name,
{
}

} // verus!
