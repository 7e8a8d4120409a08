use vstd::prelude::*;
use vstd::string::StringExecFns;

verus! {

/// The mathematical content of a leaf `C`: its name, as a sequence of
/// characters.
pub struct CView {
    pub name: Seq<char>,
}

/// A leaf greeting component labelled "C". It holds a name, set at
/// construction and immutable thereafter, and owns nothing else.
#[derive(Debug)]
pub struct C {
    pub name: String,
}

impl View for C {
    type V = CView;

    open spec fn view(&self) -> CView {
        CView { name: self.name@ }
    }
}

/// The view of the `C` that `C::new` constructs from a given name.
pub open spec fn c_made(name: Seq<char>) -> CView {
    CView { name }
}

/// The greeting a `C` produces: its label followed by its stored name.
pub open spec fn c_greeting(c: CView) -> Seq<char> {
    "Hello from C: "@ + c.name
}

impl C {
    /// Stores the name verbatim; never fails.
    pub fn new(name: String) -> (r: C)
        ensures
            r@ == c_made(name@),
    {
        C { name }
    }

    /// Returns exactly "Hello from C: " followed by the stored name.
    pub fn greet(&self) -> (r: String)
        ensures
            r@ == c_greeting(self@),
    {
        let mut s = String::from_str("Hello from C: ");
        s.append(self.name.as_str());
        s
    }
}

/// For every name, a `C` built from that name greets "Hello from C: "
/// followed by that name, verbatim.
pub proof fn lemma_c_new_greet(name: Seq<char>)
    ensures
        c_greeting(c_made(name)) == "Hello from C: "@ + name,
{
}

} // verus!
