use vstd::prelude::*;
use vstd::string::StringExecFns;

verus! {

/// The mathematical content of a `Greeting`: its message, as a sequence
/// of characters.
pub struct GreetingView {
    pub message: Seq<char>,
}

/// A standalone greeting value: a single message, produced transiently
/// and returned; nothing is persisted.
#[derive(Debug)]
pub struct Greeting {
    pub message: String,
}

impl View for Greeting {
    type V = GreetingView;

    open spec fn view(&self) -> GreetingView {
        GreetingView { message: self.message@ }
    }
}

/// The message the standalone greeting builds for a given name.
pub open spec fn simple_greeting(name: Seq<char>) -> Seq<char> {
    "Hello, "@ + name + "!"@
}

/// Builds a transient `Greeting` whose message is "Hello, <name>!" and
/// returns that message. Never fails.
pub fn greet(name: &str) -> (r: String)
    ensures
        r@ == simple_greeting(name@),
{
    let mut message = String::from_str("Hello, ");
    message.append(name);
    message.append("!");
    let greeting = Greeting { message };
    greeting.message
}

} // verus!
