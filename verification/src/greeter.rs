//! A greeting for a name.

use vstd::prelude::*;
use vstd::string::StringExecFns;

verus! {

/// Someone to greet.
#[derive(Debug)]
pub struct Greeter {
    name: String,
}

impl Greeter {
    /// The name to greet.
    pub closed spec fn name_text(self) -> Seq<char> {
        self.name@
    }

    /// The greeting: a fixed salutation, then the name.
    pub open spec fn greeting_text(self) -> Seq<char> {
        "Hello, "@ + self.name_text()
    }

    /// A greeter for the given name.
    pub fn new(name: String) -> (greeter: Greeter)
        ensures
            greeter.name_text() == name@,
    {
        Greeter { name }
    }

    /// The greeting to show.
    pub fn greet(self) -> (greeting: String)
        ensures
            greeting@ == self.greeting_text(),
    {
        String::from_str("Hello, ").concat(self.name.as_str())
    }
}

} // verus!
