//! Helper tools that are fetched on demand, and what the registry says of them.

use vstd::prelude::*;

pub mod krate;

verus! {

/// The name under which an external tool is published in the registry.
#[derive(Clone, Debug, PartialEq, Eq)]
pub struct Tool {
    name: String,
}

impl View for Tool {
    type V = Seq<char>;

    closed spec fn view(&self) -> Seq<char> {
        self.name@
    }
}

impl Tool {
    /// The tool of the given name.
    pub fn new(name: &str) -> (tool: Tool)
        ensures
            tool@ == name@,
    {
        Tool { name: name.to_owned() }
    }

    /// The tool's name.
    pub fn name(&self) -> (name: &str)
        ensures
            name@ == self@,
    {
        self.name.as_str()
    }
}

} // verus!
