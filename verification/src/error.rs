//! Why an expansion was refused.

use vstd::prelude::*;

verus! {

/// A refusal of the declaration. No part of an expansion comes with it.
#[derive(Debug, PartialEq, Eq)]
pub struct ExpansionError {
    /// What was found, and what was expected in its place.
    pub message: String,
}

impl DeepView for ExpansionError {
    type V = Seq<char>;

    open spec fn deep_view(&self) -> Seq<char> {
        self.message@
    }
}

impl ExpansionError {
    /// The refusal with this message.
    pub fn new(message: String) -> (r: ExpansionError)
        ensures
            r.deep_view() == message@,
    {
        ExpansionError { message }
    }

    /// The message.
    pub fn message(&self) -> (r: &str)
        ensures
            r@ == self.deep_view(),
    {
        self.message.as_str()
    }
}

} // verus!
