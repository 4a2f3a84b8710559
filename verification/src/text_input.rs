//! The raw text a user has typed, before any cleaning.

use vstd::prelude::*;

verus! {

/// The text as it was entered.
#[derive(Debug, Clone, PartialEq)]
pub struct TextInput {
    pub raw: String,
}

impl TextInput {
    /// An input that holds no text yet.
    pub fn new() -> (input: Self)
        ensures
            input.raw@ == Seq::<char>::empty(),
    {
        TextInput { raw: String::new() }
    }

    /// The input after the user has entered `action`: it holds `action`,
    /// whatever was there before.
    pub fn reduce(&self, action: String) -> (next: Self)
        ensures
            next.raw@ == action@,
    {
        TextInput { raw: action }
    }
}

} // verus!
