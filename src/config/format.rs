//! Raw settings held as one string.
use vstd::prelude::*;

verus! {

/// A configuration text, to be decoded as YAML, TOML or JSON.
pub struct Format {
    input: String,
}

impl Format {
    /// The configuration text.
    pub closed spec fn input(&self) -> String {
        self.input
    }

    pub fn new(input: String) -> (r: Self)
        ensures
            r.input() == input,
    {
        Self { input }
    }

    /// The configuration text.
    pub fn text(&self) -> (r: &String)
        ensures
            *r == self.input(),
    {
        &self.input
    }
}

} // verus!
