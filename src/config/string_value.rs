//! Raw settings held as a string.
use vstd::prelude::*;

use super::types::SourceFormatter;

verus! {

/// Settings read as one text, such as the content of a file.
#[derive(Clone)]
pub struct Value {
    input: String,
}

impl Value {
    /// The text held.
    pub closed spec fn input(&self) -> String {
        self.input
    }

    pub fn new(input: String) -> (r: Self)
        ensures
            r.input() == input,
    {
        Self { input }
    }
}

impl SourceFormatter<String> for Value {
    fn get_source_value(&self) -> String {
        self.input.clone()
    }
}

} // verus!
