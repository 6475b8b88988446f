//! Raw settings held as key-value pairs.
use vstd::prelude::*;

use super::types::SourceFormatter;

verus! {

/// Settings read as key-value pairs, such as environment variables.
#[derive(Debug)]
pub struct Value {
    input: Vec<(String, String)>,
}

impl Value {
    /// The pairs held.
    pub closed spec fn input(&self) -> Seq<(String, String)> {
        self.input@
    }

    pub fn new(input: Vec<(String, String)>) -> (r: Self)
        ensures
            r.input() == input@,
    {
        Self { input }
    }
}

impl SourceFormatter<Vec<(String, String)>> for Value {
    fn get_source_value(&self) -> Vec<(String, String)> {
        self.input.clone()
    }
}

} // verus!
