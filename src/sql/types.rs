//! What a backend builds its connection options with.
use vstd::prelude::*;

verus! {

/// Builds the options of a single connection, which also serve as the base
/// options of a pool: host, port, username, password and database.
pub trait SqlxOptionsBuilder {
    type SqlxOptionType;

    fn common_options(&self) -> Self::SqlxOptionType;
}

} // verus!
