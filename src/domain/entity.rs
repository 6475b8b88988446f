//! What an entity of the domain offers.
use vstd::prelude::*;

use super::BaseError;

verus! {

/// An entity that can encode itself as JSON.
pub trait ToJSON {
    fn to_json(&self) -> Result<String, BaseError>;
}

/// An entity that can check its own properties.
pub trait Validate {
    fn validate(&self) -> Result<(), BaseError>;
}

/// The unique identity of an entity: a UUID string, an auto-increment
/// number, or any other identifier.
pub trait UID {
    type Value;

    fn uid(&self) -> Self::Value;
}

} // verus!
