//! The repository pattern: a store of entities addressed by their identity.
use vstd::prelude::*;

use super::entity::UID;
use super::BaseError;

verus! {

/// Finds, saves and removes entities by their identity.
pub trait Repository {
    type Entity: Clone;
    type UIDType: UID;

    fn find_by_uid(&self, uid: Self::UIDType) -> Result<Self::Entity, BaseError>;

    fn save(&mut self, entity: Self::Entity) -> Result<(), BaseError>;

    fn remove(&mut self, uid: Self::UIDType) -> Result<(), BaseError>;
}

} // verus!
