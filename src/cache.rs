//! The base abstractions of a cache layer: its errors and its key and value
//! types.
use vstd::prelude::*;

verus! {

/// The failures of a cache layer.
#[derive(Debug, Clone, PartialEq, Eq)]
pub enum CoreError {
    StorageError(String),
    InvalidateError(String),
    EvictionError(String),
}

/// The text of a cache error: its kind, then its detail.
pub open spec fn core_error_text(e: CoreError) -> Seq<char> {
    match e {
        CoreError::StorageError(m) => "storage error: "@ + m@,
        CoreError::InvalidateError(m) => "invalidate error: "@ + m@,
        CoreError::EvictionError(m) => "eviction error: "@ + m@,
    }
}

impl CoreError {
    /// The text of the error, such as `eviction error: ...`.
    pub fn to_string(&self) -> (r: String)
        ensures
            r@ == core_error_text(*self),
    {
        let (head, detail) = match self {
            CoreError::StorageError(m) => (String::from_str("storage error: "), m),
            CoreError::InvalidateError(m) => (String::from_str("invalidate error: "), m),
            CoreError::EvictionError(m) => (String::from_str("eviction error: "), m),
        };
        proof {
            reveal_strlit("storage error: ");
            reveal_strlit("invalidate error: ");
            reveal_strlit("eviction error: ");
        }
        head.concat(detail.as_str())
    }
}

/// A key or value kept in a cache, in whatever representation its domain
/// chooses.
pub trait ValueBuilder {
    type Value;

    fn value(&self) -> Self::Value;
}

} // verus!
