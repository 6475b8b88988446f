//! The domain layer's abstractions: entities, events and repositories, and
//! their common error.
pub mod aggregate;
pub mod entity;
pub mod repository;

use vstd::prelude::*;

verus! {

/// The common failures of domain entities.
#[derive(Debug, Clone, PartialEq, Eq)]
pub enum BaseError {
    ToJSONError(String),
    ValidateError(String),
    PublishError(String),
    EmitError(String),
    HandleError { event_name: String, error_msg: String },
    RepositoryError(String),
}

/// The text of a domain error: its kind, then its detail.
pub open spec fn base_error_text(e: BaseError) -> Seq<char> {
    match e {
        BaseError::ToJSONError(m) => "unable to convert to json: "@ + m@,
        BaseError::ValidateError(m) => "validation failed: "@ + m@,
        BaseError::PublishError(m) => "unable to publish an event: "@ + m@,
        BaseError::EmitError(m) => "unable to emit event: "@ + m@,
        BaseError::HandleError { event_name, error_msg } => "unable to handle an event: "@
            + event_name@ + ", error: "@ + error_msg@,
        BaseError::RepositoryError(m) => "repository error: "@ + m@,
    }
}

impl BaseError {
    /// The text of the error, such as `repository error: entity not found`.
    pub fn to_string(&self) -> (r: String)
        ensures
            r@ == base_error_text(*self),
    {
        proof {
            reveal_strlit("unable to convert to json: ");
            reveal_strlit("validation failed: ");
            reveal_strlit("unable to publish an event: ");
            reveal_strlit("unable to emit event: ");
            reveal_strlit("unable to handle an event: ");
            reveal_strlit(", error: ");
            reveal_strlit("repository error: ");
        }
        match self {
            BaseError::ToJSONError(m) => String::from_str("unable to convert to json: ").concat(
                m.as_str(),
            ),
            BaseError::ValidateError(m) => String::from_str("validation failed: ").concat(
                m.as_str(),
            ),
            BaseError::PublishError(m) => String::from_str("unable to publish an event: ").concat(
                m.as_str(),
            ),
            BaseError::EmitError(m) => String::from_str("unable to emit event: ").concat(
                m.as_str(),
            ),
            BaseError::HandleError { event_name, error_msg } => {
                let head = String::from_str("unable to handle an event: ").concat(
                    event_name.as_str(),
                );
                head.concat(", error: ").concat(error_msg.as_str())
            },
            BaseError::RepositoryError(m) => String::from_str("repository error: ").concat(
                m.as_str(),
            ),
        }
    }
}

} // verus!
