//! The common abstraction of external storage and its errors.
use vstd::prelude::*;

verus! {

/// The failures of common storage activities.
#[derive(Debug, Clone, PartialEq, Eq)]
pub enum StorageError {
    ConnectionError(String),
    PingError(String),
    QueryError(String),
    MethodNotImplementedError(String),
    BuildOptionsError(String),
}

/// The text of a storage error: its kind, then its detail.
pub open spec fn storage_error_text(e: StorageError) -> Seq<char> {
    match e {
        StorageError::ConnectionError(m) => "storage connection error: "@ + m@,
        StorageError::PingError(m) => "storage ping error: "@ + m@,
        StorageError::QueryError(m) => "storage query error: "@ + m@,
        StorageError::MethodNotImplementedError(m) => "storage trait not implemented: "@ + m@,
        StorageError::BuildOptionsError(m) => "options error: "@ + m@,
    }
}

impl StorageError {
    /// The text of the error, such as `options error: db is empty`.
    pub fn to_string(&self) -> (r: String)
        ensures
            r@ == storage_error_text(*self),
    {
        let (head, detail) = match self {
            StorageError::ConnectionError(m) => (String::from_str("storage connection error: "), m),
            StorageError::PingError(m) => (String::from_str("storage ping error: "), m),
            StorageError::QueryError(m) => (String::from_str("storage query error: "), m),
            StorageError::MethodNotImplementedError(m) => (
                String::from_str("storage trait not implemented: "),
                m,
            ),
            StorageError::BuildOptionsError(m) => (String::from_str("options error: "), m),
        };
        proof {
            reveal_strlit("storage connection error: ");
            reveal_strlit("storage ping error: ");
            reveal_strlit("storage query error: ");
            reveal_strlit("storage trait not implemented: ");
            reveal_strlit("options error: ");
        }
        head.concat(detail.as_str())
    }
}

/// An external storage: it hands out its instance, and may support
/// connecting, pinging and closing. An implementor that does not override
/// one of these three reports it as not implemented, naming the method.
pub trait Storage {
    type Instance;

    fn get_instance(self) -> Self::Instance;

    fn connect(&self) -> Result<(), StorageError> {
        Err(StorageError::MethodNotImplementedError(String::from_str("connect")))
    }

    fn ping(&mut self) -> Result<(), StorageError> {
        Err(StorageError::MethodNotImplementedError(String::from_str("ping")))
    }

    fn close(&mut self) -> Result<(), StorageError> {
        Err(StorageError::MethodNotImplementedError(String::from_str("close")))
    }
}

} // verus!
