//! The database and pool options shared by the relational backends.
use std::time::Duration;

use vstd::prelude::*;

use crate::storage::StorageError;

verus! {

/// The options of a database connection.
#[derive(Debug, Clone)]
pub struct DefaultDBOptions {
    pub host: Option<String>,
    pub username: String,
    pub password: String,
    pub db: String,
    pub port: Option<u16>,
}

impl DefaultDBOptions {
    /// The message of the first of username, password and database name
    /// that is empty, checked in that order; `None` when none is.
    pub open spec fn first_problem(&self) -> Option<Seq<char>> {
        if self.username@.len() == 0 {
            Some("username is empty"@)
        } else if self.password@.len() == 0 {
            Some("password is empty"@)
        } else if self.db@.len() == 0 {
            Some("db is empty"@)
        } else {
            None
        }
    }

    /// Checks that the username, the password and the database name are not
    /// empty, in that order, and fails on the first that is.
    pub fn validate(&self) -> (r: Result<(), StorageError>)
        ensures
            self.first_problem() is None ==> r is Ok,
            self.first_problem() matches Some(m) ==> (r matches Err(
                StorageError::BuildOptionsError(e),
            ) && e@ == m),
    {
        proof {
            reveal_strlit("username is empty");
            reveal_strlit("password is empty");
            reveal_strlit("db is empty");
        }
        if self.username.as_str().is_empty() {
            return Err(StorageError::BuildOptionsError(String::from_str("username is empty")));
        }
        if self.password.as_str().is_empty() {
            return Err(StorageError::BuildOptionsError(String::from_str("password is empty")));
        }
        if self.db.as_str().is_empty() {
            return Err(StorageError::BuildOptionsError(String::from_str("db is empty")));
        }
        Ok(())
    }
}

/// The options of a connection pool; each one left unset keeps the pool's
/// own default.
#[derive(Debug, Clone)]
pub struct DefaultDBPoolOptions {
    pub max_conns: Option<u32>,
    pub min_conns: Option<u32>,
    pub idle_duration: Option<Duration>,
    pub lifetime_duration: Option<Duration>,
    pub acquire_timeout: Option<Duration>,
}

} // verus!
