//! The options of a PostgreSQL backend.
use vstd::prelude::*;

use super::options::{DefaultDBOptions, DefaultDBPoolOptions};
use crate::storage::StorageError;

verus! {

/// The port used where the options give none.
pub const DEFAULT_PORT: u16 = 5432;

/// Validated database options together with pool options.
pub struct Options {
    db_opts: DefaultDBOptions,
    pool_opts: DefaultDBPoolOptions,
    app_name: Option<String>,
}

impl Options {
    /// The database options.
    pub closed spec fn db(&self) -> DefaultDBOptions {
        self.db_opts
    }

    /// The pool options.
    pub closed spec fn pool(&self) -> DefaultDBPoolOptions {
        self.pool_opts
    }

    /// The application name reported to the server.
    pub closed spec fn app(&self) -> Option<String> {
        self.app_name
    }

    /// Keeps the options; fails where the database options do not validate.
    pub fn new(
        db_opts: DefaultDBOptions,
        pool_opts: DefaultDBPoolOptions,
        app_name: Option<String>,
    ) -> (r: Result<Self, StorageError>)
        ensures
            db_opts.first_problem() is None ==> (r matches Ok(o) && o.db() == db_opts && o.pool()
                == pool_opts && o.app() == app_name),
            db_opts.first_problem() matches Some(m) ==> (r matches Err(
                StorageError::BuildOptionsError(e),
            ) && e@ == m),
    {
        match db_opts.validate() {
            Err(e) => Err(e),
            Ok(()) => Ok(Self { db_opts, pool_opts, app_name }),
        }
    }

    /// The application name reported to the server.
    pub fn app_name(&self) -> (r: &Option<String>)
        ensures
            *r == self.app(),
    {
        &self.app_name
    }

    /// The database options.
    pub fn db_opts(&self) -> (r: &DefaultDBOptions)
        ensures
            *r == self.db(),
    {
        &self.db_opts
    }

    /// The pool options.
    pub fn pool_opts(&self) -> (r: &DefaultDBPoolOptions)
        ensures
            *r == self.pool(),
    {
        &self.pool_opts
    }

    /// The port to connect to: the one given, else the default port.
    pub fn port(&self) -> (r: u16)
        ensures
            r == match self.db().port {
                Some(p) => p,
                None => DEFAULT_PORT,
            },
    {
        match self.db_opts.port {
            Some(p) => p,
            None => DEFAULT_PORT,
        }
    }
}

} // verus!
