//! The options of a standalone MySQL storage and their validation.
use std::time::Duration;

use vstd::prelude::*;

verus! {

/// Why MySQL options were refused.
#[derive(Debug, Clone, PartialEq, Eq)]
pub enum MySQLError {
    OptionsError(String),
}

impl MySQLError {
    /// The text of the error, such as `options error: db is empty`.
    pub fn to_string(&self) -> (r: String)
        ensures
            r@ == match *self {
                MySQLError::OptionsError(m) => "options error: "@ + m@,
            },
    {
        proof {
            reveal_strlit("options error: ");
        }
        match self {
            MySQLError::OptionsError(m) => String::from_str("options error: ").concat(m.as_str()),
        }
    }
}

/// The port used where the options give none.
pub const DEFAULT_PORT: u16 = 3306;

/// The options of a MySQL connection.
#[derive(Debug, Clone)]
pub struct Options {
    pub host: Option<String>,
    pub username: String,
    pub password: String,
    pub db: String,
    pub port: Option<u16>,
}

/// The options of a MySQL connection pool, over validated connection options.
#[derive(Debug, Clone)]
pub struct PoolOptions {
    pub db_opts: Options,
    pub max_conns: Option<u32>,
    pub min_conns: Option<u32>,
    pub idle_duration: Option<Duration>,
    pub lifetime_duration: Option<Duration>,
    pub acquire_timeout: Option<Duration>,
}

impl Options {
    /// The message of the first of username, password and database name
    /// that is empty, checked in that order; `None` when none is.
    pub open spec fn first_problem(&self) -> Option<Seq<char>> {
        if self.username@.len() == 0 {
            Some("username is empty"@)
        } else if self.password@.len() == 0 {
            Some("password is empty"@)
        } else if self.db@.len() == 0 {
            Some("db is empty"@)
        } else {
            None
        }
    }

    /// Checks that the username, the password and the database name are not
    /// empty, in that order, and fails on the first that is.
    pub fn validate(&self) -> (r: Result<(), MySQLError>)
        ensures
            self.first_problem() is None ==> r is Ok,
            self.first_problem() matches Some(m) ==> (r matches Err(MySQLError::OptionsError(e))
                && e@ == m),
    {
        proof {
            reveal_strlit("username is empty");
            reveal_strlit("password is empty");
            reveal_strlit("db is empty");
        }
        if self.username.as_str().is_empty() {
            return Err(MySQLError::OptionsError(String::from_str("username is empty")));
        }
        if self.password.as_str().is_empty() {
            return Err(MySQLError::OptionsError(String::from_str("password is empty")));
        }
        if self.db.as_str().is_empty() {
            return Err(MySQLError::OptionsError(String::from_str("db is empty")));
        }
        Ok(())
    }

    /// The port to connect to: the one given, else the default port.
    pub fn port_or_default(&self) -> (r: u16)
        ensures
            r == match self.port {
                Some(p) => p,
                None => DEFAULT_PORT,
            },
    {
        match self.port {
            Some(p) => p,
            None => DEFAULT_PORT,
        }
    }
}

impl PoolOptions {
    /// Pool options over `db_opts`, keeping one connection at least and
    /// leaving the rest to the pool's defaults; fails where `db_opts` does
    /// not validate.
    pub fn new(db_opts: Options) -> (r: Result<Self, MySQLError>)
        ensures
            db_opts.first_problem() is None ==> (r matches Ok(p) && p.db_opts == db_opts
                && p.max_conns is None && p.min_conns == Some(1u32) && p.idle_duration is None
                && p.lifetime_duration is None && p.acquire_timeout is None),
            db_opts.first_problem() matches Some(m) ==> (r matches Err(MySQLError::OptionsError(e))
                && e@ == m),
    {
        match db_opts.validate() {
            Err(e) => Err(e),
            Ok(()) => Ok(
                Self {
                    db_opts,
                    max_conns: None,
                    min_conns: Some(1),
                    idle_duration: None,
                    lifetime_duration: None,
                    acquire_timeout: None,
                },
            ),
        }
    }
}

} // verus!
