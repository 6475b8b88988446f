//! The database object: validated options and the shared engine handle,
//! opened at most once.
use std::sync::Arc;

use vstd::prelude::*;

use super::options::Options;
use super::types::RocksDBError;
use crate::storage::Storage;

verus! {

/// A database: its options and, once built, the engine handle `H` that every
/// executor on it shares.
///
/// The handle starts unset; [`DB::build`] opens it and keeps it, and later
/// builds hand back the same handle.
pub struct DB<T, H> {
    pub(crate) db: Option<Arc<H>>,
    opts: Options<T>,
}

/// What `build` did, seen from outside: `before` is the database when the
/// call began, `after` when it ended, `r` what it returned, and `open` the
/// function it was given to open the engine.
pub open spec fn build_post<T, H, F: FnOnce(&String, &String, &T, &T) -> Result<H, String>>(
    before: DB<T, H>,
    after: DB<T, H>,
    open: F,
    r: Result<Option<Arc<H>>, RocksDBError>,
) -> bool {
    let o = before.options();
    match before.handle() {
        Some(h) => r == Ok::<Option<Arc<H>>, RocksDBError>(Some(h)) && after == before,
        None => if o.cf_opts is None {
            after == before && (r matches Err(RocksDBError::InstanceError(m))
                && m@ == "cf options was empty"@)
        } else if o.db_opts is None {
            after == before && (r matches Err(RocksDBError::InstanceError(m))
                && m@ == "db options was empty"@)
        } else {
            exists|opened: Result<H, String>|
                #![trigger open.ensures((&o.path, &o.cf_name, &o.db_opts->Some_0, &o.cf_opts->Some_0), opened)]
                open.ensures(
                    (&o.path, &o.cf_name, &o.db_opts->Some_0, &o.cf_opts->Some_0),
                    opened,
                ) && match opened {
                    Ok(h) => after.options() == o && after.handle() == Some(Arc::new(h))
                        && r == Ok::<Option<Arc<H>>, RocksDBError>(Some(Arc::new(h))),
                    Err(e) => after == before && r == Err::<Option<Arc<H>>, RocksDBError>(
                        RocksDBError::InstanceError(e),
                    ),
                }
        },
    }
}

impl<T, H> DB<T, H> {
    /// The engine handle, once there is one.
    pub closed spec fn handle(&self) -> Option<Arc<H>> {
        self.db
    }

    /// The options the database was created with.
    pub closed spec fn options(&self) -> Options<T> {
        self.opts
    }

    /// The engine handle, once there is one.
    pub fn native_handle(&self) -> (r: &Option<Arc<H>>)
        ensures
            *r == self.handle(),
    {
        &self.db
    }

    /// Creates an unbuilt database; fails where the options do not validate,
    /// with the validation error's text.
    pub fn new(opts: Options<T>) -> (r: Result<Self, RocksDBError>)
        ensures
            opts.is_valid() ==> (r matches Ok(d) && d.options() == opts && d.handle() is None),
            opts.first_problem() matches Some(p) ==> (r matches Err(RocksDBError::InstanceError(m))
                && m@ == "validate error: "@ + p),
    {
        match opts.validate() {
            Err(e) => {
                let m = e.to_string();
                Err(RocksDBError::InstanceError(m))
            },
            Ok(()) => Ok(Self { opts, db: None }),
        }
    }

    /// Puts a handle in place, bypassing [`DB::build`].
    pub fn set_db(&mut self, instance: Option<Arc<H>>) -> (r: &mut Self)
        ensures
            r.handle() == instance,
            r.options() == old(self).options(),
            *final(self) == *final(r),
    {
        self.db = instance;
        self
    }

    /// Opens the engine, once.
    ///
    /// Where the database already holds a handle, it is returned and nothing
    /// is opened. Otherwise both tuning objects must be set; `open` is then
    /// called with the path, the column family name and the database and
    /// column family tuning objects, and the handle it opens is kept and
    /// returned. A failure of `open` is returned as an instance error with
    /// its message.
    pub fn build<F>(&mut self, open: F) -> (r: Result<Option<Arc<H>>, RocksDBError>) where
        F: FnOnce(&String, &String, &T, &T) -> Result<H, String>,

        requires
            forall|p: &String, c: &String, d: &T, t: &T| open.requires((p, c, d, t)),
        ensures
            build_post(*old(self), *final(self), open, r),
    {
        proof {
            reveal_strlit("cf options was empty");
            reveal_strlit("db options was empty");
        }
        if let Some(h) = &self.db {
            return Ok(Some(h.clone()));
        }
        let cf_opts = match &self.opts.cf_opts {
            Some(c) => c,
            None => {
                return Err(RocksDBError::InstanceError(String::from_str("cf options was empty")));
            },
        };
        let db_opts = match &self.opts.db_opts {
            Some(d) => d,
            None => {
                return Err(RocksDBError::InstanceError(String::from_str("db options was empty")));
            },
        };
        let opened = open(&self.opts.path, &self.opts.cf_name, db_opts, cf_opts);
        match opened {
            Ok(h) => {
                let shared = Arc::new(h);
                self.db = Some(shared.clone());
                Ok(Some(shared))
            },
            Err(e) => Err(RocksDBError::InstanceError(e)),
        }
    }
}

} // verus!

verus! {

/// Once a build has succeeded, building again returns the very same handle
/// and leaves the database as it is, whatever the second call is given to
/// open the engine with: the engine is opened at most once.
pub proof fn lemma_build_is_idempotent<
    T,
    H,
    F1: FnOnce(&String, &String, &T, &T) -> Result<H, String>,
    F2: FnOnce(&String, &String, &T, &T) -> Result<H, String>,
>(
    d0: DB<T, H>,
    d1: DB<T, H>,
    d2: DB<T, H>,
    open1: F1,
    open2: F2,
    r1: Result<Option<Arc<H>>, RocksDBError>,
    r2: Result<Option<Arc<H>>, RocksDBError>,
)
    requires
        build_post(d0, d1, open1, r1),
        r1 is Ok,
        build_post(d1, d2, open2, r2),
    ensures
        r1 matches Ok(Some(h)) && d1.handle() == Some(h),
        r2 == r1,
        d2 == d1,
{
}

} // verus!

verus! {

impl<T: Clone, H> Clone for DB<T, H> {
    /// A copy of the options that shares the engine handle.
    fn clone(&self) -> Self {
        DB { db: self.db.clone(), opts: self.opts.clone() }
    }
}

impl<T, H> Storage for DB<T, H> {
    type Instance = Self;

    fn get_instance(self) -> Self {
        self
    }
}

} // verus!
