//! The configuration of the adapter: where the database lives, which column
//! family it serves, and the engine tuning objects for both.
use vstd::prelude::*;

use super::types::RocksDBError;

verus! {

/// The options of one database.
///
/// `T` is the engine's tuning object. `path` and `cf_name` are given at
/// construction; the two tuning objects start out unset and are filled by
/// [`Options::build_default_opts`].
#[derive(Clone)]
pub struct Options<T> {
    pub path: String,
    pub cf_name: String,
    pub db_opts: Option<T>,
    pub cf_opts: Option<T>,
}

impl<T> Options<T> {
    /// The message of the first check that the options fail, in the order
    /// path, column family name, column family tuning, database tuning;
    /// `None` when all four pass.
    pub open spec fn first_problem(&self) -> Option<Seq<char>> {
        if self.path@.len() == 0 {
            Some("db path is empty"@)
        } else if self.cf_name@.len() == 0 {
            Some("column family name is empty"@)
        } else if self.cf_opts is None {
            Some("missing cf options"@)
        } else if self.db_opts is None {
            Some("missing db options"@)
        } else {
            None
        }
    }

    /// The options pass every check of [`Options::validate`].
    pub open spec fn is_valid(&self) -> bool {
        self.first_problem() is None
    }

    pub fn new(path: String, cf_name: String) -> (r: Self)
        ensures
            r.path == path,
            r.cf_name == cf_name,
            r.db_opts is None,
            r.cf_opts is None,
    {
        Self { path, cf_name, cf_opts: None, db_opts: None }
    }

    /// Sets both tuning objects to the engine's defaults.
    pub fn build_default_opts(&mut self) -> (r: &mut Self) where T: Default
        ensures
            r.path == old(self).path,
            r.cf_name == old(self).cf_name,
            r.db_opts matches Some(d) && call_ensures(T::default, (), d),
            r.cf_opts matches Some(c) && call_ensures(T::default, (), c),
            *final(self) == *final(r),
    {
        self.db_opts = Some(T::default());
        self.cf_opts = Some(T::default());
        self
    }

    /// Applies `callback` to the database tuning object where it is set;
    /// where it is unset the options stay as they are.
    pub fn set_db_opts<F: FnOnce(T) -> T>(&mut self, callback: F) -> (r: &mut Self)
        requires
            forall|t: T| callback.requires((t,)),
        ensures
            r.path == old(self).path,
            r.cf_name == old(self).cf_name,
            r.cf_opts == old(self).cf_opts,
            old(self).db_opts is None ==> r.db_opts is None,
            old(self).db_opts matches Some(v) ==> (r.db_opts matches Some(w) && callback.ensures(
                (v,),
                w,
            )),
            *final(self) == *final(r),
    {
        match self.db_opts.take() {
            Some(v) => {
                self.db_opts = Some(callback(v));
            },
            None => {},
        }
        self
    }

    /// Applies `callback` to the column family tuning object where it is
    /// set; where it is unset the options stay as they are.
    pub fn set_cf_opts<F: FnOnce(T) -> T>(&mut self, callback: F) -> (r: &mut Self)
        requires
            forall|t: T| callback.requires((t,)),
        ensures
            r.path == old(self).path,
            r.cf_name == old(self).cf_name,
            r.db_opts == old(self).db_opts,
            old(self).cf_opts is None ==> r.cf_opts is None,
            old(self).cf_opts matches Some(v) ==> (r.cf_opts matches Some(w) && callback.ensures(
                (v,),
                w,
            )),
            *final(self) == *final(r),
    {
        match self.cf_opts.take() {
            Some(v) => {
                self.cf_opts = Some(callback(v));
            },
            None => {},
        }
        self
    }

    /// Checks, in this order, that the path and the column family name are
    /// not empty and that the column family and database tuning objects are
    /// set, and fails with the message of the first check that does not hold.
    pub fn validate(&self) -> (r: Result<(), RocksDBError>)
        ensures
            self.first_problem() is None ==> r is Ok,
            self.first_problem() matches Some(m) ==> (r matches Err(RocksDBError::ValidateError(e))
                && e@ == m),
    {
        proof {
            reveal_strlit("db path is empty");
            reveal_strlit("column family name is empty");
            reveal_strlit("missing cf options");
            reveal_strlit("missing db options");
        }
        if self.path.as_str().is_empty() {
            return Err(RocksDBError::ValidateError(String::from_str("db path is empty")));
        }
        if self.cf_name.as_str().is_empty() {
            return Err(
                RocksDBError::ValidateError(String::from_str("column family name is empty")),
            );
        }
        if self.cf_opts.is_none() {
            return Err(RocksDBError::ValidateError(String::from_str("missing cf options")));
        }
        if self.db_opts.is_none() {
            return Err(RocksDBError::ValidateError(String::from_str("missing db options")));
        }
        Ok(())
    }
}

} // verus!

verus! {

/// An empty path is the problem reported, whatever else is missing, and its
/// message names the path.
pub proof fn lemma_empty_path_reported_first<T>(o: Options<T>)
    requires
        o.path@.len() == 0,
    ensures
        o.first_problem() == Some("db path is empty"@),
        o.first_problem()->Some_0.subrange(3, 7) == "path"@,
{
    reveal_strlit("db path is empty");
    reveal_strlit("path");
    assert("db path is empty"@.subrange(3, 7) =~= "path"@);
}

/// With a path given, an empty column family name is the problem reported,
/// and its message names the column family.
pub proof fn lemma_empty_cf_name_reported<T>(o: Options<T>)
    requires
        o.path@.len() > 0,
        o.cf_name@.len() == 0,
    ensures
        o.first_problem() == Some("column family name is empty"@),
        o.first_problem()->Some_0.subrange(0, 13) == "column family"@,
{
    reveal_strlit("column family name is empty");
    reveal_strlit("column family");
    assert("column family name is empty"@.subrange(0, 13) =~= "column family"@);
}

/// Options made by `new` from a non-empty path and column family name and
/// then given the default tuning objects pass validation.
pub proof fn lemma_default_options_are_valid<T>(path: String, cf_name: String, o: Options<T>)
    requires
        path@.len() > 0,
        cf_name@.len() > 0,
        o.path == path,
        o.cf_name == cf_name,
        o.db_opts is Some,
        o.cf_opts is Some,
    ensures
        o.is_valid(),
{
}

} // verus!
