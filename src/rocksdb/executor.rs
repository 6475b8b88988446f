//! Runs instructions against one column family of a shared database.
use std::sync::Arc;

use vstd::prelude::*;

use super::db::DB;
use super::types::{is_outcome_of, EngineReply, Instruction, OutputOpts, RocksDBError};

verus! {

/// Binds a database to the name of the column family that its instructions
/// address.
pub struct Executor<T, H> {
    instance: DB<T, H>,
    cf_name: String,
}

/// What `exec` did: `r` is its result for `instruction` on `executor`, where
/// `run` is the function it was given to put the instruction to the engine.
pub open spec fn exec_post<T, H, F: FnOnce(&Arc<H>, &String, Instruction) -> EngineReply>(
    executor: Executor<T, H>,
    instruction: Instruction,
    run: F,
    r: Result<OutputOpts, RocksDBError>,
) -> bool {
    match executor.instance().handle() {
        None => r matches Err(RocksDBError::ExecutorError(m)) && m@
            == "missing database instance"@,
        Some(h) => exists|reply: EngineReply|
            #![trigger run.ensures((&h, &executor.cf_name(), instruction), reply)]
            run.ensures((&h, &executor.cf_name(), instruction), reply) && is_outcome_of(reply, r),
    }
}

impl<T: Clone, H> Clone for Executor<T, H> {
    /// A copy on the same engine handle and column family.
    fn clone(&self) -> Self {
        Executor { instance: self.instance.clone(), cf_name: self.cf_name.clone() }
    }
}

impl<T, H> Executor<T, H> {
    /// The database the executor runs on.
    pub closed spec fn instance(&self) -> DB<T, H> {
        self.instance
    }

    /// The column family the executor addresses.
    pub closed spec fn cf_name(&self) -> String {
        self.cf_name
    }

    pub fn new(instance: DB<T, H>, cf_name: String) -> (r: Self)
        ensures
            r.instance() == instance,
            r.cf_name() == cf_name,
    {
        Self { instance, cf_name }
    }

    /// Runs one instruction.
    ///
    /// Fails at once where the database holds no engine handle. Otherwise
    /// `run` is given the handle, the column family name and the instruction,
    /// puts the instruction to the engine and reports what the engine
    /// answered; that answer becomes the outcome. The call of `run` blocks
    /// on storage, so callers that must not block hand the whole call to a
    /// worker.
    pub fn exec<F>(&self, instruction: Instruction, run: F) -> (r: Result<OutputOpts, RocksDBError>) where
        F: FnOnce(&Arc<H>, &String, Instruction) -> EngineReply,

        requires
            forall|h: &Arc<H>, c: &String, i: Instruction| run.requires((h, c, i)),
        ensures
            exec_post(*self, instruction, run, r),
    {
        proof {
            reveal_strlit("missing database instance");
        }
        let db = match self.instance.native_handle() {
            Some(db) => db,
            None => {
                return Err(RocksDBError::ExecutorError(String::from_str("missing database instance")));
            },
        };
        let reply = run(db, &self.cf_name, instruction);
        reply.into_outcome()
    }
}

} // verus!

verus! {

/// An executor whose database was never built fails every instruction with
/// an executor error, and the engine is not reached.
pub proof fn lemma_unbuilt_database_fails<
    T,
    H,
    F: FnOnce(&Arc<H>, &String, Instruction) -> EngineReply,
>(
    d: DB<T, H>,
    e: Executor<T, H>,
    instruction: Instruction,
    run: F,
    r: Result<OutputOpts, RocksDBError>,
)
    requires
        d.handle() is None,
        e.instance() == d,
        exec_post(e, instruction, run, r),
    ensures
        r matches Err(RocksDBError::ExecutorError(m)) && m@ == "missing database instance"@,
{
}

} // verus!
