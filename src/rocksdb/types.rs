//! Errors, instructions and outcomes of the column-family adapter.
use vstd::prelude::*;

verus! {

/// The failures of the adapter, one kind for each phase.
#[derive(Debug, Clone, PartialEq, Eq)]
pub enum RocksDBError {
    /// The options are incomplete.
    ValidateError(String),
    /// The database handle could not be created or opened.
    InstanceError(String),
    /// An instruction could not be carried out.
    ExecutorError(String),
}

/// The text of an error: its kind, then its detail.
pub open spec fn error_text(e: RocksDBError) -> Seq<char> {
    match e {
        RocksDBError::ValidateError(m) => "validate error: "@ + m@,
        RocksDBError::InstanceError(m) => "instance error: "@ + m@,
        RocksDBError::ExecutorError(m) => "executor error: "@ + m@,
    }
}

impl RocksDBError {
    /// The text of the error, such as `validate error: db path is empty`.
    pub fn to_string(&self) -> (r: String)
        ensures
            r@ == error_text(*self),
    {
        let (head, detail) = match self {
            RocksDBError::ValidateError(m) => (String::from_str("validate error: "), m),
            RocksDBError::InstanceError(m) => (String::from_str("instance error: "), m),
            RocksDBError::ExecutorError(m) => (String::from_str("executor error: "), m),
        };
        proof {
            reveal_strlit("validate error: ");
            reveal_strlit("instance error: ");
            reveal_strlit("executor error: ");
        }
        head.concat(detail.as_str())
    }
}

/// One request against a column family.
pub enum Instruction {
    SaveCf { key: String, value: Vec<u8> },
    MergeCf { key: String, value: Vec<u8> },
    GetCf { key: String },
    MultiGetCf { keys: Vec<String> },
    RemoveCf { key: String },
}

/// The result of one instruction.
#[derive(Debug)]
pub enum OutputOpts {
    /// The value stored under one key, `None` where the key is absent.
    SingleByte { value: Option<Vec<u8>> },
    /// One result per requested key, in the order of the keys.
    MultiBytes { values: Vec<Result<Option<Vec<u8>>, RocksDBError>> },
    /// An acknowledgement without payload.
    Empty,
}

/// What the engine answered to one instruction, in plain values; an engine
/// failure is carried as its message.
pub enum EngineReply {
    /// The column family could not be resolved on the handle.
    MissingColumnFamily,
    /// Answer to a put, merge or delete.
    Written(Result<(), String>),
    /// Answer to a point lookup.
    Found(Result<Option<Vec<u8>>, String>),
    /// Answer to a batched lookup, one entry per key.
    FoundMany(Vec<Result<Option<Vec<u8>>, String>>),
}

/// The outcome of one key of a batched lookup.
pub open spec fn key_outcome(
    x: Result<Option<Vec<u8>>, String>,
) -> Result<Option<Vec<u8>>, RocksDBError> {
    match x {
        Ok(v) => Ok(v),
        Err(m) => Err(RocksDBError::ExecutorError(m)),
    }
}

/// `r` is the outcome that `reply` stands for.
pub open spec fn is_outcome_of(reply: EngineReply, r: Result<OutputOpts, RocksDBError>) -> bool {
    match reply {
        EngineReply::MissingColumnFamily => match r {
            Err(RocksDBError::ExecutorError(m)) => m@ == "cf handler failed"@,
            _ => false,
        },
        EngineReply::Written(Ok(())) => r == Ok::<OutputOpts, RocksDBError>(OutputOpts::Empty),
        EngineReply::Written(Err(m)) => r == Err::<OutputOpts, RocksDBError>(
            RocksDBError::ExecutorError(m),
        ),
        EngineReply::Found(Ok(v)) => r == Ok::<OutputOpts, RocksDBError>(
            OutputOpts::SingleByte { value: v },
        ),
        EngineReply::Found(Err(m)) => r == Err::<OutputOpts, RocksDBError>(
            RocksDBError::ExecutorError(m),
        ),
        EngineReply::FoundMany(rs) => match r {
            Ok(OutputOpts::MultiBytes { values }) => values@ == rs@.map_values(
                |x: Result<Option<Vec<u8>>, String>| key_outcome(x),
            ),
            _ => false,
        },
    }
}

impl EngineReply {
    /// Turns the engine's answer into the outcome of the instruction.
    pub fn into_outcome(self) -> (r: Result<OutputOpts, RocksDBError>)
        ensures
            is_outcome_of(self, r),
    {
        match self {
            EngineReply::MissingColumnFamily => {
                let m = String::from_str("cf handler failed");
                proof {
                    reveal_strlit("cf handler failed");
                }
                Err(RocksDBError::ExecutorError(m))
            },
            EngineReply::Written(Ok(())) => Ok(OutputOpts::Empty),
            EngineReply::Written(Err(m)) => Err(RocksDBError::ExecutorError(m)),
            EngineReply::Found(Ok(v)) => Ok(OutputOpts::SingleByte { value: v }),
            EngineReply::Found(Err(m)) => Err(RocksDBError::ExecutorError(m)),
            EngineReply::FoundMany(rs) => Ok(OutputOpts::MultiBytes { values: key_outcomes(rs) }),
        }
    }
}

/// Maps each result of a batched lookup to its outcome, keeping the order.
fn key_outcomes(rs: Vec<Result<Option<Vec<u8>>, String>>) -> (out: Vec<
    Result<Option<Vec<u8>>, RocksDBError>,
>)
    ensures
        out@ == rs@.map_values(|x: Result<Option<Vec<u8>>, String>| key_outcome(x)),
{
    let ghost all = rs@;
    let mut rest = rs;
    let mut out: Vec<Result<Option<Vec<u8>>, RocksDBError>> = Vec::new();
    while rest.len() > 0
        invariant
            out@.len() + rest@.len() == all.len(),
            rest@ == all.subrange(out@.len() as int, all.len() as int),
            forall|i: int| 0 <= i < out@.len() ==> #[trigger] out@[i] == key_outcome(all[i]),
        decreases rest@.len(),
    {
        let x = rest.remove(0);
        let y = match x {
            Ok(v) => Ok(v),
            Err(m) => Err(RocksDBError::ExecutorError(m)),
        };
        out.push(y);
    }
    assert(out@ =~= all.map_values(|x: Result<Option<Vec<u8>>, String>| key_outcome(x)));
    out
}

} // verus!

verus! {

/// `reply` has the shape of an answer to `instruction`: a write answer for a
/// save, merge or remove, a single lookup for a get, one result per key for a
/// batched get, or a column family that could not be resolved.
pub open spec fn answers(reply: EngineReply, instruction: Instruction) -> bool {
    match reply {
        EngineReply::MissingColumnFamily => true,
        EngineReply::Written(_) => instruction is SaveCf || instruction is MergeCf
            || instruction is RemoveCf,
        EngineReply::Found(_) => instruction is GetCf,
        EngineReply::FoundMany(rs) => instruction matches Instruction::MultiGetCf { keys }
            && rs@.len() == keys@.len(),
    }
}

/// Where the engine answers an instruction in the shape it asks for, a write
/// succeeds with an empty outcome, a get succeeds with a single value, and a
/// batched get succeeds with exactly one result per key, the `i`-th for the
/// `i`-th key; every failure is an executor error.
pub proof fn lemma_outcome_follows_instruction(
    instruction: Instruction,
    reply: EngineReply,
    r: Result<OutputOpts, RocksDBError>,
)
    requires
        answers(reply, instruction),
        is_outcome_of(reply, r),
    ensures
        r is Err ==> r matches Err(RocksDBError::ExecutorError(_)),
        r is Ok && (instruction is SaveCf || instruction is MergeCf || instruction is RemoveCf)
            ==> r == Ok::<OutputOpts, RocksDBError>(OutputOpts::Empty),
        r is Ok && instruction is GetCf ==> r matches Ok(OutputOpts::SingleByte { .. }),
        r is Ok && instruction is MultiGetCf ==> (instruction matches Instruction::MultiGetCf {
            keys,
        } && r matches Ok(OutputOpts::MultiBytes { values }) && values@.len() == keys@.len()),
{
}

} // verus!
