use vstd::prelude::*;

verus! {

/// Server code of a write that broke a unique index.
pub const DUPLICATE_KEY_CODE: i32 = 11000;

/// The closed set of error kinds that callers branch on.
#[derive(Clone, Copy, Debug, PartialEq, Eq, Structural)]
pub enum ErrorKind {
    InvalidArgument,
    Configuration,
    BsonSerialization,
    BsonDeserialization,
    ServerSelectionFailure,
    WriteConcernFailure,
    WriteError,
    DuplicateKey,
    BulkWriteFailure,
    OperationFailure,
    GridFsFileNotFound,
    GridFsGeneric,
    InvalidTransactionState,
    InternalExecutionFailure,
    DatabaseError,
}

/// What the database client reported, reduced to the values that
/// classification reads.
#[derive(Clone, Debug)]
pub enum EngineFailure {
    InvalidArgument,
    Authentication,
    BsonSerialization,
    BsonDeserialization,
    ServerSelection,
    /// A write that could not satisfy its write concern.
    WriteConcern,
    /// A single write rejected by the server with this code.
    Write { code: i32 },
    /// A multi-document write; the codes of its individual write errors.
    BulkWrite { write_error_codes: Vec<i32> },
    /// A command failure with its server code.
    Command { code: i32 },
    GridFsFileNotFound,
    GridFs,
    /// The client refused a transaction operation in the session's state.
    Transaction,
    /// Any other failure of the client (network, pool, internal).
    Other,
}

/// A classified error with its diagnostic text.
#[derive(Clone, Debug)]
pub struct MongoError {
    pub kind: ErrorKind,
    pub message: String,
}

/// Whether some individual write error carries the duplicate key code.
pub open spec fn has_duplicate_key(codes: Seq<i32>) -> bool {
    exists|i: int| 0 <= i < codes.len() && codes[i] == DUPLICATE_KEY_CODE
}

/// The kind that each client failure is classified as.
pub open spec fn kind_of(f: EngineFailure) -> ErrorKind {
    match f {
        EngineFailure::InvalidArgument => ErrorKind::InvalidArgument,
        EngineFailure::Authentication => ErrorKind::Configuration,
        EngineFailure::BsonSerialization => ErrorKind::BsonSerialization,
        EngineFailure::BsonDeserialization => ErrorKind::BsonDeserialization,
        EngineFailure::ServerSelection => ErrorKind::ServerSelectionFailure,
        EngineFailure::WriteConcern => ErrorKind::WriteConcernFailure,
        EngineFailure::Write { code } => if code == DUPLICATE_KEY_CODE {
            ErrorKind::DuplicateKey
        } else {
            ErrorKind::WriteError
        },
        EngineFailure::BulkWrite { write_error_codes } => if has_duplicate_key(
            write_error_codes@,
        ) {
            ErrorKind::DuplicateKey
        } else {
            ErrorKind::BulkWriteFailure
        },
        EngineFailure::Command { .. } => ErrorKind::OperationFailure,
        EngineFailure::GridFsFileNotFound => ErrorKind::GridFsFileNotFound,
        EngineFailure::GridFs => ErrorKind::GridFsGeneric,
        EngineFailure::Transaction => ErrorKind::InvalidTransactionState,
        EngineFailure::Other => ErrorKind::DatabaseError,
    }
}

fn any_duplicate_key(codes: &Vec<i32>) -> (r: bool)
    ensures
        r == has_duplicate_key(codes@),
{
    let mut i: usize = 0;
    while i < codes.len()
        invariant
            i <= codes.len(),
            forall|j: int| 0 <= j < i ==> codes@[j] != DUPLICATE_KEY_CODE,
        decreases codes.len() - i,
    {
        if codes[i] == DUPLICATE_KEY_CODE {
            return true;
        }
        i += 1;
    }
    false
}

/// Maps a client failure to exactly one error kind.
pub fn classify(f: &EngineFailure) -> (r: ErrorKind)
    ensures
        r == kind_of(*f),
{
    match f {
        EngineFailure::InvalidArgument => ErrorKind::InvalidArgument,
        EngineFailure::Authentication => ErrorKind::Configuration,
        EngineFailure::BsonSerialization => ErrorKind::BsonSerialization,
        EngineFailure::BsonDeserialization => ErrorKind::BsonDeserialization,
        EngineFailure::ServerSelection => ErrorKind::ServerSelectionFailure,
        EngineFailure::WriteConcern => ErrorKind::WriteConcernFailure,
        EngineFailure::Write { code } => {
            if *code == DUPLICATE_KEY_CODE {
                ErrorKind::DuplicateKey
            } else {
                ErrorKind::WriteError
            }
        },
        EngineFailure::BulkWrite { write_error_codes } => {
            if any_duplicate_key(write_error_codes) {
                ErrorKind::DuplicateKey
            } else {
                ErrorKind::BulkWriteFailure
            }
        },
        EngineFailure::Command { .. } => ErrorKind::OperationFailure,
        EngineFailure::GridFsFileNotFound => ErrorKind::GridFsFileNotFound,
        EngineFailure::GridFs => ErrorKind::GridFsGeneric,
        EngineFailure::Transaction => ErrorKind::InvalidTransactionState,
        EngineFailure::Other => ErrorKind::DatabaseError,
    }
}

impl MongoError {
    pub fn new(kind: ErrorKind, message: String) -> (r: MongoError)
        ensures
            r == (MongoError { kind, message }),
    {
        MongoError { kind, message }
    }

    /// Classifies a failure of the database client, keeping its text.
    pub fn from_engine(f: &EngineFailure, message: String) -> (r: MongoError)
        ensures
            r == (MongoError { kind: kind_of(*f), message }),
    {
        MongoError { kind: classify(f), message }
    }

    pub fn kind(&self) -> (r: ErrorKind)
        ensures
            r == self.kind,
    {
        self.kind
    }
}

impl ErrorKind {
    /// Whether callers that handle a write error also see this kind: a
    /// duplicate key is a write error with a particular code.
    pub fn is_write_error(&self) -> (r: bool)
        ensures
            r == (*self == ErrorKind::WriteError || *self == ErrorKind::DuplicateKey),
    {
        match self {
            ErrorKind::WriteError | ErrorKind::DuplicateKey => true,
            _ => false,
        }
    }
}

/// A write failure carrying the duplicate key code is classified as
/// `DuplicateKey`, and one carrying any other code as `WriteError`.
pub proof fn lemma_write_failure_classes(code: i32)
    ensures
        code == DUPLICATE_KEY_CODE ==> kind_of(EngineFailure::Write { code }) == ErrorKind::DuplicateKey,
        code != DUPLICATE_KEY_CODE ==> kind_of(EngineFailure::Write { code }) == ErrorKind::WriteError,
{
}

} // verus!
