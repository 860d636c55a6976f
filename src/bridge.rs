use vstd::prelude::*;
use crate::error::{ErrorKind, MongoError};

verus! {

/// The result that a caller sees for one unit of work handed to the shared
/// executor: the work's own result when the executor ran it to the end, or
/// an `InternalExecutionFailure` carrying the executor's diagnostic when the
/// task was lost (it panicked, or the executor shut down).
pub open spec fn settled<T>(joined: Result<Result<T, MongoError>, String>) -> Result<T, MongoError> {
    match joined {
        Ok(done) => done,
        Err(diagnostic) => Err(
            MongoError { kind: ErrorKind::InternalExecutionFailure, message: diagnostic },
        ),
    }
}

/// Turns what the executor handed back into the caller's result. The work
/// ran once; nothing is retried here.
pub fn settle<T>(joined: Result<Result<T, MongoError>, String>) -> (r: Result<T, MongoError>)
    ensures
        r == settled(joined),
{
    match joined {
        Ok(done) => done,
        Err(diagnostic) => Err(MongoError::new(ErrorKind::InternalExecutionFailure, diagnostic)),
    }
}

} // verus!
