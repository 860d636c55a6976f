use vstd::prelude::*;
use crate::error::{ErrorKind, MongoError};

verus! {

/// Where the session's transaction stands.
#[derive(Clone, Copy, Debug, PartialEq, Eq, Structural)]
pub enum TransactionState {
    NotStarted,
    Active,
    Committed,
    Aborted,
}

/// What a caller asks of a session; every other database operation run
/// under the session is an `Operation`.
#[derive(Clone, Copy, Debug, PartialEq, Eq, Structural)]
pub enum SessionRequest {
    StartTransaction,
    CommitTransaction,
    AbortTransaction,
    Operation,
}

/// The state of one session that this layer keeps beside the client's own
/// session: the transaction state and whether a task died while holding it.
pub struct SessionState {
    transaction: TransactionState,
    poisoned: bool,
}

pub struct SessionView {
    pub transaction: TransactionState,
    pub poisoned: bool,
}

impl View for SessionState {
    type V = SessionView;

    closed spec fn view(&self) -> SessionView {
        SessionView { transaction: self.transaction, poisoned: self.poisoned }
    }
}

pub open spec fn fresh_session() -> SessionView {
    SessionView { transaction: TransactionState::NotStarted, poisoned: false }
}

/// Why a request may not run on a session, if it may not: a poisoned
/// session takes nothing more, a transaction starts only from `NotStarted`,
/// and it commits or aborts only while `Active`.
pub open spec fn rejection(s: SessionView, req: SessionRequest) -> Option<ErrorKind> {
    if s.poisoned {
        Some(ErrorKind::InternalExecutionFailure)
    } else {
        match req {
            SessionRequest::StartTransaction => if s.transaction == TransactionState::NotStarted {
                None
            } else {
                Some(ErrorKind::InvalidTransactionState)
            },
            SessionRequest::CommitTransaction | SessionRequest::AbortTransaction => if s.transaction
                == TransactionState::Active {
                None
            } else {
                Some(ErrorKind::InvalidTransactionState)
            },
            SessionRequest::Operation => None,
        }
    }
}

/// The transaction state that a request leads to once it has succeeded.
pub open spec fn advanced(t: TransactionState, req: SessionRequest) -> TransactionState {
    match req {
        SessionRequest::StartTransaction => TransactionState::Active,
        SessionRequest::CommitTransaction => TransactionState::Committed,
        SessionRequest::AbortTransaction => TransactionState::Aborted,
        SessionRequest::Operation => t,
    }
}

/// The kind of error in an outcome, if it failed.
pub open spec fn failure_kind<T>(outcome: Result<T, MongoError>) -> Option<ErrorKind> {
    match outcome {
        Ok(_) => None,
        Err(e) => Some(e.kind),
    }
}

/// The session after a request came back with an outcome: a task lost by
/// the executor poisons it; a success of an admitted request moves the
/// transaction along; anything else leaves it as it was.
pub open spec fn recorded(s: SessionView, req: SessionRequest, failure: Option<ErrorKind>) -> SessionView {
    match failure {
        Some(ErrorKind::InternalExecutionFailure) => SessionView {
            transaction: s.transaction,
            poisoned: true,
        },
        Some(_) => s,
        None => if rejection(s, req) is None {
            SessionView { transaction: advanced(s.transaction, req), poisoned: s.poisoned }
        } else {
            s
        },
    }
}

impl SessionState {
    pub fn new() -> (r: SessionState)
        ensures
            r@ == fresh_session(),
    {
        SessionState { transaction: TransactionState::NotStarted, poisoned: false }
    }

    pub fn transaction(&self) -> (r: TransactionState)
        ensures
            r == self@.transaction,
    {
        self.transaction
    }

    pub fn is_poisoned(&self) -> (r: bool)
        ensures
            r == self@.poisoned,
    {
        self.poisoned
    }

    /// Decides, before anything is sent, whether a request may run.
    pub fn check(&self, req: SessionRequest) -> (r: Result<(), MongoError>)
        ensures
            r is Ok <==> rejection(self@, req) is None,
            r matches Err(e) ==> rejection(self@, req) == Some(e.kind),
    {
        if self.poisoned {
            return Err(
                MongoError::new(
                    ErrorKind::InternalExecutionFailure,
                    "session is unusable: a task failed while holding it".to_string(),
                ),
            );
        }
        match req {
            SessionRequest::StartTransaction => {
                if self.transaction == TransactionState::NotStarted {
                    Ok(())
                } else {
                    Err(
                        MongoError::new(
                            ErrorKind::InvalidTransactionState,
                            "transaction already started".to_string(),
                        ),
                    )
                }
            },
            SessionRequest::CommitTransaction | SessionRequest::AbortTransaction => {
                if self.transaction == TransactionState::Active {
                    Ok(())
                } else {
                    Err(
                        MongoError::new(
                            ErrorKind::InvalidTransactionState,
                            "no transaction in progress".to_string(),
                        ),
                    )
                }
            },
            SessionRequest::Operation => Ok(()),
        }
    }

    /// Takes note of how a request ended.
    pub fn record<T>(&mut self, req: SessionRequest, outcome: &Result<T, MongoError>)
        ensures
            final(self)@ == recorded(old(self)@, req, failure_kind(*outcome)),
    {
        match outcome {
            Ok(_) => {
                if self.check(req).is_ok() {
                    self.transaction =
                    match req {
                        SessionRequest::StartTransaction => TransactionState::Active,
                        SessionRequest::CommitTransaction => TransactionState::Committed,
                        SessionRequest::AbortTransaction => TransactionState::Aborted,
                        SessionRequest::Operation => self.transaction,
                    };
                }
            },
            Err(e) => {
                if e.kind == ErrorKind::InternalExecutionFailure {
                    self.poisoned = true;
                }
            },
        }
    }

    /// Ends a request that ran under the session's lock, given what the work
    /// returned, or `None` when it panicked. The outcome is recorded and
    /// handed back; a panic becomes an `InternalExecutionFailure`, which
    /// poisons the session.
    pub fn finish<T>(&mut self, req: SessionRequest, ran: Option<Result<T, MongoError>>) -> (r: Result<T, MongoError>)
        ensures
            ran matches Some(o) ==> r == o,
            ran is None ==> (r matches Err(e) && e.kind == ErrorKind::InternalExecutionFailure),
            final(self)@ == recorded(old(self)@, req, failure_kind(r)),
    {
        let r = match ran {
            Some(o) => o,
            None => Err(
                MongoError::new(
                    ErrorKind::InternalExecutionFailure,
                    "operation panicked while holding the session".to_string(),
                ),
            ),
        };
        self.record(req, &r);
        r
    }
}

/// Commit and abort are refused on a session whose transaction was never
/// started; a second start is refused while a transaction is active, and
/// operations run inside it leave it active; and a session that never
/// started a transaction stays without one whatever else it runs.
pub proof fn lemma_transaction_discipline(
    s: SessionView,
    req: SessionRequest,
    failure: Option<ErrorKind>,
)
    ensures
        rejection(fresh_session(), SessionRequest::CommitTransaction) == Some(
            ErrorKind::InvalidTransactionState,
        ),
        rejection(fresh_session(), SessionRequest::AbortTransaction) == Some(
            ErrorKind::InvalidTransactionState,
        ),
        rejection(s, SessionRequest::StartTransaction) is None ==> recorded(
            s,
            SessionRequest::StartTransaction,
            None,
        ).transaction == TransactionState::Active,
        !s.poisoned && s.transaction == TransactionState::Active ==> rejection(
            s,
            SessionRequest::StartTransaction,
        ) == Some(ErrorKind::InvalidTransactionState),
        recorded(s, SessionRequest::Operation, failure).transaction == s.transaction,
        s.transaction == TransactionState::NotStarted && req != SessionRequest::StartTransaction
            ==> recorded(s, req, failure).transaction == TransactionState::NotStarted,
{
}

} // verus!
