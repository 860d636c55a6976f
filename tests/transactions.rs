use mongojet::error::{EngineFailure, ErrorKind, MongoError};
use mongojet::session::{SessionRequest, SessionState, TransactionState};

fn run(session: &mut SessionState, req: SessionRequest, engine: Result<(), MongoError>) -> Result<(), MongoError> {
    session.check(req)?;
    session.record(req, &engine);
    engine
}

#[test]
fn commit_without_start_is_rejected() {
    let session = SessionState::new();
    let e = session.check(SessionRequest::CommitTransaction).unwrap_err();
    assert_eq!(e.kind, ErrorKind::InvalidTransactionState);
    let e = session.check(SessionRequest::AbortTransaction).unwrap_err();
    assert_eq!(e.kind, ErrorKind::InvalidTransactionState);
}

#[test]
fn second_start_is_rejected() {
    let mut session = SessionState::new();
    run(&mut session, SessionRequest::StartTransaction, Ok(())).unwrap();
    run(&mut session, SessionRequest::Operation, Ok(())).unwrap();
    assert_eq!(session.transaction(), TransactionState::Active);
    let e = run(&mut session, SessionRequest::StartTransaction, Ok(())).unwrap_err();
    assert_eq!(e.kind, ErrorKind::InvalidTransactionState);
    assert_eq!(session.transaction(), TransactionState::Active);
}

#[test]
fn commit_twice_is_rejected() {
    let mut session = SessionState::new();
    run(&mut session, SessionRequest::StartTransaction, Ok(())).unwrap();
    run(&mut session, SessionRequest::CommitTransaction, Ok(())).unwrap();
    assert_eq!(session.transaction(), TransactionState::Committed);
    let e = run(&mut session, SessionRequest::CommitTransaction, Ok(())).unwrap_err();
    assert_eq!(e.kind, ErrorKind::InvalidTransactionState);
    let e = run(&mut session, SessionRequest::StartTransaction, Ok(())).unwrap_err();
    assert_eq!(e.kind, ErrorKind::InvalidTransactionState);
}

#[test]
fn abort_ends_transaction() {
    let mut session = SessionState::new();
    run(&mut session, SessionRequest::StartTransaction, Ok(())).unwrap();
    run(&mut session, SessionRequest::AbortTransaction, Ok(())).unwrap();
    assert_eq!(session.transaction(), TransactionState::Aborted);
    let e = run(&mut session, SessionRequest::AbortTransaction, Ok(())).unwrap_err();
    assert_eq!(e.kind, ErrorKind::InvalidTransactionState);
}

#[test]
fn failed_start_leaves_no_transaction() {
    let mut session = SessionState::new();
    let refused = MongoError::from_engine(&EngineFailure::Transaction, "refused".to_string());
    let e = run(&mut session, SessionRequest::StartTransaction, Err(refused)).unwrap_err();
    assert_eq!(e.kind, ErrorKind::InvalidTransactionState);
    assert_eq!(session.transaction(), TransactionState::NotStarted);
    assert!(!session.is_poisoned());
}

#[test]
fn repeated_insert_in_session_reports_duplicate_key() {
    let mut session = SessionState::new();
    run(&mut session, SessionRequest::Operation, Ok(())).unwrap();
    let dup = MongoError::from_engine(&EngineFailure::Write { code: 11000 }, "E11000".to_string());
    let e = run(&mut session, SessionRequest::Operation, Err(dup)).unwrap_err();
    assert_eq!(e.kind, ErrorKind::DuplicateKey);
    assert!(!session.is_poisoned());
}

#[test]
fn lost_task_poisons_session() {
    let mut session = SessionState::new();
    let lost = MongoError::new(ErrorKind::InternalExecutionFailure, "panicked".to_string());
    let _ = run(&mut session, SessionRequest::Operation, Err(lost));
    assert!(session.is_poisoned());
    let e = session.check(SessionRequest::Operation).unwrap_err();
    assert_eq!(e.kind, ErrorKind::InternalExecutionFailure);
}

#[test]
fn finish_hands_back_the_outcome() {
    let mut session = SessionState::new();
    session.check(SessionRequest::StartTransaction).unwrap();
    let r: Result<u32, MongoError> = session.finish(SessionRequest::StartTransaction, Some(Ok(5)));
    assert_eq!(r.unwrap(), 5);
    assert_eq!(session.transaction(), TransactionState::Active);
}

#[test]
fn finish_after_panic_poisons() {
    let mut session = SessionState::new();
    let r: Result<u32, MongoError> = session.finish(SessionRequest::Operation, None);
    assert_eq!(r.unwrap_err().kind, ErrorKind::InternalExecutionFailure);
    assert!(session.is_poisoned());
    assert_eq!(session.check(SessionRequest::StartTransaction).unwrap_err().kind, ErrorKind::InternalExecutionFailure);
}
