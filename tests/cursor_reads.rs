use mongojet::cursor::{CoreCursor, CoreSessionCursor, CursorRead, Fetched};
use mongojet::document::CoreRawDocument;
use mongojet::error::{EngineFailure, ErrorKind, MongoError};
use mongojet::session::{SessionRequest, SessionState, TransactionState};

fn doc_with_id(id: u8) -> CoreRawDocument {
    CoreRawDocument::from_bytes(vec![14, 0, 0, 0, 0x10, b'_', b'i', b'd', 0, id, 0, 0, 0, 0]).unwrap()
}

/// A client cursor over a fixed result set; it reports the end once every
/// result has been handed out, and on every advance after that.
struct Results {
    docs: Vec<CoreRawDocument>,
    pos: usize,
    advances: usize,
}

impl Results {
    fn of(ids: &[u8]) -> Results {
        Results { docs: ids.iter().map(|i| doc_with_id(*i)).collect(), pos: 0, advances: 0 }
    }

    fn advance(&mut self) -> Fetched {
        self.advances += 1;
        if self.pos < self.docs.len() {
            self.pos += 1;
            Fetched::Document(self.docs[self.pos - 1].clone())
        } else {
            Fetched::End
        }
    }
}

fn drive(mut read: CursorRead, results: &mut Results) -> CursorRead {
    while read.wants_fetch() {
        read.absorb(results.advance());
    }
    read
}

fn id_of(d: &CoreRawDocument) -> u8 {
    d.as_bytes()[9]
}

#[test]
fn next_yields_each_document_then_exhaustion() {
    let mut results = Results::of(&[1, 2, 3]);
    let mut cursor = CoreCursor::new();
    for expected in [1u8, 2, 3] {
        let read = drive(cursor.begin_next(), &mut results);
        let d = cursor.finish_next(read).unwrap().unwrap();
        assert_eq!(id_of(&d), expected);
    }
    for _ in 0..3 {
        let read = drive(cursor.begin_next(), &mut results);
        assert!(cursor.finish_next(read).unwrap().is_none());
        assert!(cursor.is_exhausted());
    }
    assert_eq!(results.advances, 4);
}

#[test]
fn next_batch_with_fewer_remaining_returns_them() {
    let mut results = Results::of(&[1, 2, 3, 4, 5]);
    let mut cursor = CoreCursor::new();
    let read = drive(cursor.begin_read(Some(3)), &mut results);
    let first = cursor.finish_read(read).unwrap();
    assert_eq!(first.iter().map(id_of).collect::<Vec<_>>(), vec![1, 2, 3]);
    assert!(!cursor.is_exhausted());
    let read = drive(cursor.begin_read(Some(10)), &mut results);
    let rest = cursor.finish_read(read).unwrap();
    assert_eq!(rest.iter().map(id_of).collect::<Vec<_>>(), vec![4, 5]);
    assert!(cursor.is_exhausted());
}

#[test]
fn next_batch_of_zero_fetches_nothing() {
    let mut results = Results::of(&[1]);
    let mut cursor = CoreCursor::new();
    let read = drive(cursor.begin_read(Some(0)), &mut results);
    assert!(cursor.finish_read(read).unwrap().is_empty());
    assert_eq!(results.advances, 0);
}

#[test]
fn collect_on_empty_results_is_empty() {
    let mut results = Results::of(&[]);
    let mut cursor = CoreCursor::new();
    let read = drive(cursor.begin_read(None), &mut results);
    assert!(cursor.finish_read(read).unwrap().is_empty());
    assert!(cursor.is_exhausted());
}

#[test]
fn collect_returns_every_document() {
    let mut results = Results::of(&[7, 8, 9]);
    let mut cursor = CoreCursor::new();
    let read = drive(cursor.begin_next(), &mut results);
    cursor.finish_next(read).unwrap();
    let read = drive(cursor.begin_read(None), &mut results);
    let all = cursor.finish_read(read).unwrap();
    assert_eq!(all.iter().map(id_of).collect::<Vec<_>>(), vec![8, 9]);
    let read = drive(cursor.begin_read(None), &mut results);
    assert!(cursor.finish_read(read).unwrap().is_empty());
}

#[test]
fn failure_during_read_is_returned_classified() {
    let mut cursor = CoreCursor::new();
    let mut read = cursor.begin_read(None);
    read.absorb(Fetched::Document(doc_with_id(1)));
    assert_eq!(read.taken(), 1);
    let e = MongoError::from_engine(&EngineFailure::Command { code: 43 }, "cursor not found".to_string());
    read.absorb(Fetched::Failed(e));
    assert!(!read.wants_fetch());
    read.absorb(Fetched::Document(doc_with_id(2)));
    assert_eq!(read.taken(), 1);
    let err = cursor.finish_read(read).unwrap_err();
    assert_eq!(err.kind, ErrorKind::OperationFailure);
    assert!(!cursor.is_exhausted());
}

#[test]
fn single_step_read_takes_at_most_one() {
    let cursor = CoreCursor::new();
    let mut read = cursor.begin_next();
    read.absorb(Fetched::Document(doc_with_id(1)));
    assert!(!read.wants_fetch());
    read.absorb(Fetched::Document(doc_with_id(2)));
    assert_eq!(read.taken(), 1);
}

#[test]
fn session_cursor_after_abort_fails() {
    let mut session = SessionState::new();
    session.check(SessionRequest::StartTransaction).unwrap();
    session.record::<()>(SessionRequest::StartTransaction, &Ok(()));
    let mut results = Results::of(&[1, 2, 3]);
    let mut cursor = CoreSessionCursor::new(&session);
    assert!(cursor.is_in_transaction());

    let read = drive(cursor.begin_next(&session), &mut results);
    assert_eq!(id_of(&cursor.finish_next(read).unwrap().unwrap()), 1);

    session.check(SessionRequest::AbortTransaction).unwrap();
    session.record::<()>(SessionRequest::AbortTransaction, &Ok(()));
    assert_eq!(session.transaction(), TransactionState::Aborted);

    let advances = results.advances;
    let read = drive(cursor.begin_next(&session), &mut results);
    let err = cursor.finish_next(read).unwrap_err();
    assert_eq!(err.kind, ErrorKind::InvalidTransactionState);
    let read = drive(cursor.begin_read(&session, None), &mut results);
    assert_eq!(cursor.finish_read(read).unwrap_err().kind, ErrorKind::InvalidTransactionState);
    assert_eq!(results.advances, advances);
}

#[test]
fn session_cursor_outside_transaction_reads_all() {
    let session = SessionState::new();
    let mut results = Results::of(&[4, 5]);
    let mut cursor = CoreSessionCursor::new(&session);
    assert!(!cursor.is_in_transaction());
    let read = drive(cursor.begin_read(&session, Some(5)), &mut results);
    let docs = cursor.finish_read(read).unwrap();
    assert_eq!(docs.iter().map(id_of).collect::<Vec<_>>(), vec![4, 5]);
    assert!(cursor.is_exhausted());
}

#[test]
fn session_cursor_on_poisoned_session_fails() {
    let mut session = SessionState::new();
    let lost: Result<(), MongoError> =
        Err(MongoError::new(ErrorKind::InternalExecutionFailure, "panicked".to_string()));
    session.record(SessionRequest::Operation, &lost);
    let mut results = Results::of(&[1]);
    let mut cursor = CoreSessionCursor::new(&session);
    let read = drive(cursor.begin_next(&session), &mut results);
    assert_eq!(cursor.finish_next(read).unwrap_err().kind, ErrorKind::InternalExecutionFailure);
    assert_eq!(results.advances, 0);
}
