use vstd::prelude::*;
use crate::document::CoreRawDocument;
use crate::error::{ErrorKind, MongoError};
use crate::session::{rejection, SessionRequest, SessionState, SessionView, TransactionState};

verus! {

/// What one advance of the client's cursor produced.
pub enum Fetched {
    Document(CoreRawDocument),
    /// The server has no more results.
    End,
    Failed(MongoError),
}

pub enum FetchView {
    Document(Seq<u8>),
    End,
    Failed(MongoError),
}

impl View for Fetched {
    type V = FetchView;

    open spec fn view(&self) -> FetchView {
        match self {
            Fetched::Document(d) => FetchView::Document(d@),
            Fetched::End => FetchView::End,
            Fetched::Failed(e) => FetchView::Failed(*e),
        }
    }
}

pub open spec fn docs_view(v: Seq<CoreRawDocument>) -> Seq<Seq<u8>> {
    v.map_values(|d: CoreRawDocument| d@)
}

/// One read in progress on a cursor: how many documents it may take at
/// most (none: all of them), what it took so far, whether the end of the
/// results was reached, and the failure that stopped it, if any.
pub struct CursorRead {
    limit: Option<u64>,
    docs: Vec<CoreRawDocument>,
    ended: bool,
    failure: Option<MongoError>,
}

pub struct ReadView {
    pub limit: Option<nat>,
    pub docs: Seq<Seq<u8>>,
    pub ended: bool,
    pub failure: Option<MongoError>,
}

impl View for CursorRead {
    type V = ReadView;

    closed spec fn view(&self) -> ReadView {
        ReadView {
            limit: match self.limit {
                Some(n) => Some(n as nat),
                None => None,
            },
            docs: docs_view(self.docs@),
            ended: self.ended,
            failure: self.failure,
        }
    }
}

/// A read that has just begun on a cursor; on an exhausted cursor it has
/// already reached the end.
pub open spec fn opened(exhausted: bool, limit: Option<nat>) -> ReadView {
    ReadView { limit, docs: Seq::empty(), ended: exhausted, failure: None }
}

/// Whether a read needs one more advance of the client's cursor.
pub open spec fn wants(r: ReadView) -> bool {
    &&& !r.ended
    &&& r.failure is None
    &&& match r.limit {
        Some(n) => r.docs.len() < n,
        None => true,
    }
}

/// A read after it took in what one advance produced; a read that wants
/// nothing more ignores it.
pub open spec fn absorbed(r: ReadView, ev: FetchView) -> ReadView {
    if !wants(r) {
        r
    } else {
        match ev {
            FetchView::Document(d) => ReadView { docs: r.docs.push(d), ..r },
            FetchView::End => ReadView { ended: true, ..r },
            FetchView::Failed(e) => ReadView { failure: Some(e), ..r },
        }
    }
}

/// What a finished read hands to the caller: its failure, or every
/// document it took, in order.
pub open spec fn read_result(r: ReadView) -> Result<Seq<Seq<u8>>, MongoError> {
    match r.failure {
        Some(e) => Err(e),
        None => Ok(r.docs),
    }
}

/// What a finished single-step read hands to the caller: its failure, the
/// document it took, or `None` once the results are exhausted.
pub open spec fn next_result(r: ReadView) -> Result<Option<Seq<u8>>, MongoError> {
    match r.failure {
        Some(e) => Err(e),
        None => if r.docs.len() > 0 {
            Ok(Some(r.docs[0]))
        } else {
            Ok(None)
        },
    }
}

pub open spec fn batch_view(r: Result<Vec<CoreRawDocument>, MongoError>) -> Result<
    Seq<Seq<u8>>,
    MongoError,
> {
    match r {
        Ok(v) => Ok(docs_view(v@)),
        Err(e) => Err(e),
    }
}

pub open spec fn single_view(r: Result<Option<CoreRawDocument>, MongoError>) -> Result<
    Option<Seq<u8>>,
    MongoError,
> {
    match r {
        Ok(Some(d)) => Ok(Some(d@)),
        Ok(None) => Ok(None),
        Err(e) => Err(e),
    }
}

/// Why a cursor opened under a session may not advance now, if it may not:
/// the session is poisoned, or the cursor was opened inside a transaction
/// that is no longer active.
pub open spec fn session_block(in_transaction: bool, s: SessionView) -> Option<ErrorKind> {
    if rejection(s, SessionRequest::Operation) is Some {
        rejection(s, SessionRequest::Operation)
    } else if in_transaction && s.transaction != TransactionState::Active {
        Some(ErrorKind::InvalidTransactionState)
    } else {
        None
    }
}

impl CursorRead {
    /// Whether the caller must advance the client's cursor once more and
    /// hand the outcome to `absorb`.
    pub fn wants_fetch(&self) -> (r: bool)
        ensures
            r == wants(self@),
    {
        if self.ended || self.failure.is_some() {
            return false;
        }
        match self.limit {
            Some(n) => (self.docs.len() as u64) < n,
            None => true,
        }
    }

    pub fn absorb(&mut self, ev: Fetched)
        ensures
            final(self)@ == absorbed(old(self)@, ev@),
    {
        if !self.wants_fetch() {
            return;
        }
        match ev {
            Fetched::Document(d) => {
                proof {
                    let ghost d_view = d@;
                    assert(docs_view(self.docs@.push(d)) =~= docs_view(self.docs@).push(d_view));
                }
                self.docs.push(d);
            },
            Fetched::End => {
                self.ended = true;
            },
            Fetched::Failed(e) => {
                self.failure = Some(e);
            },
        }
    }

    /// How many documents the read took so far.
    pub fn taken(&self) -> (r: usize)
        ensures
            r == self@.docs.len(),
    {
        self.docs.len()
    }
}

/// The local state of a cursor over results of the client: whether the
/// end of its results has been seen. Once it has, every later read ends at
/// once without advancing the client's cursor.
pub struct CoreCursor {
    exhausted: bool,
}

impl CoreCursor {
    pub closed spec fn exhausted(&self) -> bool {
        self.exhausted
    }

    pub fn new() -> (r: CoreCursor)
        ensures
            !r.exhausted(),
    {
        CoreCursor { exhausted: false }
    }

    pub fn is_exhausted(&self) -> (r: bool)
        ensures
            r == self.exhausted(),
    {
        self.exhausted
    }

    fn opened_read(exhausted: bool, limit: Option<u64>) -> (r: CursorRead)
        ensures
            r@ == opened(
                exhausted,
                match limit {
                    Some(n) => Some(n as nat),
                    None => None,
                },
            ),
    {
        let r = CursorRead { limit, docs: Vec::new(), ended: exhausted, failure: None };
        assert(r@.docs =~= Seq::<Seq<u8>>::empty());
        r
    }

    /// Begins a read of at most `limit` documents (all of them: `None`).
    pub fn begin_read(&self, limit: Option<u64>) -> (r: CursorRead)
        ensures
            r@ == opened(
                self.exhausted(),
                match limit {
                    Some(n) => Some(n as nat),
                    None => None,
                },
            ),
    {
        Self::opened_read(self.exhausted, limit)
    }

    /// Begins a single-step read.
    pub fn begin_next(&self) -> (r: CursorRead)
        ensures
            r@ == opened(self.exhausted(), Some(1)),
    {
        Self::opened_read(self.exhausted, Some(1))
    }

    /// Ends a read: the documents it took, or its failure.
    pub fn finish_read(&mut self, read: CursorRead) -> (r: Result<Vec<CoreRawDocument>, MongoError>)
        ensures
            final(self).exhausted() == (old(self).exhausted() || read@.ended),
            batch_view(r) == read_result(read@),
    {
        if read.ended {
            self.exhausted = true;
        }
        match read.failure {
            Some(e) => Err(e),
            None => Ok(read.docs),
        }
    }

    /// Ends a single-step read: its document, `None` once the results are
    /// exhausted, or its failure.
    pub fn finish_next(&mut self, read: CursorRead) -> (r: Result<Option<CoreRawDocument>, MongoError>)
        ensures
            final(self).exhausted() == (old(self).exhausted() || read@.ended),
            single_view(r) == next_result(read@),
    {
        if read.ended {
            self.exhausted = true;
        }
        match read.failure {
            Some(e) => Err(e),
            None => {
                let mut docs = read.docs;
                if docs.len() > 0 {
                    Ok(Some(docs.swap_remove(0)))
                } else {
                    Ok(None)
                }
            },
        }
    }
}

/// A cursor that advances under the session it was opened in. It remembers
/// whether that session had an active transaction then: such a cursor
/// advances only while that transaction stays active.
pub struct CoreSessionCursor {
    cursor: CoreCursor,
    in_transaction: bool,
}

impl CoreSessionCursor {
    pub closed spec fn exhausted(&self) -> bool {
        self.cursor.exhausted()
    }

    pub closed spec fn in_transaction(&self) -> bool {
        self.in_transaction
    }

    pub fn new(session: &SessionState) -> (r: CoreSessionCursor)
        ensures
            !r.exhausted(),
            r.in_transaction() == (session@.transaction == TransactionState::Active),
    {
        let t = session.transaction();
        CoreSessionCursor {
            cursor: CoreCursor::new(),
            in_transaction: t == TransactionState::Active,
        }
    }

    pub fn is_exhausted(&self) -> (r: bool)
        ensures
            r == self.exhausted(),
    {
        self.cursor.is_exhausted()
    }

    pub fn is_in_transaction(&self) -> (r: bool)
        ensures
            r == self.in_transaction(),
    {
        self.in_transaction
    }

    /// Begins a read of at most `limit` documents under the session, whose
    /// lock the caller holds; a read that the session does not allow fails
    /// at once.
    pub fn begin_read(&self, session: &SessionState, limit: Option<u64>) -> (r: CursorRead)
        ensures
            ({
                let lim = match limit {
                    Some(n) => Some(n as nat),
                    None => None,
                };
                match session_block(self.in_transaction(), session@) {
                    None => r@ == opened(self.exhausted(), lim),
                    Some(k) => {
                        &&& r@.limit == lim
                        &&& r@.docs.len() == 0
                        &&& !r@.ended
                        &&& r@.failure matches Some(e) && e.kind == k
                    },
                }
            }),
    {
        match session.check(SessionRequest::Operation) {
            Err(e) => {
                let r = CursorRead { limit, docs: Vec::new(), ended: false, failure: Some(e) };
                assert(r@.docs =~= Seq::<Seq<u8>>::empty());
                r
            },
            Ok(()) => {
                if self.in_transaction && session.transaction() != TransactionState::Active {
                    let e = MongoError::new(
                        ErrorKind::InvalidTransactionState,
                        "the transaction this cursor was opened in has ended".to_string(),
                    );
                    let r = CursorRead { limit, docs: Vec::new(), ended: false, failure: Some(e) };
                    assert(r@.docs =~= Seq::<Seq<u8>>::empty());
                    r
                } else {
                    self.cursor.begin_read(limit)
                }
            },
        }
    }

    pub fn begin_next(&self, session: &SessionState) -> (r: CursorRead)
        ensures
            match session_block(self.in_transaction(), session@) {
                None => r@ == opened(self.exhausted(), Some(1)),
                Some(k) => {
                    &&& r@.limit == Some(1nat)
                    &&& r@.docs.len() == 0
                    &&& !r@.ended
                    &&& r@.failure matches Some(e) && e.kind == k
                },
            },
    {
        self.begin_read(session, Some(1))
    }

    pub fn finish_read(&mut self, read: CursorRead) -> (r: Result<Vec<CoreRawDocument>, MongoError>)
        ensures
            final(self).exhausted() == (old(self).exhausted() || read@.ended),
            final(self).in_transaction() == old(self).in_transaction(),
            batch_view(r) == read_result(read@),
    {
        self.cursor.finish_read(read)
    }

    pub fn finish_next(&mut self, read: CursorRead) -> (r: Result<Option<CoreRawDocument>, MongoError>)
        ensures
            final(self).exhausted() == (old(self).exhausted() || read@.ended),
            final(self).in_transaction() == old(self).in_transaction(),
            single_view(r) == next_result(read@),
    {
        self.cursor.finish_next(read)
    }
}

} // verus!
