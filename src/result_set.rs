//! Reads driven against a fixed server result set, and what they return.
use vstd::prelude::*;
use crate::cursor::{absorbed, next_result, opened, read_result, session_block, wants, FetchView, ReadView};
use crate::error::{ErrorKind, MongoError};
use crate::session::{recorded, SessionRequest, SessionView, TransactionState};

verus! {

/// A read carried on to its end against a client cursor over the result set
/// `src` whose next unread result is at `pos`: each advance yields the next
/// result, or the end once none is left. Gives the finished read and the
/// position after it.
pub open spec fn serve(r: ReadView, src: Seq<Seq<u8>>, pos: int) -> (ReadView, int)
    decreases src.len() - pos,
{
    if !wants(r) || pos < 0 || pos > src.len() {
        (r, pos)
    } else if pos == src.len() {
        (absorbed(r, FetchView::End), pos)
    } else {
        serve(absorbed(r, FetchView::Document(src[pos])), src, pos + 1)
    }
}

/// One single-step read on a cursor: its result, whether the cursor is
/// exhausted after it, and the position in the result set after it.
pub open spec fn next_call(exhausted: bool, src: Seq<Seq<u8>>, pos: int) -> (
    Result<Option<Seq<u8>>, MongoError>,
    bool,
    int,
) {
    let (r, p) = serve(opened(exhausted, Some(1)), src, pos);
    (next_result(r), exhausted || r.ended, p)
}

/// The results of `k` single-step reads in a row.
pub open spec fn next_calls(exhausted: bool, src: Seq<Seq<u8>>, pos: int, k: nat) -> Seq<
    Result<Option<Seq<u8>>, MongoError>,
>
    decreases k,
{
    if k == 0 {
        Seq::empty()
    } else {
        let (o, e, p) = next_call(exhausted, src, pos);
        seq![o] + next_calls(e, src, p, (k - 1) as nat)
    }
}

proof fn lemma_serve_drains(r: ReadView, src: Seq<Seq<u8>>, pos: int)
    requires
        0 <= pos <= src.len(),
        !r.ended,
        r.failure is None,
        match r.limit {
            Some(n) => r.docs.len() + (src.len() - pos) < n,
            None => true,
        },
    ensures
        serve(r, src, pos) == (
        ReadView { docs: r.docs + src.subrange(pos, src.len() as int), ended: true, ..r },
        src.len() as int,
        ),
    decreases src.len() - pos,
{
    if pos == src.len() {
        assert(r.docs + src.subrange(pos, src.len() as int) =~= r.docs);
    } else {
        let r2 = absorbed(r, FetchView::Document(src[pos]));
        lemma_serve_drains(r2, src, pos + 1);
        assert(r2.docs + src.subrange(pos + 1, src.len() as int) =~= r.docs + src.subrange(
            pos,
            src.len() as int,
        ));
    }
}

pub open spec fn expected_next(exhausted: bool, src: Seq<Seq<u8>>, pos: int, i: int) -> Result<
    Option<Seq<u8>>,
    MongoError,
> {
    if !exhausted && pos + i < src.len() {
        Ok(Some(src[pos + i]))
    } else {
        Ok(None)
    }
}

proof fn lemma_one_next(exhausted: bool, src: Seq<Seq<u8>>, pos: int)
    requires
        0 <= pos <= src.len(),
    ensures
        ({
            let (o, e, p) = next_call(exhausted, src, pos);
            &&& o == expected_next(exhausted, src, pos, 0)
            &&& e == (exhausted || pos == src.len())
            &&& p == (if exhausted || pos == src.len() {
                pos
            } else {
                pos + 1
            })
        }),
{
    let r0 = opened(exhausted, Some(1));
    if !exhausted && pos < src.len() {
        let r1 = absorbed(r0, FetchView::Document(src[pos]));
        assert(r1.docs =~= seq![src[pos]]);
        assert(serve(r1, src, pos + 1) == (r1, pos + 1));
    }
}

proof fn lemma_next_from(exhausted: bool, src: Seq<Seq<u8>>, pos: int, k: nat)
    requires
        0 <= pos <= src.len(),
    ensures
        next_calls(exhausted, src, pos, k).len() == k,
        forall|i: int|
            0 <= i < k ==> #[trigger] next_calls(exhausted, src, pos, k)[i] == expected_next(
                exhausted,
                src,
                pos,
                i,
            ),
    decreases k,
{
    if k > 0 {
        lemma_one_next(exhausted, src, pos);
        let (o, e, p) = next_call(exhausted, src, pos);
        lemma_next_from(e, src, p, (k - 1) as nat);
        let all = next_calls(exhausted, src, pos, k);
        let rest = next_calls(e, src, p, (k - 1) as nat);
        assert(all == seq![o] + rest);
        assert forall|i: int| 0 <= i < k implies #[trigger] all[i] == expected_next(
            exhausted,
            src,
            pos,
            i,
        ) by {
            if i > 0 {
                assert(all[i] == rest[i - 1]);
            }
        }
    }
}

/// On a fresh cursor over a result set of `N` documents, single-step reads
/// return the `N` documents in order, and every read after them reports
/// that the results are exhausted.
pub proof fn lemma_next_yields_each_then_exhausted(src: Seq<Seq<u8>>, k: nat)
    ensures
        next_calls(false, src, 0, k).len() == k,
        forall|i: int|
            0 <= i < k ==> #[trigger] next_calls(false, src, 0, k)[i] == (if i < src.len() {
                Ok::<Option<Seq<u8>>, MongoError>(Some(src[i]))
            } else {
                Ok(None)
            }),
{
    lemma_next_from(false, src, 0, k);
}

/// A batch read of `n` documents when fewer than `n` remain returns exactly
/// the remaining documents, without an error, and reaches the end.
pub proof fn lemma_batch_returns_remaining(src: Seq<Seq<u8>>, pos: int, n: nat)
    requires
        0 <= pos <= src.len(),
        src.len() - pos < n,
    ensures
        ({
            let (r, p) = serve(opened(false, Some(n)), src, pos);
            &&& read_result(r) == Ok::<Seq<Seq<u8>>, MongoError>(
                src.subrange(pos, src.len() as int),
            )
            &&& r.docs.len() == src.len() - pos
            &&& r.ended
            &&& p == src.len()
        }),
{
    let r0 = opened(false, Some(n));
    lemma_serve_drains(r0, src, pos);
    assert(r0.docs + src.subrange(pos, src.len() as int) =~= src.subrange(pos, src.len() as int));
}

/// Collecting returns every remaining document without an error; over an
/// empty result set, or on an exhausted cursor, it returns an empty sequence.
pub proof fn lemma_collect_returns_remaining(src: Seq<Seq<u8>>, pos: int)
    requires
        0 <= pos <= src.len(),
    ensures
        read_result(serve(opened(false, None), src, pos).0) == Ok::<Seq<Seq<u8>>, MongoError>(
            src.subrange(pos, src.len() as int),
        ),
        read_result(serve(opened(false, None), Seq::empty(), 0).0) == Ok::<
            Seq<Seq<u8>>,
            MongoError,
        >(Seq::empty()),
        read_result(serve(opened(true, None), src, pos).0) == Ok::<Seq<Seq<u8>>, MongoError>(
            Seq::empty(),
        ),
{
    let r0 = opened(false, None);
    lemma_serve_drains(r0, src, pos);
    assert(r0.docs + src.subrange(pos, src.len() as int) =~= src.subrange(pos, src.len() as int));
    lemma_serve_drains(r0, Seq::empty(), 0);
    assert(r0.docs + Seq::<Seq<u8>>::empty().subrange(0, 0) =~= Seq::<Seq<u8>>::empty());
}

/// Once the transaction that a session cursor was opened in is aborted, the
/// cursor yields no document: every later read on it fails with
/// `InvalidTransactionState` and never advances the client's cursor, and no
/// later request brings that transaction back.
pub proof fn lemma_session_cursor_after_abort(
    s: SessionView,
    req: SessionRequest,
    failure: Option<ErrorKind>,
    r: ReadView,
    src: Seq<Seq<u8>>,
    pos: int,
)
    requires
        s.transaction == TransactionState::Active,
        !s.poisoned,
    ensures
        ({
            let t = recorded(s, SessionRequest::AbortTransaction, None);
            &&& t.transaction == TransactionState::Aborted
            &&& recorded(t, req, failure).transaction == TransactionState::Aborted
            &&& session_block(true, t) == Some(ErrorKind::InvalidTransactionState)
        }),
        (r.docs.len() == 0 && (r.failure matches Some(e) && e.kind
            == ErrorKind::InvalidTransactionState)) ==> {
            &&& serve(r, src, pos) == (r, pos)
            &&& (read_result(r) matches Err(e2) && e2.kind == ErrorKind::InvalidTransactionState)
            &&& (next_result(r) matches Err(e3) && e3.kind == ErrorKind::InvalidTransactionState)
        },
{
}

} // verus!
