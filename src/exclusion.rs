//! The discipline under which operations touch a shared session: an
//! operation touches it only between acquiring and releasing its lock, and
//! each operation acquires it once.
use vstd::prelude::*;

verus! {

/// What happens to a session's lock, by operation.
pub enum LockEvent {
    Acquire(nat),
    /// The operation changes the client's session state.
    Touch(nat),
    Release(nat),
}

/// The lock's holder, the operations that have acquired it, and the order
/// in which operations touched the session.
pub struct LockTrace {
    pub holder: Option<nat>,
    pub seen: Set<nat>,
    pub log: Seq<nat>,
}

pub open spec fn idle_lock() -> LockTrace {
    LockTrace { holder: None, seen: Set::empty(), log: Seq::empty() }
}

/// One event, where the lock allows it: a free lock is acquired by an
/// operation that has not held it before, and only the holder touches the
/// session or releases the lock.
pub open spec fn lock_step(t: LockTrace, ev: LockEvent) -> Option<LockTrace> {
    match ev {
        LockEvent::Acquire(a) => if t.holder is None && !t.seen.contains(a) {
            Some(LockTrace { holder: Some(a), seen: t.seen.insert(a), ..t })
        } else {
            None
        },
        LockEvent::Touch(a) => if t.holder == Some(a) {
            Some(LockTrace { log: t.log.push(a), ..t })
        } else {
            None
        },
        LockEvent::Release(a) => if t.holder == Some(a) {
            Some(LockTrace { holder: None, ..t })
        } else {
            None
        },
    }
}

/// A sequence of events from an idle lock; `None` when the lock would not
/// have allowed one of them.
pub open spec fn lock_run(evs: Seq<LockEvent>) -> Option<LockTrace>
    decreases evs.len(),
{
    if evs.len() == 0 {
        Some(idle_lock())
    } else {
        match lock_run(evs.drop_last()) {
            Some(t) => lock_step(t, evs.last()),
            None => None,
        }
    }
}

/// The touches of each operation stand together: the session saw the
/// operations one after the other, in some serial order.
pub open spec fn serial(log: Seq<nat>) -> bool {
    forall|i: int, j: int, k: int|
        0 <= i < j < k < log.len() && #[trigger] log[i] == #[trigger] log[k] ==> #[trigger] log[j]
            == log[i]
}

spec fn holder_last(t: LockTrace) -> bool {
    forall|i: int, j: int|
        0 <= i < j < t.log.len() && t.holder == Some(#[trigger] t.log[i]) ==> #[trigger] t.log[j]
            == t.log[i]
}

spec fn log_seen(t: LockTrace) -> bool {
    &&& forall|i: int| 0 <= i < t.log.len() ==> t.seen.contains(#[trigger] t.log[i])
    &&& t.holder matches Some(h) ==> t.seen.contains(h)
}

proof fn lemma_lock_run_inv(evs: Seq<LockEvent>)
    ensures
        lock_run(evs) matches Some(t) ==> serial(t.log) && holder_last(t) && log_seen(t),
    decreases evs.len(),
{
    if evs.len() > 0 {
        lemma_lock_run_inv(evs.drop_last());
        if let Some(t) = lock_run(evs.drop_last()) {
            if let Some(u) = lock_step(t, evs.last()) {
                match evs.last() {
                    LockEvent::Acquire(a) => {
                        assert forall|i: int, j: int|
                            0 <= i < j < u.log.len() && u.holder == Some(
                                #[trigger] u.log[i],
                            ) implies #[trigger] u.log[j] == u.log[i] by {
                            assert(t.seen.contains(t.log[i]));
                        }
                    },
                    LockEvent::Touch(a) => {
                        let n = t.log.len() as int;
                        assert(u.log[n] == a);
                        assert forall|i: int, j: int, k: int|
                            0 <= i < j < k < u.log.len() && #[trigger] u.log[i]
                                == #[trigger] u.log[k] implies #[trigger] u.log[j] == u.log[i] by {
                            if k == n {
                                assert(t.log[i] == a);
                                if j < n {
                                    assert(t.log[j] == t.log[i]);
                                }
                            } else {
                                assert(t.log[i] == t.log[k]);
                            }
                        }
                        assert forall|i: int, j: int|
                            0 <= i < j < u.log.len() && u.holder == Some(
                                #[trigger] u.log[i],
                            ) implies #[trigger] u.log[j] == u.log[i] by {
                            if i < n && j < n {
                                assert(t.log[j] == t.log[i]);
                            }
                        }
                    },
                    LockEvent::Release(a) => {},
                }
            }
        }
    }
}

/// Whatever the interleaving of operations that go through the session's
/// lock, the session sees each operation's changes together, never mixed
/// with another's: the outcome is that of running them in some serial
/// order.
pub proof fn lemma_lock_serializes(evs: Seq<LockEvent>)
    ensures
        lock_run(evs) matches Some(t) ==> serial(t.log),
{
    lemma_lock_run_inv(evs);
}

} // verus!
