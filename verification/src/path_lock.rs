//! The authoritative lock state of one database path, shared by every
//! connection that has the path open.

use vstd::prelude::*;

use crate::counting::{
    count_where, indicator, lemma_count_push, lemma_count_remove, lemma_count_unique,
    lemma_count_update, lemma_count_zero,
};
use crate::lock::Lock;

verus! {

/// The lock state of a path.
#[derive(Debug, Clone, Copy, PartialEq, Eq, Structural)]
pub enum FileLockState {
    /// `count` connections hold a shared lock; nobody intends to write.
    Read { count: usize },
    /// One connection intends to write; `count` further connections hold a
    /// shared lock.
    Reserved { count: usize },
    /// One connection waits for the `count` remaining shared locks to be
    /// released before it becomes the exclusive holder.
    Pending { count: usize },
    /// A single connection holds the path; there is no other holder.
    Exclusive,
}

/// What a request to change a connection's lock leads to.
#[derive(Debug, Clone, Copy, PartialEq, Eq, Structural)]
pub enum Transition {
    /// The request is granted: the path's new state and the lock the
    /// connection holds from now on.
    Granted { state: FileLockState, lock: Lock },
    /// The request cannot be granted right now. Nothing changes.
    Refused,
    /// The request makes no sense in the current state. Nothing changes.
    Invalid,
}

impl FileLockState {
    /// The number of shared holders next to the writer, if there is one.
    pub open spec fn shared_count(self) -> nat {
        match self {
            FileLockState::Read { count } => count as nat,
            FileLockState::Reserved { count } => count as nat,
            FileLockState::Pending { count } => count as nat,
            FileLockState::Exclusive => 0,
        }
    }

    /// The lock of the one connection that intends to write or writes;
    /// [`Lock::Unlocked`] where there is none.
    pub open spec fn writer_lock(self) -> Lock {
        match self {
            FileLockState::Read { .. } => Lock::Unlocked,
            FileLockState::Reserved { .. } => Lock::Reserved,
            FileLockState::Pending { .. } => Lock::Pending,
            FileLockState::Exclusive => Lock::Exclusive,
        }
    }

    /// Whether some connection holds a reserved, pending or exclusive lock.
    pub open spec fn spec_is_reserved(self) -> bool {
        !(self is Read)
    }

    /// The transition table of the path lock. A counter that would leave the
    /// range of `usize` is not incremented: the request is refused. A shared
    /// holder that the counter does not know of cannot release: the request is
    /// invalid.
    pub open spec fn spec_transition(self, from: Lock, to: Lock) -> Transition {
        match (self, from, to) {
            (FileLockState::Read { count }, Lock::Unlocked, Lock::Shared) => if count < usize::MAX {
                Transition::Granted {
                    state: FileLockState::Read { count: (count + 1) as usize },
                    lock: Lock::Shared,
                }
            } else {
                Transition::Refused
            },
            (FileLockState::Reserved { count }, Lock::Unlocked, Lock::Shared) => if count
                < usize::MAX {
                Transition::Granted {
                    state: FileLockState::Reserved { count: (count + 1) as usize },
                    lock: Lock::Shared,
                }
            } else {
                Transition::Refused
            },
            (FileLockState::Pending { .. }, Lock::Unlocked, Lock::Shared) => Transition::Refused,
            (FileLockState::Exclusive, Lock::Unlocked, Lock::Shared) => Transition::Refused,
            (FileLockState::Read { count }, Lock::Shared, Lock::Unlocked) => if count > 0 {
                Transition::Granted {
                    state: FileLockState::Read { count: (count - 1) as usize },
                    lock: Lock::Unlocked,
                }
            } else {
                Transition::Invalid
            },
            (FileLockState::Reserved { count }, Lock::Shared, Lock::Unlocked) => if count > 0 {
                Transition::Granted {
                    state: FileLockState::Reserved { count: (count - 1) as usize },
                    lock: Lock::Unlocked,
                }
            } else {
                Transition::Invalid
            },
            (FileLockState::Pending { count }, Lock::Shared, Lock::Unlocked) => if count > 0 {
                Transition::Granted {
                    state: FileLockState::Pending { count: (count - 1) as usize },
                    lock: Lock::Unlocked,
                }
            } else {
                Transition::Invalid
            },
            (FileLockState::Read { count }, Lock::Shared, Lock::Reserved) => if count > 0 {
                Transition::Granted {
                    state: FileLockState::Reserved { count: (count - 1) as usize },
                    lock: Lock::Reserved,
                }
            } else {
                Transition::Invalid
            },
            (FileLockState::Reserved { count }, Lock::Reserved, Lock::Shared) => if count
                < usize::MAX {
                Transition::Granted {
                    state: FileLockState::Read { count: (count + 1) as usize },
                    lock: Lock::Shared,
                }
            } else {
                Transition::Refused
            },
            (FileLockState::Pending { count }, Lock::Pending, Lock::Shared) => if count
                < usize::MAX {
                Transition::Granted {
                    state: FileLockState::Read { count: (count + 1) as usize },
                    lock: Lock::Shared,
                }
            } else {
                Transition::Refused
            },
            (FileLockState::Reserved { count }, Lock::Reserved, Lock::Unlocked) => {
                Transition::Granted { state: FileLockState::Read { count }, lock: Lock::Unlocked }
            },
            (FileLockState::Pending { count }, Lock::Pending, Lock::Unlocked) => {
                Transition::Granted { state: FileLockState::Read { count }, lock: Lock::Unlocked }
            },
            (FileLockState::Reserved { .. }, Lock::Shared, Lock::Reserved)
            | (FileLockState::Reserved { .. }, Lock::Shared, Lock::Exclusive)
            | (FileLockState::Pending { .. }, Lock::Shared, Lock::Reserved)
            | (FileLockState::Pending { .. }, Lock::Shared, Lock::Exclusive)
            | (FileLockState::Exclusive, Lock::Shared, Lock::Reserved)
            | (FileLockState::Exclusive, Lock::Shared, Lock::Exclusive) => Transition::Refused,
            (FileLockState::Read { count }, Lock::Shared, Lock::Exclusive) => if count == 1 {
                Transition::Granted { state: FileLockState::Exclusive, lock: Lock::Exclusive }
            } else if count > 1 {
                Transition::Granted {
                    state: FileLockState::Pending { count: (count - 1) as usize },
                    lock: Lock::Pending,
                }
            } else {
                Transition::Invalid
            },
            (FileLockState::Reserved { count }, Lock::Reserved, Lock::Exclusive)
            | (FileLockState::Reserved { count }, Lock::Pending, Lock::Exclusive)
            | (FileLockState::Pending { count }, Lock::Reserved, Lock::Exclusive)
            | (FileLockState::Pending { count }, Lock::Pending, Lock::Exclusive) => if count == 0 {
                Transition::Granted { state: FileLockState::Exclusive, lock: Lock::Exclusive }
            } else {
                Transition::Granted { state: FileLockState::Pending { count }, lock: Lock::Pending }
            },
            (FileLockState::Exclusive, Lock::Exclusive, Lock::Shared) => Transition::Granted {
                state: FileLockState::Read { count: 1 },
                lock: Lock::Shared,
            },
            (FileLockState::Exclusive, Lock::Exclusive, Lock::Unlocked) => Transition::Granted {
                state: FileLockState::Read { count: 0 },
                lock: Lock::Unlocked,
            },
            _ => Transition::Invalid,
        }
    }

    /// The state of a path that nobody has locked.
    pub fn new() -> (r: FileLockState)
        ensures
            r == (FileLockState::Read { count: 0 }),
    {
        FileLockState::Read { count: 0 }
    }

    /// Whether some connection holds a reserved, pending or exclusive lock.
    pub fn is_reserved(&self) -> (r: bool)
        ensures
            r == self.spec_is_reserved(),
    {
        match self {
            FileLockState::Read { .. } => false,
            _ => true,
        }
    }

    /// Decide the request of a connection that holds `from` to hold `to`.
    pub fn transition(&self, from: Lock, to: Lock) -> (r: Transition)
        ensures
            r == self.spec_transition(from, to),
    {
        match (*self, from, to) {
            (FileLockState::Read { count }, Lock::Unlocked, Lock::Shared) => {
                if count < usize::MAX {
                    Transition::Granted {
                        state: FileLockState::Read { count: count + 1 },
                        lock: Lock::Shared,
                    }
                } else {
                    Transition::Refused
                }
            },
            (FileLockState::Reserved { count }, Lock::Unlocked, Lock::Shared) => {
                if count < usize::MAX {
                    Transition::Granted {
                        state: FileLockState::Reserved { count: count + 1 },
                        lock: Lock::Shared,
                    }
                } else {
                    Transition::Refused
                }
            },
            (FileLockState::Pending { .. }, Lock::Unlocked, Lock::Shared)
            | (FileLockState::Exclusive, Lock::Unlocked, Lock::Shared) => Transition::Refused,
            (FileLockState::Read { count }, Lock::Shared, Lock::Unlocked) => {
                if count > 0 {
                    Transition::Granted {
                        state: FileLockState::Read { count: count - 1 },
                        lock: Lock::Unlocked,
                    }
                } else {
                    Transition::Invalid
                }
            },
            (FileLockState::Reserved { count }, Lock::Shared, Lock::Unlocked) => {
                if count > 0 {
                    Transition::Granted {
                        state: FileLockState::Reserved { count: count - 1 },
                        lock: Lock::Unlocked,
                    }
                } else {
                    Transition::Invalid
                }
            },
            (FileLockState::Pending { count }, Lock::Shared, Lock::Unlocked) => {
                if count > 0 {
                    Transition::Granted {
                        state: FileLockState::Pending { count: count - 1 },
                        lock: Lock::Unlocked,
                    }
                } else {
                    Transition::Invalid
                }
            },
            (FileLockState::Read { count }, Lock::Shared, Lock::Reserved) => {
                if count > 0 {
                    Transition::Granted {
                        state: FileLockState::Reserved { count: count - 1 },
                        lock: Lock::Reserved,
                    }
                } else {
                    Transition::Invalid
                }
            },
            (FileLockState::Reserved { count }, Lock::Reserved, Lock::Shared)
            | (FileLockState::Pending { count }, Lock::Pending, Lock::Shared) => {
                if count < usize::MAX {
                    Transition::Granted {
                        state: FileLockState::Read { count: count + 1 },
                        lock: Lock::Shared,
                    }
                } else {
                    Transition::Refused
                }
            },
            (FileLockState::Reserved { count }, Lock::Reserved, Lock::Unlocked)
            | (FileLockState::Pending { count }, Lock::Pending, Lock::Unlocked) => {
                Transition::Granted { state: FileLockState::Read { count }, lock: Lock::Unlocked }
            },
            (FileLockState::Reserved { .. }, Lock::Shared, Lock::Reserved)
            | (FileLockState::Reserved { .. }, Lock::Shared, Lock::Exclusive)
            | (FileLockState::Pending { .. }, Lock::Shared, Lock::Reserved)
            | (FileLockState::Pending { .. }, Lock::Shared, Lock::Exclusive)
            | (FileLockState::Exclusive, Lock::Shared, Lock::Reserved)
            | (FileLockState::Exclusive, Lock::Shared, Lock::Exclusive) => Transition::Refused,
            (FileLockState::Read { count }, Lock::Shared, Lock::Exclusive) => {
                if count == 1 {
                    Transition::Granted { state: FileLockState::Exclusive, lock: Lock::Exclusive }
                } else if count > 1 {
                    Transition::Granted {
                        state: FileLockState::Pending { count: count - 1 },
                        lock: Lock::Pending,
                    }
                } else {
                    Transition::Invalid
                }
            },
            (FileLockState::Reserved { count }, Lock::Reserved, Lock::Exclusive)
            | (FileLockState::Reserved { count }, Lock::Pending, Lock::Exclusive)
            | (FileLockState::Pending { count }, Lock::Reserved, Lock::Exclusive)
            | (FileLockState::Pending { count }, Lock::Pending, Lock::Exclusive) => {
                if count == 0 {
                    Transition::Granted { state: FileLockState::Exclusive, lock: Lock::Exclusive }
                } else {
                    Transition::Granted {
                        state: FileLockState::Pending { count },
                        lock: Lock::Pending,
                    }
                }
            },
            (FileLockState::Exclusive, Lock::Exclusive, Lock::Shared) => Transition::Granted {
                state: FileLockState::Read { count: 1 },
                lock: Lock::Shared,
            },
            (FileLockState::Exclusive, Lock::Exclusive, Lock::Unlocked) => Transition::Granted {
                state: FileLockState::Read { count: 0 },
                lock: Lock::Unlocked,
            },
            _ => Transition::Invalid,
        }
    }

    /// The state of the path once a connection that holds `held` has gone.
    pub open spec fn spec_release(self, held: Lock) -> FileLockState {
        match self.spec_transition(held, Lock::Unlocked) {
            Transition::Granted { state, .. } => state,
            _ => self,
        }
    }

    /// Take out of the state what a connection that holds `held` contributed
    /// to it. This is what happens when the connection is dropped.
    pub fn release(&mut self, held: Lock)
        ensures
            *final(self) == old(self).spec_release(held),
    {
        match self.transition(held, Lock::Unlocked) {
            Transition::Granted { state, .. } => {
                *self = state;
            },
            _ => {},
        }
    }
}

impl Default for FileLockState {
    fn default() -> (r: FileLockState)
        ensures
            r == (FileLockState::Read { count: 0 }),
    {
        FileLockState::new()
    }
}

/// A path together with the locks that its connections believe to hold, one
/// entry for each live connection.
pub struct PathLocks {
    pub state: FileLockState,
    pub views: Seq<Lock>,
}

/// The property of holding exactly the lock `lock`.
pub open spec fn holds(lock: Lock) -> spec_fn(Lock) -> bool {
    |l: Lock| l == lock
}

/// The property of holding a lock above [`Lock::Shared`].
pub open spec fn writes() -> spec_fn(Lock) -> bool {
    |l: Lock| l.is_writer()
}

/// The property of holding any lock at all.
pub open spec fn locked() -> spec_fn(Lock) -> bool {
    |l: Lock| l != Lock::Unlocked
}

impl PathLocks {
    /// The state agrees with the connections: the counter is the number of
    /// connections that hold a shared lock, and the state names a writer
    /// exactly if one connection is above shared, with the lock that the
    /// state says.
    pub open spec fn consistent(self) -> bool {
        &&& count_where(self.views, holds(Lock::Shared)) == self.state.shared_count()
        &&& count_where(self.views, writes()) == if self.state is Read {
            0nat
        } else {
            1nat
        }
        &&& forall|i: int|
            0 <= i < self.views.len() && (#[trigger] self.views[i]).is_writer() ==> self.views[i]
                == self.state.writer_lock()
    }

    /// The system after connection `i` asked for `to`.
    pub open spec fn step(self, i: int, to: Lock) -> PathLocks {
        match self.state.spec_transition(self.views[i], to) {
            Transition::Granted { state, lock } => PathLocks {
                state,
                views: self.views.update(i, lock),
            },
            _ => self,
        }
    }

    /// The system after a new connection opened the path.
    pub open spec fn connect(self) -> PathLocks {
        PathLocks { state: self.state, views: self.views.push(Lock::Unlocked) }
    }

    /// The system after connection `i` was dropped.
    pub open spec fn disconnect(self, i: int) -> PathLocks {
        PathLocks { state: self.state.spec_release(self.views[i]), views: self.views.remove(i) }
    }
}

/// A fresh path with any number of connections, none of which holds a lock,
/// is consistent.
pub proof fn lemma_initial_consistent(n: nat)
    ensures
        (PathLocks {
            state: FileLockState::Read { count: 0 },
            views: Seq::new(n, |i: int| Lock::Unlocked),
        }).consistent(),
{
    let views = Seq::new(n, |i: int| Lock::Unlocked);
    lemma_count_zero(views, holds(Lock::Shared));
    lemma_count_zero(views, writes());
}

/// A new connection keeps the system consistent.
pub proof fn lemma_connect_consistent(sys: PathLocks)
    requires
        sys.consistent(),
    ensures
        sys.connect().consistent(),
{
    lemma_count_push(sys.views, holds(Lock::Shared), Lock::Unlocked);
    lemma_count_push(sys.views, writes(), Lock::Unlocked);
}

/// Every request of every connection keeps the system consistent, whether it
/// is granted or not.
pub proof fn lemma_step_consistent(sys: PathLocks, i: int, to: Lock)
    requires
        sys.consistent(),
        0 <= i < sys.views.len(),
    ensures
        sys.step(i, to).consistent(),
{
    let from = sys.views[i];
    match sys.state.spec_transition(from, to) {
        Transition::Granted { state, lock } => {
            let next = sys.step(i, to);
            lemma_count_update(sys.views, holds(Lock::Shared), i, lock);
            lemma_count_update(sys.views, writes(), i, lock);
            assert(indicator(holds(Lock::Shared), from) == if from == Lock::Shared {
                1nat
            } else {
                0nat
            });
            assert(indicator(writes(), from) == if from.is_writer() {
                1nat
            } else {
                0nat
            });
            assert forall|j: int|
                0 <= j < next.views.len() && (#[trigger] next.views[j]).is_writer() implies
                next.views[j] == next.state.writer_lock() by {
                if j != i {
                    assert(next.views[j] == sys.views[j]);
                    if from.is_writer() {
                        lemma_count_unique(sys.views, writes(), i, j);
                    }
                    if sys.state is Read {
                        lemma_count_zero(sys.views, writes());
                    }
                }
            }
        },
        _ => {},
    }
}

/// In a consistent system at most one connection holds a lock above shared.
pub proof fn lemma_single_writer(sys: PathLocks, i: int, j: int)
    requires
        sys.consistent(),
        0 <= i < sys.views.len(),
        0 <= j < sys.views.len(),
        sys.views[i].is_writer(),
        sys.views[j].is_writer(),
    ensures
        i == j,
{
    lemma_count_unique(sys.views, writes(), i, j);
}

/// In a consistent system every connection that holds a shared lock is
/// counted. So a release never takes the counter below zero, and no request
/// of a connection is invalid for want of a counted holder.
pub proof fn lemma_count_never_negative(sys: PathLocks, i: int)
    requires
        sys.consistent(),
        0 <= i < sys.views.len(),
        sys.views[i] == Lock::Shared,
    ensures
        sys.state.shared_count() >= 1,
        !(sys.state is Exclusive),
        sys.state.spec_transition(Lock::Shared, Lock::Unlocked) is Granted,
        sys.state.spec_transition(Lock::Shared, Lock::Unlocked)->state.shared_count()
            == sys.state.shared_count() - 1,
{
    lemma_count_zero(sys.views, holds(Lock::Shared));
}

/// While a writer is pending, or holds the path exclusively, no connection
/// moves from unlocked to shared.
pub proof fn lemma_pending_blocks_readers(state: FileLockState)
    requires
        state is Pending || state is Exclusive,
    ensures
        state.spec_transition(Lock::Unlocked, Lock::Shared) == Transition::Refused,
{
}

/// The counter plus the writer, if there is one, is the number of connections
/// that hold any lock at all.
pub proof fn lemma_holders_accounted(sys: PathLocks)
    requires
        sys.consistent(),
    ensures
        count_where(sys.views, locked()) == sys.state.shared_count() + if sys.state is Read {
            0nat
        } else {
            1nat
        },
{
    lemma_split_locked(sys.views);
}

/// A connection holds a lock exactly if it holds a shared lock or one above.
proof fn lemma_split_locked(views: Seq<Lock>)
    ensures
        count_where(views, locked()) == count_where(views, holds(Lock::Shared)) + count_where(
            views,
            writes(),
        ),
    decreases views.len(),
{
    if views.len() > 0 {
        lemma_split_locked(views.drop_last());
    }
}

/// Dropping a connection keeps the system consistent: whatever the connection
/// contributed to the state of the path is released with it.
pub proof fn lemma_disconnect_consistent(sys: PathLocks, i: int)
    requires
        sys.consistent(),
        0 <= i < sys.views.len(),
    ensures
        sys.disconnect(i).consistent(),
{
    let held = sys.views[i];
    let next = sys.disconnect(i);
    lemma_count_remove(sys.views, holds(Lock::Shared), i);
    lemma_count_remove(sys.views, writes(), i);
    if held == Lock::Shared {
        lemma_count_never_negative(sys, i);
    }
    if held == Lock::Exclusive {
        assert(sys.state is Exclusive);
    }
    assert forall|j: int|
        0 <= j < next.views.len() && (#[trigger] next.views[j]).is_writer() implies next.views[j]
        == next.state.writer_lock() by {
        let k = if j < i {
            j
        } else {
            j + 1
        };
        assert(next.views[j] == sys.views[k]);
        if held.is_writer() {
            lemma_count_unique(sys.views, writes(), i, k);
        }
    }
}

/// After a connection was dropped, the counter plus the writer is the number
/// of the remaining connections that hold a lock: nothing of the dropped
/// connection is left in the state of the path.
pub proof fn lemma_disconnect_releases(sys: PathLocks, i: int)
    requires
        sys.consistent(),
        0 <= i < sys.views.len(),
    ensures
        count_where(sys.disconnect(i).views, locked()) == sys.disconnect(i).state.shared_count()
            + if sys.disconnect(i).state is Read {
            0nat
        } else {
            1nat
        },
        !sys.views[i].is_writer() ==> sys.disconnect(i).state.writer_lock()
            == sys.state.writer_lock(),
        sys.views[i].is_writer() ==> sys.disconnect(i).state is Read,
{
    lemma_disconnect_consistent(sys, i);
    lemma_holders_accounted(sys.disconnect(i));
    if sys.views[i] == Lock::Shared {
        lemma_count_never_negative(sys, i);
    }
}

} // verus!
