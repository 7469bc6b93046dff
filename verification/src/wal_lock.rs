//! Locks on the regions of a WAL index.
//!
//! Every region carries a reader-writer lock. A connection asks for a lock on
//! a band of regions at once, and gets it on all of them or on none.

use std::collections::HashMap;
use vstd::prelude::*;

use crate::counting::{
    count_where, indicator, lemma_count_unique, lemma_count_update, lemma_count_witness,
    lemma_count_zero,
};

verus! {

broadcast use vstd::std_specs::hash::group_hash_axioms;

/// The lock a connection holds on one region of the WAL index.
#[derive(Debug, Clone, Copy, PartialEq, Eq, Structural)]
pub enum WalIndexLock {
    /// The connection holds no lock on the region.
    Unlocked,
    /// The connection may read the region.
    Shared,
    /// The connection may write the region; nobody else holds a lock on it.
    Exclusive,
}

/// The state of the lock of one region, as the coordinator keeps it.
#[derive(Debug, Clone, Copy, PartialEq, Eq, Structural)]
pub enum WalIndexLockState {
    /// `count` connections hold a shared lock.
    Shared { count: usize },
    /// One connection holds the exclusive lock.
    Exclusive,
}

impl WalIndexLock {
    /// The number that stands for the lock in a message, if `code` is one.
    pub open spec fn spec_from_u16(code: u16) -> Option<WalIndexLock> {
        if code == 1 {
            Some(WalIndexLock::Unlocked)
        } else if code == 2 {
            Some(WalIndexLock::Shared)
        } else if code == 3 {
            Some(WalIndexLock::Exclusive)
        } else {
            None
        }
    }

    /// The number that stands for the lock in a message.
    pub open spec fn spec_to_u16(self) -> u16 {
        match self {
            WalIndexLock::Unlocked => 1,
            WalIndexLock::Shared => 2,
            WalIndexLock::Exclusive => 3,
        }
    }

    /// The lock that `code` stands for in a message.
    pub fn from_u16(code: u16) -> (r: Option<WalIndexLock>)
        ensures
            r == WalIndexLock::spec_from_u16(code),
    {
        if code == 1 {
            Some(WalIndexLock::Unlocked)
        } else if code == 2 {
            Some(WalIndexLock::Shared)
        } else if code == 3 {
            Some(WalIndexLock::Exclusive)
        } else {
            None
        }
    }

    /// The number that stands for the lock in a message.
    pub fn to_u16(self) -> (r: u16)
        ensures
            r == self.spec_to_u16(),
            WalIndexLock::spec_from_u16(r) == Some(self),
    {
        match self {
            WalIndexLock::Unlocked => 1,
            WalIndexLock::Shared => 2,
            WalIndexLock::Exclusive => 3,
        }
    }

    /// The lock the engine asks for with the flags of a lock request: none
    /// unless it is locking, and then exclusive or shared.
    pub open spec fn spec_from_shm_flags(locking: bool, exclusive: bool) -> WalIndexLock {
        if !locking {
            WalIndexLock::Unlocked
        } else if exclusive {
            WalIndexLock::Exclusive
        } else {
            WalIndexLock::Shared
        }
    }
}

impl Default for WalIndexLock {
    fn default() -> (r: WalIndexLock)
        ensures
            r == WalIndexLock::Unlocked,
    {
        WalIndexLock::Unlocked
    }
}

impl Default for WalIndexLockState {
    fn default() -> (r: WalIndexLockState)
        ensures
            r == (WalIndexLockState::Shared { count: 0 }),
    {
        WalIndexLockState::Shared { count: 0 }
    }
}

/// The transition table of the lock of one region: the state of the region
/// after a connection that holds `from` moved to `to`, or `None` where the
/// region does not admit the move. A move to the lock already held changes
/// nothing. A counter that would leave the range of `usize` is not
/// incremented: the move is refused.
pub open spec fn spec_transition_wal_index_lock(
    state: WalIndexLockState,
    from: WalIndexLock,
    to: WalIndexLock,
) -> Option<WalIndexLockState> {
    if from == to {
        Some(state)
    } else {
        match (state, from, to) {
            (WalIndexLockState::Shared { count }, WalIndexLock::Unlocked, WalIndexLock::Shared) => {
                if count < usize::MAX {
                    Some(WalIndexLockState::Shared { count: (count + 1) as usize })
                } else {
                    None
                }
            },
            (
                WalIndexLockState::Shared { count },
                WalIndexLock::Unlocked,
                WalIndexLock::Exclusive,
            ) => {
                if count == 0 {
                    Some(WalIndexLockState::Exclusive)
                } else {
                    None
                }
            },
            (WalIndexLockState::Shared { count }, WalIndexLock::Shared, WalIndexLock::Unlocked) => {
                Some(
                    WalIndexLockState::Shared {
                        count: if count > 0 {
                            (count - 1) as usize
                        } else {
                            0
                        },
                    },
                )
            },
            (
                WalIndexLockState::Shared { count },
                WalIndexLock::Shared,
                WalIndexLock::Exclusive,
            ) => {
                if count == 1 {
                    Some(WalIndexLockState::Exclusive)
                } else {
                    None
                }
            },
            (WalIndexLockState::Exclusive, WalIndexLock::Exclusive, WalIndexLock::Unlocked) => {
                Some(WalIndexLockState::Shared { count: 0 })
            },
            (WalIndexLockState::Exclusive, WalIndexLock::Exclusive, WalIndexLock::Shared) => {
                Some(WalIndexLockState::Shared { count: 1 })
            },
            _ => None,
        }
    }
}

/// Decide the move of a connection from `from` to `to` on a region in `state`.
pub fn transition_wal_index_lock(
    state: &WalIndexLockState,
    from: WalIndexLock,
    to: WalIndexLock,
) -> (r: Option<WalIndexLockState>)
    ensures
        r == spec_transition_wal_index_lock(*state, from, to),
{
    match (*state, from, to) {
        (_, WalIndexLock::Unlocked, WalIndexLock::Unlocked)
        | (_, WalIndexLock::Shared, WalIndexLock::Shared)
        | (_, WalIndexLock::Exclusive, WalIndexLock::Exclusive) => Some(*state),
        (WalIndexLockState::Shared { count }, WalIndexLock::Unlocked, WalIndexLock::Shared) => {
            if count < usize::MAX {
                Some(WalIndexLockState::Shared { count: count + 1 })
            } else {
                None
            }
        },
        (WalIndexLockState::Shared { count }, WalIndexLock::Unlocked, WalIndexLock::Exclusive) => {
            if count == 0 {
                Some(WalIndexLockState::Exclusive)
            } else {
                None
            }
        },
        (WalIndexLockState::Shared { count }, WalIndexLock::Shared, WalIndexLock::Unlocked) => {
            Some(WalIndexLockState::Shared { count: count.saturating_sub(1) })
        },
        (WalIndexLockState::Shared { count }, WalIndexLock::Shared, WalIndexLock::Exclusive) => {
            if count == 1 {
                Some(WalIndexLockState::Exclusive)
            } else {
                None
            }
        },
        (WalIndexLockState::Exclusive, WalIndexLock::Exclusive, WalIndexLock::Unlocked) => {
            Some(WalIndexLockState::Shared { count: 0 })
        },
        (WalIndexLockState::Exclusive, WalIndexLock::Exclusive, WalIndexLock::Shared) => {
            Some(WalIndexLockState::Shared { count: 1 })
        },
        (WalIndexLockState::Shared { .. }, WalIndexLock::Exclusive, _)
        | (WalIndexLockState::Exclusive, WalIndexLock::Unlocked, WalIndexLock::Shared)
        | (WalIndexLockState::Exclusive, WalIndexLock::Unlocked, WalIndexLock::Exclusive)
        | (WalIndexLockState::Exclusive, WalIndexLock::Shared, WalIndexLock::Unlocked)
        | (WalIndexLockState::Exclusive, WalIndexLock::Shared, WalIndexLock::Exclusive) => None,
    }
}

/// The state of region `r`. A region that was never locked is shared by
/// nobody.
pub open spec fn region_state(locks: Map<u8, WalIndexLockState>, r: u8) -> WalIndexLockState {
    if locks.contains_key(r) {
        locks[r]
    } else {
        WalIndexLockState::Shared { count: 0 }
    }
}

/// The lock that a connection with the view `view` holds on region `r`.
pub open spec fn held_lock(view: Map<u8, WalIndexLock>, r: u8) -> WalIndexLock {
    if view.contains_key(r) {
        view[r]
    } else {
        WalIndexLock::Unlocked
    }
}

/// Whether every region of the band `start..end` admits the move of the
/// connection to `to`.
pub open spec fn band_admits(
    locks: Map<u8, WalIndexLockState>,
    view: Map<u8, WalIndexLock>,
    start: u8,
    end: u8,
    to: WalIndexLock,
) -> bool {
    forall|r: u8|
        start <= r < end ==> (#[trigger] spec_transition_wal_index_lock(
            region_state(locks, r),
            held_lock(view, r),
            to,
        )) is Some
}

/// Whether `locks_after` and `view_after` are what the request of a
/// connection to hold `to` on the band `start..end` leads to, and `granted`
/// says whether it was granted.
///
/// The request is granted exactly if every region of the band admits the
/// move. Then every region of the band makes its transition, and the
/// connection holds `to` on each of them. If a single region does not admit
/// the move, neither the locks nor the view change at all. The regions
/// outside the band stay as they are either way.
pub open spec fn band_moved(
    locks_before: Map<u8, WalIndexLockState>,
    view_before: Map<u8, WalIndexLock>,
    start: u8,
    end: u8,
    to: WalIndexLock,
    locks_after: Map<u8, WalIndexLockState>,
    view_after: Map<u8, WalIndexLock>,
    granted: bool,
) -> bool {
    &&& granted == band_admits(locks_before, view_before, start, end, to)
    &&& !granted ==> locks_after == locks_before && view_after == view_before
    &&& granted ==> forall|r: u8|
        start <= r < end ==> Some(#[trigger] region_state(locks_after, r))
            == spec_transition_wal_index_lock(
            region_state(locks_before, r),
            held_lock(view_before, r),
            to,
        ) && held_lock(view_after, r) == to
    &&& forall|r: u8|
        !(start <= r < end) ==> #[trigger] region_state(locks_after, r) == region_state(
            locks_before,
            r,
        ) && held_lock(view_after, r) == held_lock(view_before, r)
}

/// The state of region `r`.
pub fn get_region_state(locks: &HashMap<u8, WalIndexLockState>, r: u8) -> (s: WalIndexLockState)
    ensures
        s == region_state(locks@, r),
{
    match locks.get(&r) {
        Some(s) => *s,
        None => WalIndexLockState::Shared { count: 0 },
    }
}

/// The lock that the connection with the view `view` holds on region `r`.
pub fn get_held_lock(view: &HashMap<u8, WalIndexLock>, r: u8) -> (l: WalIndexLock)
    ensures
        l == held_lock(view@, r),
{
    match view.get(&r) {
        Some(l) => *l,
        None => WalIndexLock::Unlocked,
    }
}

/// Whether the connection holds an exclusive lock on some region of the band
/// `start..end`.
pub open spec fn holds_exclusive_in(view: Map<u8, WalIndexLock>, start: int, end: int) -> bool {
    exists|r: u8| start <= r < end && #[trigger] held_lock(view, r) == WalIndexLock::Exclusive
}

/// Whether the connection holds an exclusive lock on some region of the band
/// `start..end`.
pub fn has_exclusive_in(view: &HashMap<u8, WalIndexLock>, start: u8, end: u8) -> (b: bool)
    ensures
        b == holds_exclusive_in(view@, start as int, end as int),
{
    let mut r: u8 = start;
    while r < end
        invariant
            start <= r,
            forall|q: u8|
                start <= q < r ==> #[trigger] held_lock(view@, q) != WalIndexLock::Exclusive,
        decreases end - r,
    {
        if get_held_lock(view, r) == WalIndexLock::Exclusive {
            return true;
        }
        r = r + 1;
    }
    false
}

/// Whether the connection holds an exclusive lock on any region at all.
pub fn has_exclusive(view: &HashMap<u8, WalIndexLock>) -> (b: bool)
    ensures
        b == holds_exclusive_in(view@, 0, 256),
{
    if has_exclusive_in(view, 0, 255) {
        true
    } else {
        let last = get_held_lock(view, 255) == WalIndexLock::Exclusive;
        proof {
            if !last {
                assert forall|r: u8| 0 <= r < 256 implies #[trigger] held_lock(view@, r)
                    != WalIndexLock::Exclusive by {
                    if r < 255 {
                        assert(!holds_exclusive_in(view@, 0, 255));
                    }
                }
            }
        }
        last
    }
}

/// Record that the connection holds `lock` on every region of the band
/// `start..end`. The view of the other regions stays as it is.
pub fn record_band(view: &mut HashMap<u8, WalIndexLock>, start: u8, end: u8, lock: WalIndexLock)
    ensures
        forall|r: u8| start <= r < end ==> #[trigger] held_lock(final(view)@, r) == lock,
        forall|r: u8|
            !(start <= r < end) ==> #[trigger] held_lock(final(view)@, r) == held_lock(
                old(view)@,
                r,
            ),
{
    let mut r: u8 = start;
    while r < end
        invariant
            start <= r,
            r <= end || r == start,
            forall|q: u8| start <= q < r ==> #[trigger] held_lock(view@, q) == lock,
            forall|q: u8|
                !(start <= q < r) ==> #[trigger] held_lock(view@, q) == held_lock(old(view)@, q),
        decreases end - r,
    {
        let ghost before = view@;
        view.insert(r, lock);
        assert forall|q: u8| #[trigger] held_lock(view@, q) == if q == r {
            lock
        } else {
            held_lock(before, q)
        } by {}
        r = r + 1;
    }
}

/// Whether every region of the band `start..end` admits the move of the
/// connection to `to`.
pub fn check_band(
    locks: &HashMap<u8, WalIndexLockState>,
    view: &HashMap<u8, WalIndexLock>,
    start: u8,
    end: u8,
    to: WalIndexLock,
) -> (ok: bool)
    ensures
        ok == band_admits(locks@, view@, start, end, to),
{
    let mut r: u8 = start;
    while r < end
        invariant
            start <= r,
            forall|q: u8|
                start <= q < r ==> (#[trigger] spec_transition_wal_index_lock(
                    region_state(locks@, q),
                    held_lock(view@, q),
                    to,
                )) is Some,
        decreases end - r,
    {
        let current = get_region_state(locks, r);
        let from = get_held_lock(view, r);
        if transition_wal_index_lock(&current, from, to).is_none() {
            return false;
        }
        r = r + 1;
    }
    true
}

/// Move the connection with the view `view` to `to` on every region of the
/// band `start..end`, or on none of them.
pub fn lock_band(
    locks: &mut HashMap<u8, WalIndexLockState>,
    view: &mut HashMap<u8, WalIndexLock>,
    start: u8,
    end: u8,
    to: WalIndexLock,
) -> (granted: bool)
    ensures
        band_moved(old(locks)@, old(view)@, start, end, to, final(locks)@, final(view)@, granted),
{
    if !check_band(locks, view, start, end, to) {
        return false;
    }
    let mut r: u8 = start;
    while r < end
        invariant
            start <= r,
            r <= end || r == start,
            band_admits(old(locks)@, old(view)@, start, end, to),
            forall|q: u8|
                start <= q < r ==> Some(#[trigger] region_state(locks@, q))
                    == spec_transition_wal_index_lock(
                    region_state(old(locks)@, q),
                    held_lock(old(view)@, q),
                    to,
                ) && held_lock(view@, q) == to,
            forall|q: u8|
                !(start <= q < r) ==> #[trigger] region_state(locks@, q) == region_state(
                    old(locks)@,
                    q,
                ) && held_lock(view@, q) == held_lock(old(view)@, q),
        decreases end - r,
    {
        let current = get_region_state(locks, r);
        let from = get_held_lock(view, r);
        assert(spec_transition_wal_index_lock(
            region_state(old(locks)@, r),
            held_lock(old(view)@, r),
            to,
        ) is Some);
        let ghost locks_before = locks@;
        let ghost view_before = view@;
        match transition_wal_index_lock(&current, from, to) {
            Some(next) => {
                locks.insert(r, next);
                view.insert(r, to);
            },
            None => {},
        }
        assert forall|q: u8|
            q != r implies #[trigger] region_state(locks@, q) == region_state(locks_before, q)
            && held_lock(view@, q) == held_lock(view_before, q) by {}
        r = r + 1;
    }
    true
}

/// One region together with the locks that the connections believe to hold
/// on it, one entry for each live connection.
pub struct RegionLocks {
    pub state: WalIndexLockState,
    pub views: Seq<WalIndexLock>,
}

/// The property of holding exactly the lock `lock` on a region.
pub open spec fn holds_on_region(lock: WalIndexLock) -> spec_fn(WalIndexLock) -> bool {
    |l: WalIndexLock| l == lock
}

impl RegionLocks {
    /// The state agrees with the connections: a shared region counts the
    /// connections that hold a shared lock on it, and none holds the
    /// exclusive lock; an exclusive region has one connection with the
    /// exclusive lock and none with a shared lock.
    pub open spec fn consistent(self) -> bool {
        match self.state {
            WalIndexLockState::Shared { count } => {
                &&& count_where(self.views, holds_on_region(WalIndexLock::Shared)) == count
                &&& count_where(self.views, holds_on_region(WalIndexLock::Exclusive)) == 0
            },
            WalIndexLockState::Exclusive => {
                &&& count_where(self.views, holds_on_region(WalIndexLock::Shared)) == 0
                &&& count_where(self.views, holds_on_region(WalIndexLock::Exclusive)) == 1
            },
        }
    }

    /// The system after connection `i` asked for `to`.
    pub open spec fn step(self, i: int, to: WalIndexLock) -> RegionLocks {
        match spec_transition_wal_index_lock(self.state, self.views[i], to) {
            Some(state) => RegionLocks { state, views: self.views.update(i, to) },
            None => self,
        }
    }
}

/// A region that nobody has locked is consistent, however many connections
/// there are.
pub proof fn lemma_region_initial_consistent(n: nat)
    ensures
        (RegionLocks {
            state: WalIndexLockState::Shared { count: 0 },
            views: Seq::new(n, |i: int| WalIndexLock::Unlocked),
        }).consistent(),
{
    let views = Seq::new(n, |i: int| WalIndexLock::Unlocked);
    lemma_count_zero(views, holds_on_region(WalIndexLock::Shared));
    lemma_count_zero(views, holds_on_region(WalIndexLock::Exclusive));
}

/// Every lock request of every connection keeps a region consistent, whether
/// it is granted or not.
pub proof fn lemma_region_step_consistent(sys: RegionLocks, i: int, to: WalIndexLock)
    requires
        sys.consistent(),
        0 <= i < sys.views.len(),
    ensures
        sys.step(i, to).consistent(),
{
    let from = sys.views[i];
    let shared = holds_on_region(WalIndexLock::Shared);
    let exclusive = holds_on_region(WalIndexLock::Exclusive);
    lemma_count_update(sys.views, shared, i, to);
    lemma_count_update(sys.views, exclusive, i, to);
    assert(indicator(shared, from) == if from == WalIndexLock::Shared {
        1nat
    } else {
        0nat
    });
    assert(indicator(exclusive, from) == if from == WalIndexLock::Exclusive {
        1nat
    } else {
        0nat
    });
    lemma_count_zero(sys.views, shared);
    lemma_count_zero(sys.views, exclusive);
}

/// In a consistent system, a region in the exclusive state has exactly one
/// connection whose view is exclusive, and no other connection holds any
/// lock on the region.
pub proof fn lemma_region_exclusive_holder(sys: RegionLocks) -> (holder: int)
    requires
        sys.consistent(),
        sys.state is Exclusive,
    ensures
        0 <= holder < sys.views.len(),
        sys.views[holder] == WalIndexLock::Exclusive,
        forall|j: int|
            0 <= j < sys.views.len() && j != holder ==> #[trigger] sys.views[j]
                == WalIndexLock::Unlocked,
{
    let shared = holds_on_region(WalIndexLock::Shared);
    let exclusive = holds_on_region(WalIndexLock::Exclusive);
    let holder = lemma_count_witness(sys.views, exclusive);
    lemma_count_zero(sys.views, shared);
    assert forall|j: int| 0 <= j < sys.views.len() && j != holder implies #[trigger] sys.views[j]
        == WalIndexLock::Unlocked by {
        if sys.views[j] == WalIndexLock::Exclusive {
            lemma_count_unique(sys.views, exclusive, holder, j);
        }
        assert(!shared(sys.views[j]));
    }
    holder
}

/// A request for a lock on a band keeps every region consistent, whether
/// the region lies in the band or not, and whether the request is granted
/// or not.
pub proof fn lemma_band_consistent(
    locks_before: Map<u8, WalIndexLockState>,
    view_before: Map<u8, WalIndexLock>,
    start: u8,
    end: u8,
    to: WalIndexLock,
    locks_after: Map<u8, WalIndexLockState>,
    view_after: Map<u8, WalIndexLock>,
    granted: bool,
    r: u8,
    views: Seq<WalIndexLock>,
    i: int,
)
    requires
        band_moved(locks_before, view_before, start, end, to, locks_after, view_after, granted),
        0 <= i < views.len(),
        views[i] == held_lock(view_before, r),
        (RegionLocks { state: region_state(locks_before, r), views }).consistent(),
    ensures
        (RegionLocks {
            state: region_state(locks_after, r),
            views: views.update(i, held_lock(view_after, r)),
        }).consistent(),
{
    let sys = RegionLocks { state: region_state(locks_before, r), views };
    if granted && start <= r < end {
        lemma_region_step_consistent(sys, i, to);
        assert(spec_transition_wal_index_lock(sys.state, views[i], to) is Some);
        assert(Some(region_state(locks_after, r)) == spec_transition_wal_index_lock(
            sys.state,
            views[i],
            to,
        ));
    } else {
        if !granted {
            assert(region_state(locks_after, r) == region_state(locks_before, r));
        }
        assert(views.update(i, held_lock(view_after, r)) =~= views);
    }
}

} // verus!
