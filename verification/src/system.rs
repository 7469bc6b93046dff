//! The coordinator together with all its connections.
//!
//! The coordinator keeps a counter and a writer for every path, and every
//! connection keeps the lock it believes to hold. This module states what
//! it means that the two agree, and proves that every operation of the
//! coordinator keeps them in agreement.

use vstd::prelude::*;

use crate::counting::{
    count_where, lemma_count_push, lemma_count_remove, lemma_count_update, lemma_count_zero,
};
use crate::lock::Lock;
use crate::path_lock::{
    holds, lemma_connect_consistent, lemma_disconnect_consistent, lemma_holders_accounted,
    lemma_single_writer, locked, writes, FileLockState, PathLocks,
};
use crate::request::RequestView;
use crate::response::Response;
use crate::server::{
    lemma_handled_consistent, lemma_retried_consistent, Action, FileConnection, Server,
};
use crate::wal_lock::{
    held_lock, holds_on_region, lemma_band_consistent, lemma_region_exclusive_holder,
    region_state, RegionLocks, WalIndexLock, WalIndexLockState,
};

verus! {

/// The lock that the connection holds on the database at `path`: its lock
/// if that is the database it has open, else none.
pub open spec fn view_on(conn: FileConnection, path: Seq<u8>) -> Lock {
    if conn.path@ == path {
        conn.lock
    } else {
        Lock::Unlocked
    }
}

/// The locks that the connections hold on the database at `path`.
pub open spec fn views_on(conns: Seq<FileConnection>, path: Seq<u8>) -> Seq<Lock> {
    Seq::new(conns.len(), |i: int| view_on(conns[i], path))
}

/// The property of having the database at `path` open.
pub open spec fn is_on(path: Seq<u8>) -> spec_fn(FileConnection) -> bool {
    |conn: FileConnection| conn.path@ == path
}

/// The state of the lock of the database at `path`. Nobody holds a lock on
/// a path that no connection has open.
pub open spec fn lock_state(server: Server, path: Seq<u8>) -> FileLockState {
    if server.has(path) {
        server.entry(path).lock
    } else {
        FileLockState::Read { count: 0 }
    }
}

/// The coordinator and the connections agree about `path`: the state of
/// its lock agrees with the locks that the connections hold on it, and the
/// coordinator keeps the path for exactly as long as it has connections,
/// whose number it knows.
pub open spec fn agree_on(server: Server, conns: Seq<FileConnection>, path: Seq<u8>) -> bool {
    &&& (PathLocks { state: lock_state(server, path), views: views_on(conns, path) }).consistent()
    &&& server.has(path) <==> count_where(conns, is_on(path)) > 0
    &&& server.has(path) ==> server.entry(path).refs == count_where(conns, is_on(path))
}

/// The coordinator and the connections agree about every path.
pub open spec fn agree(server: Server, conns: Seq<FileConnection>) -> bool {
    &&& server.wf()
    &&& forall|path: Seq<u8>| #[trigger] agree_on(server, conns, path)
}

/// A state without holders agrees with connections that hold no lock.
proof fn lemma_unlocked_consistent(views: Seq<Lock>)
    requires
        forall|i: int| 0 <= i < views.len() ==> views[i] == Lock::Unlocked,
    ensures
        (PathLocks { state: FileLockState::Read { count: 0 }, views }).consistent(),
{
    lemma_count_zero(views, holds(Lock::Shared));
    lemma_count_zero(views, writes());
}

/// A coordinator without paths agrees with no connections at all.
pub proof fn lemma_new_agrees(server: Server)
    requires
        server.wf(),
        server.paths@.len() == 0,
    ensures
        agree(server, Seq::empty()),
{
    let conns = Seq::<FileConnection>::empty();
    assert forall|path: Seq<u8>| #[trigger] agree_on(server, conns, path) by {
        lemma_unlocked_consistent(views_on(conns, path));
    }
}

/// Opening a connection keeps coordinator and connections in agreement,
/// as long as the number of connections of the path is below its limit,
/// and the state of a path whose file is gone is not reset while other
/// connections still hold a lock on it.
pub proof fn lemma_open_agrees(
    before: Server,
    path: Seq<u8>,
    exists: bool,
    after: Server,
    conn: FileConnection,
    conns: Seq<FileConnection>,
)
    requires
        agree(before, conns),
        Server::opened(before, path, exists, after, conn),
        count_where(conns, is_on(path)) < usize::MAX,
        exists || forall|i: int|
            0 <= i < conns.len() && conns[i].path@ == path ==> conns[i].lock == Lock::Unlocked,
    ensures
        agree(after, conns.push(conn)),
{
    let next = conns.push(conn);
    assert forall|q: Seq<u8>| #[trigger] agree_on(after, next, q) by {
        assert(agree_on(before, conns, q));
        let views = views_on(conns, q);
        assert(views_on(next, q) =~= views.push(Lock::Unlocked));
        lemma_count_push(conns, is_on(q), conn);
        if q == path {
            if before.has(path) && exists {
                lemma_connect_consistent(PathLocks { state: lock_state(before, q), views });
            } else {
                if !before.has(path) {
                    lemma_count_zero(conns, is_on(path));
                }
                lemma_unlocked_consistent(views.push(Lock::Unlocked));
            }
        } else {
            lemma_connect_consistent(PathLocks { state: lock_state(before, q), views });
        }
    }
}

/// Every request keeps coordinator and connections in agreement.
pub proof fn lemma_request_agrees(
    before: Server,
    asking: FileConnection,
    request: RequestView,
    after: Server,
    answered: FileConnection,
    action: Action,
    conns: Seq<FileConnection>,
    i: int,
)
    requires
        agree(before, conns),
        0 <= i < conns.len(),
        conns[i] == asking,
        Server::requested(before, asking, request, after, answered, action),
    ensures
        agree(after, conns.update(i, answered)),
{
    let path = asking.path@;
    let next = conns.update(i, answered);
    assert(agree_on(before, conns, path));
    assert(before.has(path)) by {
        lemma_count_zero(conns, is_on(path));
        assert(is_on(path)(conns[i]));
    }
    assert forall|q: Seq<u8>| #[trigger] agree_on(after, next, q) by {
        assert(agree_on(before, conns, q));
        let views = views_on(conns, q);
        lemma_count_update(conns, is_on(q), i, answered);
        if q == path {
            lemma_handled_consistent(
                before.entry(path),
                asking,
                request,
                after.entry(path),
                answered,
                action,
                views,
                i,
            );
            assert(views_on(next, q) =~= views.update(i, answered.lock));
        } else {
            assert(views_on(next, q) =~= views);
        }
    }
}

/// A second try of a lock request keeps coordinator and connections in
/// agreement.
pub proof fn lemma_retry_agrees(
    before: Server,
    asking: FileConnection,
    to: Lock,
    after: Server,
    answered: FileConnection,
    response: Response,
    conns: Seq<FileConnection>,
    i: int,
)
    requires
        agree(before, conns),
        0 <= i < conns.len(),
        conns[i] == asking,
        Server::retried(before, asking, to, after, answered, response),
    ensures
        agree(after, conns.update(i, answered)),
{
    let path = asking.path@;
    let next = conns.update(i, answered);
    assert(agree_on(before, conns, path));
    assert(before.has(path)) by {
        lemma_count_zero(conns, is_on(path));
        assert(is_on(path)(conns[i]));
    }
    assert forall|q: Seq<u8>| #[trigger] agree_on(after, next, q) by {
        assert(agree_on(before, conns, q));
        let views = views_on(conns, q);
        lemma_count_update(conns, is_on(q), i, answered);
        if q == path {
            lemma_retried_consistent(
                before.entry(path),
                asking,
                to,
                after.entry(path),
                answered,
                response,
                views,
                i,
            );
            assert(views_on(next, q) =~= views.update(i, answered.lock));
        } else {
            assert(views_on(next, q) =~= views);
        }
    }
}

/// The end of a connection keeps the coordinator and the remaining
/// connections in agreement: whatever the connection contributed to the
/// state of its path is released with it, and a path without connections is
/// no longer kept.
pub proof fn lemma_close_agrees(
    before: Server,
    conn: FileConnection,
    after: Server,
    conns: Seq<FileConnection>,
    i: int,
)
    requires
        agree(before, conns),
        0 <= i < conns.len(),
        conns[i] == conn,
        Server::closed(before, conn, after),
    ensures
        agree(after, conns.remove(i)),
{
    let path = conn.path@;
    let next = conns.remove(i);
    assert(agree_on(before, conns, path));
    assert(before.has(path)) by {
        lemma_count_zero(conns, is_on(path));
        assert(is_on(path)(conns[i]));
    }
    assert forall|q: Seq<u8>| #[trigger] agree_on(after, next, q) by {
        assert(agree_on(before, conns, q));
        let views = views_on(conns, q);
        let sys = PathLocks { state: lock_state(before, q), views };
        assert(views_on(next, q) =~= views.remove(i));
        lemma_count_remove(conns, is_on(q), i);
        lemma_disconnect_consistent(sys, i);
        if q == path {
            if before.entry(path).refs <= 1 {
                lemma_count_zero(next, is_on(path));
                assert forall|k: int| 0 <= k < next.len() implies views_on(next, q)[k]
                    == Lock::Unlocked by {
                    assert(!is_on(path)(next[k]));
                }
                lemma_unlocked_consistent(views_on(next, q));
            }
        } else {
            assert(views[i] == Lock::Unlocked);
        }
    }
}

/// Where coordinator and connections agree, at most one connection of a
/// path holds a lock above shared.
pub proof fn lemma_agreed_single_writer(
    server: Server,
    conns: Seq<FileConnection>,
    i: int,
    j: int,
)
    requires
        agree(server, conns),
        0 <= i < conns.len(),
        0 <= j < conns.len(),
        conns[i].path@ == conns[j].path@,
        conns[i].lock.is_writer(),
        conns[j].lock.is_writer(),
    ensures
        i == j,
{
    let path = conns[i].path@;
    assert(agree_on(server, conns, path));
    lemma_single_writer(
        PathLocks { state: lock_state(server, path), views: views_on(conns, path) },
        i,
        j,
    );
}

/// Where coordinator and connections agree, the counter of a path plus its
/// writer, if there is one, is the number of the connections that hold a
/// lock on the path.
pub proof fn lemma_agreed_holders(server: Server, conns: Seq<FileConnection>, path: Seq<u8>)
    requires
        agree(server, conns),
    ensures
        count_where(views_on(conns, path), locked()) == lock_state(server, path).shared_count()
            + if lock_state(server, path) is Read {
            0nat
        } else {
            1nat
        },
{
    assert(agree_on(server, conns, path));
    lemma_holders_accounted(
        PathLocks { state: lock_state(server, path), views: views_on(conns, path) },
    );
}

/// The lock that the connection holds on the region `r` of the WAL index of
/// the database at `path`: none unless that is the database it has open.
pub open spec fn region_view_on(conn: FileConnection, path: Seq<u8>, r: u8) -> WalIndexLock {
    if conn.path@ == path {
        held_lock(conn.wal_index_lock@, r)
    } else {
        WalIndexLock::Unlocked
    }
}

/// The locks that the connections hold on the region `r` of the WAL index
/// of the database at `path`.
pub open spec fn region_views_on(conns: Seq<FileConnection>, path: Seq<u8>, r: u8) -> Seq<
    WalIndexLock,
> {
    Seq::new(conns.len(), |i: int| region_view_on(conns[i], path, r))
}

/// The state of the region `r` of the WAL index of the database at `path`.
/// Nobody holds a lock on a region of a path that no connection has open.
pub open spec fn region_state_of(server: Server, path: Seq<u8>, r: u8) -> WalIndexLockState {
    if server.has(path) {
        region_state(server.entry(path).wal_index.locks@, r)
    } else {
        WalIndexLockState::Shared { count: 0 }
    }
}

/// The coordinator and the connections agree about the region `r` of the
/// WAL index of the database at `path`.
pub open spec fn regions_agree_on(
    server: Server,
    conns: Seq<FileConnection>,
    path: Seq<u8>,
    r: u8,
) -> bool {
    (RegionLocks {
        state: region_state_of(server, path, r),
        views: region_views_on(conns, path, r),
    }).consistent()
}

/// The coordinator and the connections agree about every region of every
/// WAL index.
pub open spec fn regions_agree(server: Server, conns: Seq<FileConnection>) -> bool {
    &&& server.wf()
    &&& forall|path: Seq<u8>, r: u8| #[trigger] regions_agree_on(server, conns, path, r)
}

/// Whether the connection holds no lock on any region.
pub open spec fn holds_no_region(conn: FileConnection) -> bool {
    forall|r: u8| #[trigger] held_lock(conn.wal_index_lock@, r) == WalIndexLock::Unlocked
}

/// A region without holders agrees with connections that hold no lock on
/// it.
proof fn lemma_unlocked_region_consistent(views: Seq<WalIndexLock>)
    requires
        forall|i: int| 0 <= i < views.len() ==> views[i] == WalIndexLock::Unlocked,
    ensures
        (RegionLocks { state: WalIndexLockState::Shared { count: 0 }, views }).consistent(),
{
    lemma_count_zero(views, holds_on_region(WalIndexLock::Shared));
    lemma_count_zero(views, holds_on_region(WalIndexLock::Exclusive));
}

/// A connection that holds no lock on a region can come and go without a
/// change to the consistency of the region.
proof fn lemma_unlocked_region_view(sys: RegionLocks, i: int)
    requires
        sys.consistent(),
    ensures
        (RegionLocks {
            state: sys.state,
            views: sys.views.push(WalIndexLock::Unlocked),
        }).consistent(),
        0 <= i < sys.views.len() && sys.views[i] == WalIndexLock::Unlocked ==> (RegionLocks {
            state: sys.state,
            views: sys.views.remove(i),
        }).consistent(),
{
    lemma_count_push(sys.views, holds_on_region(WalIndexLock::Shared), WalIndexLock::Unlocked);
    lemma_count_push(sys.views, holds_on_region(WalIndexLock::Exclusive), WalIndexLock::Unlocked);
    if 0 <= i < sys.views.len() {
        lemma_count_remove(sys.views, holds_on_region(WalIndexLock::Shared), i);
        lemma_count_remove(sys.views, holds_on_region(WalIndexLock::Exclusive), i);
    }
}

/// A coordinator without paths agrees with no connections at all about
/// every region.
pub proof fn lemma_new_regions_agree(server: Server)
    requires
        server.wf(),
        server.paths@.len() == 0,
    ensures
        regions_agree(server, Seq::empty()),
{
    let conns = Seq::<FileConnection>::empty();
    assert forall|path: Seq<u8>, r: u8| #[trigger] regions_agree_on(server, conns, path, r) by {
        lemma_unlocked_region_consistent(region_views_on(conns, path, r));
    }
}

/// Opening a connection keeps coordinator and connections in agreement
/// about every region, as long as the WAL index of a path whose file is
/// gone is not reset while other connections still hold a lock on one of
/// its regions.
pub proof fn lemma_open_regions_agree(
    before: Server,
    path: Seq<u8>,
    exists: bool,
    after: Server,
    conn: FileConnection,
    conns: Seq<FileConnection>,
)
    requires
        agree(before, conns),
        regions_agree(before, conns),
        Server::opened(before, path, exists, after, conn),
        exists || forall|i: int|
            0 <= i < conns.len() && conns[i].path@ == path ==> holds_no_region(conns[i]),
    ensures
        regions_agree(after, conns.push(conn)),
{
    let next = conns.push(conn);
    assert forall|q: Seq<u8>, r: u8| #[trigger] regions_agree_on(after, next, q, r) by {
        assert(regions_agree_on(before, conns, q, r));
        assert(agree_on(before, conns, q));
        let views = region_views_on(conns, q, r);
        assert(held_lock(conn.wal_index_lock@, r) == WalIndexLock::Unlocked);
        assert(region_views_on(next, q, r) =~= views.push(WalIndexLock::Unlocked));
        if q == path && !(before.has(path) && exists) {
            if !before.has(path) {
                lemma_count_zero(conns, is_on(path));
            }
            assert forall|k: int| 0 <= k < views.len() implies views[k]
                == WalIndexLock::Unlocked by {
                if conns[k].path@ == path {
                    assert(is_on(path)(conns[k]));
                    assert(holds_no_region(conns[k]));
                }
            }
            lemma_unlocked_region_consistent(views.push(WalIndexLock::Unlocked));
            assert(after.entry(path).wal_index.locks@ =~= Map::<u8, WalIndexLockState>::empty());
        } else {
            lemma_unlocked_region_view(
                RegionLocks { state: region_state_of(before, q, r), views },
                0,
            );
        }
    }
}

/// Every request but the one that deletes the WAL index keeps coordinator
/// and connections in agreement about every region. Deleting the WAL index
/// does so if no connection of the path holds a lock on a region.
pub proof fn lemma_request_regions_agree(
    before: Server,
    asking: FileConnection,
    request: RequestView,
    after: Server,
    answered: FileConnection,
    action: Action,
    conns: Seq<FileConnection>,
    i: int,
)
    requires
        regions_agree(before, conns),
        0 <= i < conns.len(),
        conns[i] == asking,
        Server::requested(before, asking, request, after, answered, action),
        request is DeleteWalIndex ==> forall|k: int|
            0 <= k < conns.len() && conns[k].path@ == asking.path@ ==> holds_no_region(conns[k]),
    ensures
        regions_agree(after, conns.update(i, answered)),
{
    let path = asking.path@;
    let next = conns.update(i, answered);
    assert forall|q: Seq<u8>, r: u8| #[trigger] regions_agree_on(after, next, q, r) by {
        assert(regions_agree_on(before, conns, q, r));
        let views = region_views_on(conns, q, r);
        if q == path && before.has(path) {
            match request {
                RequestView::LockWalIndex { start, end, lock: to } => {
                    lemma_band_consistent(
                        before.entry(path).wal_index.locks@,
                        asking.wal_index_lock@,
                        start,
                        end,
                        to,
                        after.entry(path).wal_index.locks@,
                        answered.wal_index_lock@,
                        crate::wal_lock::band_admits(
                            before.entry(path).wal_index.locks@,
                            asking.wal_index_lock@,
                            start,
                            end,
                            to,
                        ),
                        r,
                        views,
                        i,
                    );
                    assert(region_views_on(next, q, r) =~= views.update(
                        i,
                        held_lock(answered.wal_index_lock@, r),
                    ));
                },
                RequestView::DeleteWalIndex => {
                    assert(region_views_on(next, q, r) =~= views);
                    assert forall|k: int| 0 <= k < views.len() implies views[k]
                        == WalIndexLock::Unlocked by {
                        if conns[k].path@ == path {
                            assert(holds_no_region(conns[k]));
                        }
                    }
                    lemma_unlocked_region_consistent(views);
                    assert(after.entry(path).wal_index.locks@ =~= Map::<
                        u8,
                        WalIndexLockState,
                    >::empty());
                },
                _ => {
                    assert(region_views_on(next, q, r) =~= views);
                },
            }
        } else {
            assert(region_views_on(next, q, r) =~= views);
        }
    }
}

/// A second try of a lock request does not touch the regions.
pub proof fn lemma_retry_regions_agree(
    before: Server,
    asking: FileConnection,
    to: Lock,
    after: Server,
    answered: FileConnection,
    response: Response,
    conns: Seq<FileConnection>,
    i: int,
)
    requires
        regions_agree(before, conns),
        0 <= i < conns.len(),
        conns[i] == asking,
        Server::retried(before, asking, to, after, answered, response),
    ensures
        regions_agree(after, conns.update(i, answered)),
{
    let next = conns.update(i, answered);
    assert forall|q: Seq<u8>, r: u8| #[trigger] regions_agree_on(after, next, q, r) by {
        assert(regions_agree_on(before, conns, q, r));
        assert(region_views_on(next, q, r) =~= region_views_on(conns, q, r));
    }
}

/// The end of a connection that holds no lock on a region keeps the
/// coordinator and the remaining connections in agreement about every
/// region. The locks of a connection on regions are not released when it
/// ends.
pub proof fn lemma_close_regions_agree(
    before: Server,
    conn: FileConnection,
    after: Server,
    conns: Seq<FileConnection>,
    i: int,
)
    requires
        agree(before, conns),
        regions_agree(before, conns),
        0 <= i < conns.len(),
        conns[i] == conn,
        holds_no_region(conn),
        Server::closed(before, conn, after),
    ensures
        regions_agree(after, conns.remove(i)),
{
    let path = conn.path@;
    let next = conns.remove(i);
    assert(agree_on(before, conns, path));
    assert(before.has(path)) by {
        lemma_count_zero(conns, is_on(path));
        assert(is_on(path)(conns[i]));
    }
    lemma_count_remove(conns, is_on(path), i);
    assert forall|q: Seq<u8>, r: u8| #[trigger] regions_agree_on(after, next, q, r) by {
        assert(regions_agree_on(before, conns, q, r));
        let views = region_views_on(conns, q, r);
        assert(region_views_on(next, q, r) =~= views.remove(i));
        assert(views[i] == WalIndexLock::Unlocked);
        lemma_unlocked_region_view(RegionLocks { state: region_state_of(before, q, r), views }, i);
        if q == path && before.entry(path).refs <= 1 {
            lemma_count_zero(next, is_on(path));
            assert forall|k: int| 0 <= k < next.len() implies region_views_on(next, q, r)[k]
                == WalIndexLock::Unlocked by {
                assert(!is_on(path)(next[k]));
            }
            lemma_unlocked_region_consistent(region_views_on(next, q, r));
        }
    }
}

/// Where coordinator and connections agree about the regions, a region in
/// the exclusive state has exactly one connection whose view is exclusive,
/// and no other connection holds any lock on the region.
pub proof fn lemma_agreed_exclusive_holder(
    server: Server,
    conns: Seq<FileConnection>,
    path: Seq<u8>,
    r: u8,
) -> (holder: int)
    requires
        regions_agree(server, conns),
        region_state_of(server, path, r) is Exclusive,
    ensures
        0 <= holder < conns.len(),
        conns[holder].path@ == path,
        held_lock(conns[holder].wal_index_lock@, r) == WalIndexLock::Exclusive,
        forall|j: int|
            0 <= j < conns.len() && j != holder && conns[j].path@ == path ==> held_lock(
                (#[trigger] conns[j]).wal_index_lock@,
                r,
            ) == WalIndexLock::Unlocked,
{
    assert(regions_agree_on(server, conns, path, r));
    let views = region_views_on(conns, path, r);
    let holder = lemma_region_exclusive_holder(
        RegionLocks { state: region_state_of(server, path, r), views },
    );
    assert(views[holder] == region_view_on(conns[holder], path, r));
    assert forall|j: int|
        0 <= j < conns.len() && j != holder && conns[j].path@ == path implies held_lock(
        (#[trigger] conns[j]).wal_index_lock@,
        r,
    ) == WalIndexLock::Unlocked by {
        assert(views[j] == region_view_on(conns[j], path, r));
    }
    holder
}

} // verus!
