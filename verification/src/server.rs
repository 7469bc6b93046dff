//! The coordinator: the authority on the locks and the WAL index of every
//! database path that some connection has open.
//!
//! The coordinator owns no socket and no file. Whoever runs it hands it the
//! requests it received, carries out the [`Action`] that comes back, and
//! sends the response. All connections are served one request at a time, so
//! a request is decided and applied in one step.

use std::collections::HashMap;
use vstd::prelude::*;

use crate::lock::Lock;
use crate::open_options::OpenAccess;
use crate::path::{normalize_path, spec_normalize_path};
use crate::path_lock::{
    lemma_disconnect_consistent, lemma_step_consistent, FileLockState, PathLocks, Transition,
};
use crate::request::{Request, RequestView, WAL_INDEX_REGION_SIZE};
use crate::response::{Response, ResponseView};
use crate::wal_index::{spec_region_end, zeros, WalIndexStore};
use crate::wal_lock::{band_admits, band_moved, WalIndexLock};

verus! {

broadcast use vstd::std_specs::hash::group_hash_axioms;

/// What the coordinator keeps for one path: the state of its lock and its
/// WAL index, shared by all connections that have the path open.
pub struct PathState {
    /// The normal form of the path.
    pub path: Vec<u8>,
    /// The state of the lock of the database file.
    pub lock: FileLockState,
    /// The WAL index of the database.
    pub wal_index: WalIndexStore,
    /// The number of connections that have the path open.
    pub refs: usize,
}

/// The coordinator.
pub struct Server {
    /// The number of the next connection.
    pub next_id: usize,
    /// The paths that some connection has open.
    pub paths: Vec<PathState>,
}

/// One connection of a client that has opened a database.
pub struct FileConnection {
    /// The number of the connection.
    pub id: usize,
    /// The normal form of the path of the database.
    pub path: Vec<u8>,
    /// The lock that the connection holds on the database file.
    pub lock: Lock,
    /// The locks that the connection holds on the regions of the WAL index.
    pub wal_index_lock: HashMap<u8, WalIndexLock>,
}

/// What is to be done about a request. Where the coordinator can answer by
/// itself, that is to send the reply. Else it is work on the database file
/// or on the marker file next to it, whose outcome [`Action::complete`]
/// turns into the reply.
#[derive(Debug, PartialEq, Eq)]
pub enum Action {
    /// Send the response.
    Reply(Response),
    /// Wait for about a millisecond, then ask [`Server::retry_lock`] for the
    /// response.
    Retry { lock: Lock },
    /// Read up to `len` bytes at the offset `start` of the database file.
    Read { start: u64, len: u64 },
    /// Write `data` at the offset `dst` of the database file, and flush.
    Write { dst: u64, data: Vec<u8> },
    /// Find the length of the database file.
    Size,
    /// Truncate or extend the database file to `len` bytes.
    SetLen { len: u64 },
    /// Find out with [`moved`] whether the path still leads to the file
    /// that was opened.
    Moved,
    /// Make sure that the marker file of the WAL index exists.
    TouchMarker { reply: Response },
    /// Bring the marker file of the WAL index to the length `len`.
    ResizeMarker { len: u64, reply: Response },
    /// Remove the marker file of the WAL index, if there is one.
    RemoveMarker { reply: Response },
}

/// How the work of an [`Action`] ended.
#[derive(Debug, PartialEq, Eq)]
pub enum Outcome {
    /// The work failed.
    Failed,
    /// The work is done, and there is nothing to report.
    Done,
    /// The bytes that were read.
    Bytes(Vec<u8>),
    /// The length of the file.
    Length(u64),
    /// Whether the file has moved.
    Moved(bool),
}

/// What the first request of a connection asks for.
#[derive(Debug, PartialEq, Eq)]
pub enum Greeting {
    /// Open the database at `path` with `access`.
    Open { path: Vec<u8>, access: OpenAccess },
    /// Delete the database at `path`.
    Delete { path: Vec<u8> },
    /// Report whether there is a database at `path`.
    Exists { path: Vec<u8> },
    /// The request cannot start a connection.
    Rejected,
}

/// How the file of a database is opened.
#[derive(Debug, Clone, Copy, PartialEq, Eq, Structural)]
pub struct FileMode {
    pub read: bool,
    pub write: bool,
    pub create: bool,
    pub create_new: bool,
}

/// Whether two paths are the same.
pub fn same_path(a: &[u8], b: &[u8]) -> (same: bool)
    ensures
        same == (a@ == b@),
{
    if a.len() != b.len() {
        return false;
    }
    let mut i: usize = 0;
    while i < a.len()
        invariant
            a@.len() == b@.len(),
            i <= a@.len(),
            forall|k: int| 0 <= k < i ==> a@[k] == b@[k],
        decreases a.len() - i,
    {
        if a[i] != b[i] {
            return false;
        }
        i += 1;
    }
    assert(a@ =~= b@);
    true
}

/// What is appended to the path of a database for the path of the marker
/// file of its WAL index: `-shm`.
pub open spec fn marker_suffix() -> Seq<u8> {
    seq![0x2du8, 0x73u8, 0x68u8, 0x6du8]
}

/// The path of the marker file of the WAL index of the database at `path`:
/// the file next to it whose name ends with `-shm`.
pub fn marker_path(path: &[u8]) -> (marker: Vec<u8>)
    ensures
        marker@ == path@ + marker_suffix(),
{
    let mut marker = vstd::slice::slice_to_vec(path);
    marker.push(0x2d);
    marker.push(0x73);
    marker.push(0x68);
    marker.push(0x6d);
    assert(marker@ =~= path@ + marker_suffix());
    marker
}

/// Whether a file has moved: whether the file at its path, with the
/// identity `current` if there is one, is another one than the file with
/// the identity `recorded`, which was opened, or is gone.
pub fn moved(recorded: u64, current: Option<u64>) -> (r: bool)
    ensures
        r == (current != Some(recorded)),
{
    match current {
        Some(identity) => identity != recorded,
        None => true,
    }
}

impl OpenAccess {
    /// How the file of a database is opened for this access: always for
    /// reading, for writing unless the access is read-only, and created
    /// where the access says so.
    pub fn file_mode(self) -> (mode: FileMode)
        ensures
            mode.read,
            mode.write == (self != OpenAccess::Read),
            mode.create == (self == OpenAccess::Create),
            mode.create_new == (self == OpenAccess::CreateNew),
    {
        FileMode {
            read: true,
            write: !matches!(self, OpenAccess::Read),
            create: matches!(self, OpenAccess::Create),
            create_new: matches!(self, OpenAccess::CreateNew),
        }
    }
}

impl Action {
    /// The response to send once the work of the action has ended with
    /// `outcome`.
    ///
    /// Work that failed, or ended with an outcome of another action, is
    /// answered with [`Response::Denied`]; only that the marker file could
    /// not be removed is passed over. Of the bytes that were read, no more
    /// than were asked for are sent.
    pub open spec fn spec_complete(self, outcome: Outcome) -> ResponseView {
        match (self, outcome) {
            (Action::Reply(reply), _) => reply@,
            (Action::Read { len, .. }, Outcome::Bytes(data)) => ResponseView::Get(
                if data@.len() > len {
                    data@.take(len as int)
                } else {
                    data@
                },
            ),
            (Action::Write { .. }, Outcome::Done) => ResponseView::Put,
            (Action::Size, Outcome::Length(len)) => ResponseView::Size(len),
            (Action::SetLen { .. }, Outcome::Done) => ResponseView::SetLen,
            (Action::Moved, Outcome::Moved(moved)) => ResponseView::Moved(moved),
            (Action::TouchMarker { reply }, Outcome::Done) => reply@,
            (Action::ResizeMarker { reply, .. }, Outcome::Done) => reply@,
            (Action::RemoveMarker { reply }, _) => reply@,
            _ => ResponseView::Denied,
        }
    }

    /// The response to send once the work of the action has ended with
    /// `outcome`.
    pub fn complete(self, outcome: Outcome) -> (response: Response)
        ensures
            response@ == self.spec_complete(outcome),
    {
        match (self, outcome) {
            (Action::Reply(reply), _) => reply,
            (Action::Read { len, .. }, Outcome::Bytes(data)) => {
                let mut data = data;
                let ghost all = data@;
                if data.len() as u64 > len {
                    data.truncate(len as usize);
                    assert(data@ =~= all.take(len as int));
                }
                Response::Get(data)
            },
            (Action::Write { .. }, Outcome::Done) => Response::Put,
            (Action::Size, Outcome::Length(len)) => Response::Size(len),
            (Action::SetLen { .. }, Outcome::Done) => Response::SetLen,
            (Action::Moved, Outcome::Moved(moved)) => Response::Moved(moved),
            (Action::TouchMarker { reply }, Outcome::Done) => reply,
            (Action::ResizeMarker { reply, .. }, Outcome::Done) => reply,
            (Action::RemoveMarker { reply }, _) => reply,
            _ => Response::Denied,
        }
    }
}

impl PathState {
    /// The state of a path that has just been opened for the first time.
    pub fn new(path: Vec<u8>) -> (r: PathState)
        ensures
            r.path == path,
            r.lock == (FileLockState::Read { count: 0 }),
            r.wal_index.wf(),
            r.wal_index.is_fresh(),
            r.refs == 1,
    {
        PathState { path, lock: FileLockState::new(), wal_index: WalIndexStore::new(), refs: 1 }
    }

    /// Forget the locks and the WAL index of the path: its file is gone.
    pub fn reset(&mut self)
        ensures
            final(self).path == old(self).path,
            final(self).refs == old(self).refs,
            final(self).lock == (FileLockState::Read { count: 0 }),
            final(self).wal_index.wf(),
            final(self).wal_index.is_fresh(),
    {
        self.lock = FileLockState::new();
        self.wal_index.clear();
    }

    /// Whether `after`, `answered` and `action` are what the request of the
    /// connection `asking` leads to on the path in the state `before`.
    ///
    /// - A request that only starts a connection is denied.
    /// - A lock request is decided by the transition table of the path: if
    ///   granted, the path takes the new state and the connection the new
    ///   lock, which is sent; if refused, it is to be tried once more; if
    ///   invalid, it is denied.
    /// - A request for bytes of the file, for its length or identity, or to
    ///   change it, becomes work on the file. A range that ends before it
    ///   starts is denied.
    /// - The block of a region is read from the WAL index, and a missing one
    ///   is created; a block that is put is stored if it has the size of a
    ///   region, and the marker file is brought to the length that holds the
    ///   greatest region.
    /// - A lock on a band of regions is granted on all its regions or on
    ///   none.
    /// - Deleting the WAL index forgets all its blocks and locks.
    pub open spec fn handled(
        before: PathState,
        asking: FileConnection,
        request: RequestView,
        after: PathState,
        answered: FileConnection,
        action: Action,
    ) -> bool {
        &&& before.wal_index.wf() ==> after.wal_index.wf()
        &&& after.path == before.path
        &&& after.refs == before.refs
        &&& answered.id == asking.id
        &&& answered.path == asking.path
        &&& !(request is Lock) ==> after.lock == before.lock && answered.lock == asking.lock
        &&& !(request is LockWalIndex) ==> answered.wal_index_lock@ == asking.wal_index_lock@
        &&& !(request is LockWalIndex || request is DeleteWalIndex) ==> after.wal_index.locks@
            == before.wal_index.locks@
        &&& !(request is GetWalIndex || request is PutWalIndex || request is DeleteWalIndex)
            ==> after.wal_index.blocks() == before.wal_index.blocks() && after.wal_index.top
            == before.wal_index.top
        &&& match request {
            RequestView::Open { .. } | RequestView::Delete { .. } | RequestView::Exists { .. } => {
                action == Action::Reply(Response::Denied)
            },
            RequestView::Lock { lock: to } => match before.lock.spec_transition(asking.lock, to) {
                Transition::Granted { state, lock } => {
                    &&& after.lock == state
                    &&& answered.lock == lock
                    &&& action == Action::Reply(Response::Lock(lock))
                },
                Transition::Refused => {
                    &&& after.lock == before.lock
                    &&& answered.lock == asking.lock
                    &&& action == Action::Retry { lock: to }
                },
                Transition::Invalid => {
                    &&& after.lock == before.lock
                    &&& answered.lock == asking.lock
                    &&& action == Action::Reply(Response::Denied)
                },
            },
            RequestView::Get { start, end } => if start <= end {
                action == (Action::Read { start, len: (end - start) as u64 })
            } else {
                action == Action::Reply(Response::Denied)
            },
            RequestView::Put { dst, data } => {
                &&& action matches Action::Write { dst: d, data: bytes }
                &&& d == dst
                &&& bytes@ == data
            },
            RequestView::Size => action == Action::Size,
            RequestView::SetLen { len } => action == Action::SetLen { len },
            RequestView::Reserved => action == Action::Reply(
                Response::Reserved(before.lock.spec_is_reserved()),
            ),
            RequestView::GetWalIndex { region } => {
                &&& action matches Action::TouchMarker { reply: Response::GetWalIndex(block) }
                &&& block@ == if before.wal_index.blocks().contains_key(region) {
                    before.wal_index.blocks()[region]
                } else {
                    zeros(WAL_INDEX_REGION_SIZE as nat)
                }
                &&& after.wal_index.blocks() == before.wal_index.blocks().insert(region, block@)
            },
            RequestView::PutWalIndex { region, data } => if data.len() == WAL_INDEX_REGION_SIZE {
                &&& after.wal_index.blocks() == before.wal_index.blocks().insert(region, data)
                &&& after.wal_index.top is Some
                &&& action == (Action::ResizeMarker {
                    len: spec_region_end(after.wal_index.top->Some_0),
                    reply: Response::PutWalIndex,
                })
            } else {
                &&& after.wal_index.blocks() == before.wal_index.blocks()
                &&& after.wal_index.top == before.wal_index.top
                &&& action == Action::Reply(Response::Denied)
            },
            RequestView::LockWalIndex { start, end, lock: to } => {
                let granted = band_admits(
                    before.wal_index.locks@,
                    asking.wal_index_lock@,
                    start,
                    end,
                    to,
                );
                &&& action == Action::Reply(
                    if granted {
                        Response::LockWalIndex
                    } else {
                        Response::Denied
                    },
                )
                &&& band_moved(
                    before.wal_index.locks@,
                    asking.wal_index_lock@,
                    start,
                    end,
                    to,
                    after.wal_index.locks@,
                    answered.wal_index_lock@,
                    granted,
                )
            },
            RequestView::DeleteWalIndex => {
                &&& after.wal_index.is_fresh()
                &&& action == Action::RemoveMarker { reply: Response::DeleteWalIndex }
            },
            RequestView::Moved => action == Action::Moved,
        }
    }

    /// Decide the request of the connection `conn`, apply it to the state of
    /// the path and to the connection, and say what is to be done about it.
    pub fn handle(&mut self, conn: &mut FileConnection, request: Request) -> (action: Action)
        ensures
            PathState::handled(
                *old(self),
                *old(conn),
                request@,
                *final(self),
                *final(conn),
                action,
            ),
    {
        match request {
            Request::Open { .. } | Request::Delete { .. } | Request::Exists { .. } => Action::Reply(
                Response::Denied,
            ),
            Request::Lock { lock: to } => match self.lock.transition(conn.lock, to) {
                Transition::Granted { state, lock } => {
                    self.lock = state;
                    conn.lock = lock;
                    Action::Reply(Response::Lock(lock))
                },
                Transition::Refused => Action::Retry { lock: to },
                Transition::Invalid => Action::Reply(Response::Denied),
            },
            Request::Get { src } => {
                if src.start <= src.end {
                    Action::Read { start: src.start, len: src.end - src.start }
                } else {
                    Action::Reply(Response::Denied)
                }
            },
            Request::Put { dst, data } => Action::Write { dst, data },
            Request::Size => Action::Size,
            Request::SetLen { len } => Action::SetLen { len },
            Request::Reserved => Action::Reply(Response::Reserved(self.lock.is_reserved())),
            Request::GetWalIndex { region } => {
                let block = self.wal_index.get(region);
                Action::TouchMarker { reply: Response::GetWalIndex(block) }
            },
            Request::PutWalIndex { region, data } => {
                if self.wal_index.put(region, data) {
                    assert(self.wal_index.blocks().contains_key(region));
                    assert(self.wal_index.data@.dom().contains(region));
                    Action::ResizeMarker {
                        len: self.wal_index.file_len(),
                        reply: Response::PutWalIndex,
                    }
                } else {
                    Action::Reply(Response::Denied)
                }
            },
            Request::LockWalIndex { locks, lock: to } => {
                if self.wal_index.lock(&mut conn.wal_index_lock, locks.start, locks.end, to) {
                    Action::Reply(Response::LockWalIndex)
                } else {
                    Action::Reply(Response::Denied)
                }
            },
            Request::DeleteWalIndex => {
                self.wal_index.clear();
                Action::RemoveMarker { reply: Response::DeleteWalIndex }
            },
            Request::Moved => Action::Moved,
        }
    }

    /// Whether `after`, `answered` and `response` are what a second try of
    /// the connection `asking` to move its lock to `to` leads to: the lock
    /// that the connection holds now if the request is granted this time,
    /// else [`Response::Denied`].
    pub open spec fn retried(
        before: PathState,
        asking: FileConnection,
        to: Lock,
        after: PathState,
        answered: FileConnection,
        response: Response,
    ) -> bool {
        &&& after.path == before.path
        &&& after.refs == before.refs
        &&& after.wal_index == before.wal_index
        &&& answered.id == asking.id
        &&& answered.path == asking.path
        &&& answered.wal_index_lock == asking.wal_index_lock
        &&& match before.lock.spec_transition(asking.lock, to) {
            Transition::Granted { state, lock } => {
                &&& after.lock == state
                &&& answered.lock == lock
                &&& response == Response::Lock(lock)
            },
            _ => {
                &&& after.lock == before.lock
                &&& answered.lock == asking.lock
                &&& response == Response::Denied
            },
        }
    }

    /// Try once more to move the lock of the connection `conn` to `to`.
    pub fn retry_lock(&mut self, conn: &mut FileConnection, to: Lock) -> (response: Response)
        ensures
            PathState::retried(*old(self), *old(conn), to, *final(self), *final(conn), response),
    {
        match self.lock.transition(conn.lock, to) {
            Transition::Granted { state, lock } => {
                self.lock = state;
                conn.lock = lock;
                Response::Lock(lock)
            },
            _ => Response::Denied,
        }
    }
}

impl Server {
    /// Every path is registered once, by at least one connection, with a
    /// well-formed WAL index.
    pub open spec fn wf(&self) -> bool {
        &&& forall|i: int|
            0 <= i < self.paths@.len() ==> (#[trigger] self.paths@[i]).wal_index.wf()
                && self.paths@[i].refs >= 1
        &&& forall|i: int, j: int|
            0 <= i < j < self.paths@.len() ==> (#[trigger] self.paths@[i]).path@
                != (#[trigger] self.paths@[j]).path@
    }

    /// Whether some connection has `path` open.
    pub open spec fn has(&self, path: Seq<u8>) -> bool {
        exists|i: int| 0 <= i < self.paths@.len() && (#[trigger] self.paths@[i]).path@ == path
    }

    /// What the coordinator keeps for `path`.
    pub open spec fn entry(&self, path: Seq<u8>) -> PathState
        recommends
            self.has(path),
    {
        self.paths@[choose|i: int|
            0 <= i < self.paths@.len() && (#[trigger] self.paths@[i]).path@ == path]
    }

    /// Whether the coordinator keeps for every path but `path` what `other`
    /// keeps for it.
    pub open spec fn same_but_for(&self, other: Server, path: Seq<u8>) -> bool {
        forall|q: Seq<u8>|
            q != path ==> (#[trigger] self.has(q)) == other.has(q) && (self.has(q) ==> self.entry(
                q,
            ) == other.entry(q))
    }

    /// The entry at a position is the entry of its path.
    pub proof fn lemma_entry_at(&self, i: int)
        requires
            self.wf(),
            0 <= i < self.paths@.len(),
        ensures
            self.has(self.paths@[i].path@),
            self.entry(self.paths@[i].path@) == self.paths@[i],
    {
        let path = self.paths@[i].path@;
        let j = choose|j: int|
            0 <= j < self.paths@.len() && (#[trigger] self.paths@[j]).path@ == path;
        if i < j {
            assert(self.paths@[i].path@ != self.paths@[j].path@);
        } else if j < i {
            assert(self.paths@[j].path@ != self.paths@[i].path@);
        }
    }

    /// A coordinator without paths and connections.
    pub fn new() -> (r: Server)
        ensures
            r.wf(),
            r.next_id == 0,
            r.paths@.len() == 0,
    {
        Server { next_id: 0, paths: Vec::new() }
    }

    /// The position of the entry of `path`.
    fn find(&self, path: &[u8]) -> (r: Option<usize>)
        ensures
            match r {
                Some(i) => i < self.paths@.len() && self.paths@[i as int].path@ == path@
                    && self.has(path@),
                None => !self.has(path@),
            },
            self.wf() ==> (r matches Some(i) ==> self.entry(path@) == self.paths@[i as int]),
    {
        let mut i: usize = 0;
        while i < self.paths.len()
            invariant
                i <= self.paths@.len(),
                forall|k: int| 0 <= k < i ==> (#[trigger] self.paths@[k]).path@ != path@,
            decreases self.paths.len() - i,
        {
            if same_path(self.paths[i].path.as_slice(), path) {
                proof {
                    if self.wf() {
                        self.lemma_entry_at(i as int);
                    }
                }
                return Some(i);
            }
            i += 1;
        }
        None
    }

    /// Whether some connection holds a reserved, pending or exclusive lock
    /// on the database at `path`. Nobody holds a lock on a path that no
    /// connection has open.
    pub fn is_reserved(&self, path: &[u8]) -> (r: bool)
        ensures
            self.wf() ==> r == (self.has(path@) && self.entry(path@).lock.spec_is_reserved()),
    {
        match self.find(path) {
            Some(i) => self.paths[i].lock.is_reserved(),
            None => false,
        }
    }

    /// What the first request of a connection asks for. The name of the
    /// database is brought into its normal form. A request that works on an
    /// open database cannot start a connection.
    pub fn first_request(request: &Request) -> (greeting: Greeting)
        ensures
            match request@ {
                RequestView::Open { access, db } => {
                    &&& greeting matches Greeting::Open { path, access: a }
                    &&& a == access
                    &&& path@ == spec_normalize_path(vstd::utf8::encode_utf8(db))
                },
                RequestView::Delete { db } => {
                    &&& greeting matches Greeting::Delete { path }
                    &&& path@ == spec_normalize_path(vstd::utf8::encode_utf8(db))
                },
                RequestView::Exists { db } => {
                    &&& greeting matches Greeting::Exists { path }
                    &&& path@ == spec_normalize_path(vstd::utf8::encode_utf8(db))
                },
                _ => greeting == Greeting::Rejected,
            },
    {
        match request {
            Request::Open { access, db } => Greeting::Open {
                path: normalize_path(db.as_str().as_bytes()),
                access: *access,
            },
            Request::Delete { db } => Greeting::Delete {
                path: normalize_path(db.as_str().as_bytes()),
            },
            Request::Exists { db } => Greeting::Exists {
                path: normalize_path(db.as_str().as_bytes()),
            },
            _ => Greeting::Rejected,
        }
    }

    /// Whether a database may be opened at a path: not if the path leads to
    /// a directory and the access would create a file.
    pub fn admits(access: OpenAccess, is_directory: bool) -> (r: bool)
        ensures
            r == !(is_directory && (access == OpenAccess::Create || access
                == OpenAccess::CreateNew)),
    {
        !(is_directory && access.creates())
    }

    /// Whether `after` and `conn` are what a new connection to the database
    /// at `path` leads to, where `exists` says whether the file of the
    /// database exists.
    ///
    /// The connection gets the next number and holds no lock. Where other
    /// connections have the path open and the file exists, the new
    /// connection shares the state of the lock and the WAL index with them.
    /// Where the file is gone, what is kept for the path starts afresh:
    /// nobody holds a lock, and the WAL index is empty. So it does for a
    /// path that no connection has open. The path has one connection more
    /// than before, unless their number is at its limit. What is kept for
    /// other paths stays as it is.
    pub open spec fn opened(
        before: Server,
        path: Seq<u8>,
        exists: bool,
        after: Server,
        conn: FileConnection,
    ) -> bool {
        &&& conn.id == before.next_id
        &&& after.next_id == if before.next_id == usize::MAX {
            0
        } else {
            before.next_id + 1
        }
        &&& conn.path@ == path
        &&& conn.lock == Lock::Unlocked
        &&& conn.wal_index_lock@ == Map::<u8, WalIndexLock>::empty()
        &&& before.wf() ==> {
            &&& after.wf()
            &&& after.has(path)
            &&& after.entry(path).path@ == path
            &&& before.has(path) && exists ==> after.entry(path).lock == before.entry(path).lock
                && after.entry(path).wal_index == before.entry(path).wal_index
            &&& !(before.has(path) && exists) ==> after.entry(path).lock
                == (FileLockState::Read { count: 0 }) && after.entry(path).wal_index.is_fresh()
            &&& after.entry(path).refs == if !before.has(path) {
                1int
            } else if before.entry(path).refs == usize::MAX {
                usize::MAX as int
            } else {
                before.entry(path).refs + 1
            }
            &&& after.same_but_for(before, path)
        }
    }

    /// Register a new connection to the database at `path`, which is
    /// expected in its normal form. `exists` says whether the file of the
    /// database exists.
    pub fn open(&mut self, path: Vec<u8>, exists: bool) -> (conn: FileConnection)
        ensures
            Server::opened(*old(self), path@, exists, *final(self), conn),
    {
        let id = self.next_id;
        self.next_id = if id == usize::MAX {
            0
        } else {
            id + 1
        };
        let conn = FileConnection {
            id,
            path: vstd::slice::slice_to_vec(path.as_slice()),
            lock: Lock::Unlocked,
            wal_index_lock: HashMap::new(),
        };
        match self.find(path.as_slice()) {
            Some(i) => {
                let ghost before = self.paths@;
                let entry = &mut self.paths[i];
                if !exists {
                    entry.reset();
                }
                if entry.refs < usize::MAX {
                    entry.refs = entry.refs + 1;
                }
                proof {
                    if old(self).wf() {
                        self.lemma_updated(*old(self), i as int);
                    }
                }
            },
            None => {
                let ghost before = self.paths@;
                self.paths.push(PathState::new(path));
                proof {
                    assert(self.paths@[before.len() as int].path@ == path@);
                    assert(self.paths@.drop_last() =~= before);
                    if old(self).wf() {
                        self.lemma_pushed(*old(self));
                    }
                }
            },
        }
        conn
    }

    /// Where a coordinator differs from `before` in the entry at the
    /// position `i` only, and the path of this entry is the same, it keeps
    /// for every other path what `before` keeps for it.
    proof fn lemma_updated(&self, before: Server, i: int)
        requires
            before.wf(),
            0 <= i < before.paths@.len(),
            self.paths@.len() == before.paths@.len(),
            self.paths@[i].path@ == before.paths@[i].path@,
            self.paths@[i].wal_index.wf(),
            self.paths@[i].refs >= 1,
            forall|k: int|
                0 <= k < before.paths@.len() && k != i ==> self.paths@[k] == before.paths@[k],
        ensures
            self.wf(),
            self.has(before.paths@[i].path@),
            before.has(before.paths@[i].path@),
            self.entry(before.paths@[i].path@) == self.paths@[i],
            before.entry(before.paths@[i].path@) == before.paths@[i],
            self.same_but_for(before, before.paths@[i].path@),
    {
        let path = before.paths@[i].path@;
        assert forall|a: int, b: int| 0 <= a < b < self.paths@.len() implies (
        #[trigger] self.paths@[a]).path@ != (#[trigger] self.paths@[b]).path@ by {
            assert(before.paths@[a].path@ != before.paths@[b].path@);
        }
        assert forall|k: int| 0 <= k < self.paths@.len() implies (
        #[trigger] self.paths@[k]).wal_index.wf() && self.paths@[k].refs >= 1 by {
            if k != i {
                assert(before.paths@[k].wal_index.wf());
            }
        }
        self.lemma_entry_at(i);
        before.lemma_entry_at(i);
        assert forall|q: Seq<u8>| q != path implies (#[trigger] self.has(q)) == before.has(q) && (
        self.has(q) ==> self.entry(q) == before.entry(q)) by {
            if self.has(q) {
                let k = choose|k: int|
                    0 <= k < self.paths@.len() && (#[trigger] self.paths@[k]).path@ == q;
                assert(before.paths@[k].path@ == q);
                self.lemma_entry_at(k);
                before.lemma_entry_at(k);
            }
            if before.has(q) {
                let k = choose|k: int|
                    0 <= k < before.paths@.len() && (#[trigger] before.paths@[k]).path@ == q;
                assert(self.paths@[k].path@ == q);
            }
        }
    }

    /// Where a coordinator differs from `before` in one more entry at the
    /// end, for a path that `before` does not know, it keeps for every other
    /// path what `before` keeps for it.
    proof fn lemma_pushed(&self, before: Server)
        requires
            before.wf(),
            self.paths@.len() == before.paths@.len() + 1,
            self.paths@.drop_last() == before.paths@,
            !before.has(self.paths@.last().path@),
            self.paths@.last().wal_index.wf(),
            self.paths@.last().refs >= 1,
        ensures
            self.wf(),
            self.has(self.paths@.last().path@),
            self.entry(self.paths@.last().path@) == self.paths@.last(),
            self.same_but_for(before, self.paths@.last().path@),
    {
        let n = before.paths@.len() as int;
        let path = self.paths@.last().path@;
        assert forall|k: int| 0 <= k < n implies #[trigger] self.paths@[k] == before.paths@[k] by {
            assert(self.paths@.drop_last()[k] == self.paths@[k]);
        }
        assert forall|i: int, j: int| 0 <= i < j < self.paths@.len() implies (
        #[trigger] self.paths@[i]).path@ != (#[trigger] self.paths@[j]).path@ by {
            if j == n {
                assert(before.paths@[i].path@ != path);
            } else {
                assert(before.paths@[i].path@ != before.paths@[j].path@);
            }
        }
        assert forall|k: int| 0 <= k < self.paths@.len() implies (
        #[trigger] self.paths@[k]).wal_index.wf() && self.paths@[k].refs >= 1 by {
            if k < n {
                assert(before.paths@[k].wal_index.wf());
            }
        }
        self.lemma_entry_at(n);
        assert forall|q: Seq<u8>| q != path implies (#[trigger] self.has(q)) == before.has(q) && (
        self.has(q) ==> self.entry(q) == before.entry(q)) by {
            if self.has(q) {
                let k = choose|k: int|
                    0 <= k < self.paths@.len() && (#[trigger] self.paths@[k]).path@ == q;
                assert(before.paths@[k].path@ == q);
                self.lemma_entry_at(k);
                before.lemma_entry_at(k);
            }
            if before.has(q) {
                let k = choose|k: int|
                    0 <= k < before.paths@.len() && (#[trigger] before.paths@[k]).path@ == q;
                assert(self.paths@[k].path@ == q);
            }
        }
    }

    /// Where a coordinator differs from `before` in that the entry at the
    /// position `i` is gone, it does not know the path of that entry, and
    /// keeps for every other path what `before` keeps for it.
    proof fn lemma_removed(&self, before: Server, i: int)
        requires
            before.wf(),
            0 <= i < before.paths@.len(),
            self.paths@ == before.paths@.remove(i),
        ensures
            self.wf(),
            !self.has(before.paths@[i].path@),
            self.same_but_for(before, before.paths@[i].path@),
    {
        let path = before.paths@[i].path@;
        let shifted = |k: int|
            if k < i {
                k
            } else {
                k + 1
            };
        assert forall|k: int| 0 <= k < self.paths@.len() implies #[trigger] self.paths@[k]
            == before.paths@[shifted(k)] by {}
        assert forall|a: int, b: int| 0 <= a < b < self.paths@.len() implies (
        #[trigger] self.paths@[a]).path@ != (#[trigger] self.paths@[b]).path@ by {
            assert(before.paths@[shifted(a)].path@ != before.paths@[shifted(b)].path@);
        }
        assert forall|k: int| 0 <= k < self.paths@.len() implies (
        #[trigger] self.paths@[k]).wal_index.wf() && self.paths@[k].refs >= 1 by {
            assert(before.paths@[shifted(k)].wal_index.wf());
        }
        assert(!self.has(path)) by {
            if self.has(path) {
                let k = choose|k: int|
                    0 <= k < self.paths@.len() && (#[trigger] self.paths@[k]).path@ == path;
                let k0 = shifted(k);
                assert(before.paths@[k0].path@ == path);
                if k0 < i {
                    assert(before.paths@[k0].path@ != before.paths@[i].path@);
                } else {
                    assert(before.paths@[i].path@ != before.paths@[k0].path@);
                }
            }
        }
        assert forall|q: Seq<u8>| q != path implies (#[trigger] self.has(q)) == before.has(q) && (
        self.has(q) ==> self.entry(q) == before.entry(q)) by {
            if self.has(q) {
                let k = choose|k: int|
                    0 <= k < self.paths@.len() && (#[trigger] self.paths@[k]).path@ == q;
                assert(before.paths@[shifted(k)].path@ == q);
                self.lemma_entry_at(k);
                before.lemma_entry_at(shifted(k));
            }
            if before.has(q) {
                let k0 = choose|k: int|
                    0 <= k < before.paths@.len() && (#[trigger] before.paths@[k]).path@ == q;
                let k = if k0 < i {
                    k0
                } else {
                    k0 - 1
                };
                assert(self.paths@[k].path@ == q);
            }
        }
    }

    /// Whether `after` is what the end of the connection `conn` leads to.
    ///
    /// Whatever lock the connection held on the database file is released.
    /// The locks it held on regions of the WAL index stay as they are. What
    /// is kept for the path is dropped with its last connection. What is
    /// kept for other paths stays as it is.
    pub open spec fn closed(before: Server, conn: FileConnection, after: Server) -> bool {
        &&& after.next_id == before.next_id
        &&& before.wf() ==> {
            &&& after.wf()
            &&& before.has(conn.path@) && before.entry(conn.path@).refs > 1 ==> {
                &&& after.has(conn.path@)
                &&& after.entry(conn.path@).lock == before.entry(conn.path@).lock.spec_release(
                    conn.lock,
                )
                &&& after.entry(conn.path@).wal_index == before.entry(conn.path@).wal_index
                &&& after.entry(conn.path@).refs == before.entry(conn.path@).refs - 1
            }
            &&& !before.has(conn.path@) || before.entry(conn.path@).refs <= 1 ==> !after.has(
                conn.path@,
            )
            &&& after.same_but_for(before, conn.path@)
        }
    }

    /// Take note that the connection `conn` is gone.
    pub fn close(&mut self, conn: FileConnection)
        ensures
            Server::closed(*old(self), conn, *final(self)),
    {
        match self.find(conn.path.as_slice()) {
            Some(i) => {
                if self.paths[i].refs > 1 {
                    let entry = &mut self.paths[i];
                    entry.lock.release(conn.lock);
                    entry.refs = entry.refs - 1;
                    proof {
                        if old(self).wf() {
                            self.lemma_updated(*old(self), i as int);
                        }
                    }
                } else {
                    let ghost before = self.paths@;
                    self.paths.remove(i);
                    proof {
                        if old(self).wf() {
                            self.lemma_removed(*old(self), i as int);
                        }
                    }
                }
            },
            None => {
                assert(self.same_but_for(*old(self), conn.path@));
            },
        }
    }

    /// Whether `after`, `answered` and `action` are what the request of the
    /// connection `asking` leads to: what [`PathState::handled`] says for
    /// the path of the connection. Nothing else changes. A connection whose
    /// path is not registered is denied.
    pub open spec fn requested(
        before: Server,
        asking: FileConnection,
        request: RequestView,
        after: Server,
        answered: FileConnection,
        action: Action,
    ) -> bool {
        &&& after.next_id == before.next_id
        &&& before.wf() ==> {
            &&& after.wf()
            &&& after.same_but_for(before, asking.path@)
            &&& after.has(asking.path@) == before.has(asking.path@)
            &&& before.has(asking.path@) ==> PathState::handled(
                before.entry(asking.path@),
                asking,
                request,
                after.entry(asking.path@),
                answered,
                action,
            )
            &&& !before.has(asking.path@) ==> action == Action::Reply(Response::Denied) && answered
                == asking
        }
    }

    /// Decide the request of the connection `conn`, apply it, and say what
    /// is to be done about it.
    pub fn handle_request(&mut self, conn: &mut FileConnection, request: Request) -> (action:
        Action)
        ensures
            Server::requested(*old(self), *old(conn), request@, *final(self), *final(conn), action),
    {
        match self.find(conn.path.as_slice()) {
            Some(i) => {
                let action = self.paths[i].handle(conn, request);
                proof {
                    if old(self).wf() {
                        self.lemma_updated(*old(self), i as int);
                    }
                }
                action
            },
            None => {
                assert(self.same_but_for(*old(self), conn.path@));
                Action::Reply(Response::Denied)
            },
        }
    }

    /// Whether `after`, `answered` and `response` are what a second try of
    /// the connection `asking` to move its lock to `to` leads to: what
    /// [`PathState::retried`] says for the path of the connection. Nothing
    /// else changes. A connection whose path is not registered is denied.
    pub open spec fn retried(
        before: Server,
        asking: FileConnection,
        to: Lock,
        after: Server,
        answered: FileConnection,
        response: Response,
    ) -> bool {
        &&& after.next_id == before.next_id
        &&& before.wf() ==> {
            &&& after.wf()
            &&& after.same_but_for(before, asking.path@)
            &&& after.has(asking.path@) == before.has(asking.path@)
            &&& before.has(asking.path@) ==> PathState::retried(
                before.entry(asking.path@),
                asking,
                to,
                after.entry(asking.path@),
                answered,
                response,
            )
            &&& !before.has(asking.path@) ==> response == Response::Denied && answered == asking
        }
    }

    /// The response to a lock request of the connection `conn` that was
    /// refused and is tried once more.
    pub fn retry_lock(&mut self, conn: &mut FileConnection, to: Lock) -> (response: Response)
        ensures
            Server::retried(*old(self), *old(conn), to, *final(self), *final(conn), response),
    {
        match self.find(conn.path.as_slice()) {
            Some(i) => {
                let response = self.paths[i].retry_lock(conn, to);
                proof {
                    if old(self).wf() {
                        self.lemma_updated(*old(self), i as int);
                    }
                }
                response
            },
            None => {
                assert(self.same_but_for(*old(self), conn.path@));
                Response::Denied
            },
        }
    }
}

impl Default for Server {
    fn default() -> (r: Server)
        ensures
            r.wf(),
            r.next_id == 0,
            r.paths@.len() == 0,
    {
        Server::new()
    }
}

/// Every request keeps a path and its connections consistent: if the state
/// of the path agrees with the locks that the connections believe to hold,
/// it still does after the request of one of them was handled.
pub proof fn lemma_handled_consistent(
    before: PathState,
    asking: FileConnection,
    request: RequestView,
    after: PathState,
    answered: FileConnection,
    action: Action,
    views: Seq<Lock>,
    i: int,
)
    requires
        PathState::handled(before, asking, request, after, answered, action),
        0 <= i < views.len(),
        views[i] == asking.lock,
        (PathLocks { state: before.lock, views }).consistent(),
    ensures
        (PathLocks { state: after.lock, views: views.update(i, answered.lock) }).consistent(),
{
    let sys = PathLocks { state: before.lock, views };
    match request {
        RequestView::Lock { lock: to } => {
            lemma_step_consistent(sys, i, to);
            match before.lock.spec_transition(asking.lock, to) {
                Transition::Granted { .. } => {},
                _ => {
                    assert(views.update(i, answered.lock) =~= views);
                },
            }
        },
        _ => {
            assert(views.update(i, answered.lock) =~= views);
        },
    }
}

/// A second try of a lock request keeps a path and its connections
/// consistent.
pub proof fn lemma_retried_consistent(
    before: PathState,
    asking: FileConnection,
    to: Lock,
    after: PathState,
    answered: FileConnection,
    response: Response,
    views: Seq<Lock>,
    i: int,
)
    requires
        PathState::retried(before, asking, to, after, answered, response),
        0 <= i < views.len(),
        views[i] == asking.lock,
        (PathLocks { state: before.lock, views }).consistent(),
    ensures
        (PathLocks { state: after.lock, views: views.update(i, answered.lock) }).consistent(),
{
    let sys = PathLocks { state: before.lock, views };
    lemma_step_consistent(sys, i, to);
    match before.lock.spec_transition(asking.lock, to) {
        Transition::Granted { .. } => {},
        _ => {
            assert(views.update(i, answered.lock) =~= views);
        },
    }
}

/// Closing a connection keeps a path and its remaining connections
/// consistent: the state that the path is left in agrees with the locks of
/// the connections that are still there.
pub proof fn lemma_closed_consistent(before: FileLockState, views: Seq<Lock>, i: int)
    requires
        0 <= i < views.len(),
        (PathLocks { state: before, views }).consistent(),
    ensures
        (PathLocks { state: before.spec_release(views[i]), views: views.remove(i) }).consistent(),
{
    lemma_disconnect_consistent(PathLocks { state: before, views }, i);
}

} // verus!
