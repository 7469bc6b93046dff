//! The state of the shim, and the callbacks of the database engine that
//! concern the file system as a whole.
//!
//! The engine talks to the shim through pointers. Whoever owns the method
//! table turns them into plain values, calls the function of this module
//! that has the name of the callback, stores the error of the [`Reply`] as
//! the last error, and hands the result code back to the engine.

use std::collections::HashMap;
use std::sync::Arc;
use vstd::prelude::*;
use vstd::utf8::{decode_utf8, encode_utf8, valid_utf8};

use crate::backend::{DatabaseHandle, Vfs};
use crate::codec::utf8_to_string;
use crate::codes::{
    SQLITE_ACCESS_EXISTS, SQLITE_ACCESS_READ, SQLITE_ACCESS_READWRITE, SQLITE_CANTOPEN,
    SQLITE_DELETE, SQLITE_ERROR, SQLITE_IOERR, SQLITE_IOERR_ACCESS, SQLITE_IOERR_DELETE_NOENT,
    SQLITE_OK,
};
use crate::error::{null_ptr_error, Error, ErrorKind, Reply};
use crate::open_options::{OpenAccess, OpenOptions};
use crate::wal_lock::WalIndexLock;

verus! {

/// The longest path, with the byte that ends it, that the shim hands to the
/// engine.
pub const MAX_PATH_LENGTH: usize = 512;

/// The Julian day number of the first of January 1970, in milliseconds: the
/// days up to then are 2440587.5.
pub const UNIX_EPOCH: i64 = 24405875 * 8640000;

/// What the shim keeps for a registered file system.
pub struct State<V> {
    /// The name under which the file system is registered.
    pub name: String,
    /// The backend.
    pub vfs: Arc<V>,
    /// The number of the next file.
    pub next_id: usize,
}

/// A region of the WAL index that is mapped into the engine. The block
/// stays where it is for as long as the region is mapped.
pub struct MappedRegion {
    pub region: u32,
    pub data: Box<[u8; 32768]>,
}

/// What the shim keeps for an open file.
pub struct FileExt<V, F> {
    /// The backend.
    pub vfs: Arc<V>,
    /// The name under which the file system is registered.
    pub vfs_name: String,
    /// The name of the database.
    pub db_name: String,
    /// The file of the backend.
    pub file: F,
    /// The file should be deleted when it is closed.
    pub delete_on_close: bool,
    /// The number of the last error of this file.
    pub last_errno: i32,
    /// The regions of the WAL index that are mapped.
    pub wal_index: Vec<MappedRegion>,
    /// The locks that the file holds on the regions of the WAL index.
    pub wal_index_locks: HashMap<u8, WalIndexLock>,
    /// Whether the file holds the exclusive lock on the database.
    pub has_exclusive_lock: bool,
    /// The number of the file.
    pub id: usize,
    /// The size in whose multiples the file grows and shrinks.
    pub chunk_size: Option<usize>,
}

/// What the shim knows of an open file, apart from the file of the backend
/// and the bytes of the mapped regions.
pub struct FileView {
    pub vfs_name: Seq<char>,
    pub db_name: Seq<char>,
    pub delete_on_close: bool,
    pub last_errno: i32,
    pub mapped: Seq<u32>,
    pub locks: Map<u8, WalIndexLock>,
    pub has_exclusive_lock: bool,
    pub id: usize,
    pub chunk_size: Option<usize>,
}

impl<V, F> View for FileExt<V, F> {
    type V = FileView;

    open spec fn view(&self) -> FileView {
        FileView {
            vfs_name: self.vfs_name@,
            db_name: self.db_name@,
            delete_on_close: self.delete_on_close,
            last_errno: self.last_errno,
            mapped: Seq::new(self.wal_index@.len(), |i: int| self.wal_index@[i].region),
            locks: self.wal_index_locks@,
            has_exclusive_lock: self.has_exclusive_lock,
            id: self.id,
            chunk_size: self.chunk_size,
        }
    }
}

impl FileView {
    /// No region is mapped twice. This holds of a file that was just
    /// opened, and every callback keeps it.
    pub open spec fn wf(self) -> bool {
        forall|i: int, j: int|
            0 <= i < j < self.mapped.len() ==> self.mapped[i] != self.mapped[j]
    }

    /// Whether the region is mapped.
    pub open spec fn is_mapped(self, region: u32) -> bool {
        exists|i: int| 0 <= i < self.mapped.len() && self.mapped[i] == region
    }
}

impl<V, F> FileExt<V, F> {
    /// Keep `no` as the number of the last error of the file, and hand
    /// `error` on for the last error of the file system.
    pub fn set_last_error(&mut self, no: i32, error: Error) -> (reply: Reply)
        ensures
            reply.code == no,
            reply.error == Some(error),
            final(self)@ == (FileView { last_errno: no, ..old(self)@ }),
            final(self).file == old(self).file,
            final(self).wal_index == old(self).wal_index,
    {
        self.last_errno = no;
        Reply::fail(no, error)
    }

    /// The position at which `region` is mapped.
    pub fn find_region(&self, region: u32) -> (r: Option<usize>)
        ensures
            match r {
                Some(i) => i < self@.mapped.len() && self@.mapped[i as int] == region,
                None => !self@.is_mapped(region),
            },
    {
        let mut i: usize = 0;
        while i < self.wal_index.len()
            invariant
                i <= self.wal_index@.len(),
                forall|k: int| 0 <= k < i ==> self@.mapped[k] != region,
            decreases self.wal_index.len() - i,
        {
            if self.wal_index[i].region == region {
                return Some(i);
            }
            i += 1;
        }
        None
    }

    /// The block of the mapped region at the position `i`, if there is one.
    /// What is written to the block is written to the region; nothing else
    /// changes.
    pub fn region_mut(&mut self, i: usize) -> (block: Option<&mut [u8; 32768]>)
        ensures
            match block {
                Some(b) => {
                    &&& i < old(self)@.mapped.len()
                    &&& *b == *old(self).wal_index@[i as int].data
                    &&& final(self).wal_index@ == old(self).wal_index@.update(
                        i as int,
                        MappedRegion {
                            region: old(self).wal_index@[i as int].region,
                            data: Box::new(*final(b)),
                        },
                    )
                    &&& final(self)@.mapped =~= old(self)@.mapped
                    &&& final(self)@ == (FileView { mapped: final(self)@.mapped, ..old(self)@ })
                    &&& final(self).file == old(self).file
                },
                None => i >= old(self)@.mapped.len() && *final(self) == *old(self),
            },
    {
        if i < self.wal_index.len() {
            Some(&mut self.wal_index[i].data)
        } else {
            None
        }
    }
}

/// Another handle of the backend. This is the `clone` of `Arc`, which
/// yields a handle of the same value.
#[verifier::external_body]
pub(crate) fn share<V>(vfs: &Arc<V>) -> (r: Arc<V>)
    ensures
        *r == **vfs,
{
    Arc::clone(vfs)
}

/// Why a file system could not be registered.
#[derive(Debug, Clone, Copy, PartialEq, Eq, Structural)]
pub enum RegisterError {
    /// The name holds a zero byte, at this position.
    Nul(usize),
    /// The engine refused the registration with this result code.
    Register(i32),
}

/// The position of the first zero byte of `bytes`, if there is one.
pub fn find_nul(bytes: &[u8]) -> (r: Option<usize>)
    ensures
        match r {
            Some(i) => i < bytes@.len() && bytes@[i as int] == 0 && forall|k: int|
                0 <= k < i ==> bytes@[k] != 0,
            None => forall|k: int| 0 <= k < bytes@.len() ==> bytes@[k] != 0,
        },
{
    let mut i: usize = 0;
    while i < bytes.len()
        invariant
            i <= bytes@.len(),
            forall|k: int| 0 <= k < i ==> bytes@[k] != 0,
        decreases bytes.len() - i,
    {
        if bytes[i] == 0 {
            return Some(i);
        }
        i += 1;
    }
    None
}

/// Prepare the registration of the file system `vfs` under `name`: the
/// state that the method table of the engine is going to point to. A name
/// with a zero byte cannot be handed to the engine.
pub fn register<F: DatabaseHandle, V: Vfs<Handle = F>>(name: &str, vfs: V) -> (r: Result<
    State<V>,
    RegisterError,
>)
    ensures
        match r {
            Ok(state) => {
                &&& forall|k: int| 0 <= k < encode_utf8(name@).len() ==> encode_utf8(name@)[k] != 0
                &&& state.name@ == name@
                &&& *state.vfs == vfs
                &&& state.next_id == 0
            },
            Err(e) => {
                &&& e matches RegisterError::Nul(i)
                &&& i < encode_utf8(name@).len()
                &&& encode_utf8(name@)[i as int] == 0
                &&& forall|k: int| 0 <= k < i ==> encode_utf8(name@)[k] != 0
            },
        },
{
    match find_nul(name.as_bytes()) {
        Some(i) => Err(RegisterError::Nul(i)),
        None => Ok(State { name: name.to_owned(), vfs: Arc::new(vfs), next_id: 0 }),
    }
}

/// What became of a registration that the engine answered with `code`.
pub fn registered(code: i32) -> (r: Result<(), RegisterError>)
    ensures
        r == if code == SQLITE_OK {
            Ok::<(), RegisterError>(())
        } else {
            Err::<(), RegisterError>(RegisterError::Register(code))
        },
{
    if code != SQLITE_OK {
        Err(RegisterError::Register(code))
    } else {
        Ok(())
    }
}

/// What an open request leads to: the reply, and if the file is open, the
/// state of the file and the flags it was opened with.
pub struct Opened<V, F> {
    pub reply: Reply,
    pub file: Option<FileExt<V, F>>,
    pub out_flags: i32,
}

/// Whether an open request that failed with an error of the kind `kind` is
/// tried once more for reading only: if the access was denied and more than
/// reading was asked for.
pub fn retries_read_only(kind: ErrorKind, access: OpenAccess) -> (r: bool)
    ensures
        r == (kind == ErrorKind::PermissionDenied && access != OpenAccess::Read),
{
    matches!(kind, ErrorKind::PermissionDenied) && !matches!(access, OpenAccess::Read)
}

/// The result code for an open request that failed with an error of the
/// kind `kind`.
pub fn open_failure_code(kind: ErrorKind) -> (code: i32)
    ensures
        code == if kind == ErrorKind::PermissionDenied {
            SQLITE_CANTOPEN
        } else {
            SQLITE_IOERR
        },
{
    if matches!(kind, ErrorKind::PermissionDenied) {
        SQLITE_CANTOPEN
    } else {
        SQLITE_IOERR
    }
}

/// The number after `id`; after the greatest number comes zero.
pub open spec fn next_id(id: usize) -> usize {
    if id == usize::MAX {
        0
    } else {
        (id + 1) as usize
    }
}

/// The state of a file that was just opened.
pub open spec fn fresh_file(
    vfs_name: Seq<char>,
    db_name: Seq<char>,
    delete_on_close: bool,
    id: usize,
) -> FileView {
    FileView {
        vfs_name,
        db_name,
        delete_on_close,
        last_errno: 0,
        mapped: Seq::empty(),
        locks: Map::empty(),
        has_exclusive_lock: false,
        id,
        chunk_size: None,
    }
}

/// Open a file.
///
/// `name` holds the bytes of the name that the engine gave, `None` if it
/// gave none; `has_file` says whether the engine gave room for the state of
/// the file. The request is answered with [`SQLITE_CANTOPEN`], and the
/// backend is not asked, if the name is not UTF-8, if the flags name no
/// object type or no access, if a file without a name is not to be deleted
/// when it is closed, or if there is no room for the state. A file without
/// a name gets a temporary name from the backend.
///
/// Else the backend is asked to open the file under its name with the
/// options that the flags stand for. Where it denies the access and more
/// than reading was asked for, it is asked once more for reading only. What
/// becomes of the request is what [`open_answered`] makes of the answer of
/// the backend: of its first answer, or, after a second attempt, of the file
/// that it opened for reading or else of the error of the first attempt. If
/// the file is open, its state is fresh, it has the next number, and the
/// flags that are handed back say how it was opened. If not, the reply is
/// [`SQLITE_CANTOPEN`] where the access was denied, else [`SQLITE_IOERR`],
/// with the error of the first attempt.
pub fn open<F: DatabaseHandle, V: Vfs<Handle = F>>(
    state: &mut State<V>,
    name: Option<&[u8]>,
    flags: i32,
    has_file: bool,
) -> (r: Opened<V, F>)
    ensures
        (name matches Some(bytes) ==> valid_utf8(bytes@)) && OpenOptions::spec_from_flags(flags)
            is Some && (name is Some || OpenOptions::spec_from_flags(
            flags,
        )->Some_0.delete_on_close) && has_file ==> exists|
            db: &str,
            options: OpenOptions,
            first: Result<F, Error>,
        |
            {
                &&& options == OpenOptions::spec_from_flags(flags)->Some_0
                &&& name matches Some(bytes) ==> db@ == decode_utf8(bytes@)
                &&& name is None ==> exists|temp: String|
                    call_ensures(V::temporary_name, (&*old(state).vfs,), temp) && db@ == temp@
                &&& #[trigger] call_ensures(V::open, (&*old(state).vfs, db, options), first)
                &&& match first {
                    Ok(_) => open_answered(
                        old(state).name@,
                        old(state).next_id,
                        db@,
                        options,
                        first,
                        r,
                    ),
                    Err(err) => if err.kind == ErrorKind::PermissionDenied && options.access
                        != OpenAccess::Read {
                        exists|read_only: OpenOptions, second: Result<F, Error>|
                            read_only == (OpenOptions { access: OpenAccess::Read, ..options })
                                && #[trigger] call_ensures(
                                V::open,
                                (&*old(state).vfs, db, read_only),
                                second,
                            ) && open_answered(
                                old(state).name@,
                                old(state).next_id,
                                db@,
                                read_only,
                                match second {
                                    Ok(file) => Ok(file),
                                    Err(_) => Err(err),
                                },
                                r,
                            )
                    } else {
                        open_answered(
                            old(state).name@,
                            old(state).next_id,
                            db@,
                            options,
                            first,
                            r,
                        )
                    },
                }
            },
        final(state).name == old(state).name,
        final(state).vfs == old(state).vfs,
        r.reply.code == SQLITE_OK || r.reply.code == SQLITE_CANTOPEN || r.reply.code
            == SQLITE_IOERR,
        (r.reply.code == SQLITE_OK) == (r.file is Some),
        (r.reply.code == SQLITE_OK) == (r.reply.error is None),
        final(state).next_id == if r.file is Some {
            next_id(old(state).next_id)
        } else {
            old(state).next_id
        },
        (name matches Some(bytes) && !valid_utf8(bytes@)) || OpenOptions::spec_from_flags(flags)
            is None || (name is None && !OpenOptions::spec_from_flags(
            flags,
        )->Some_0.delete_on_close) || !has_file ==> r.reply.code == SQLITE_CANTOPEN,
        r.file matches Some(file) ==> {
            let options = OpenOptions::spec_from_flags(flags)->Some_0;
            &&& OpenOptions::spec_from_flags(flags) is Some
            &&& file@ == fresh_file(
                old(state).name@,
                file@.db_name,
                options.delete_on_close,
                old(state).next_id,
            )
            &&& name matches Some(bytes) ==> file@.db_name == decode_utf8(bytes@)
            &&& r.out_flags == options.spec_to_flags() || (options.access != OpenAccess::Read
                && r.out_flags == (OpenOptions {
                access: OpenAccess::Read,
                ..options
            }).spec_to_flags())
        },
{
    let name: Option<String> = match name {
        None => None,
        Some(bytes) => match utf8_to_string(bytes) {
            Some(name) => Some(name),
            None => {
                return refuse_open(
                    Error::other("database must be defined and a valid utf8 string"),
                );
            },
        },
    };
    let mut opts = match OpenOptions::from_flags(flags) {
        Some(opts) => opts,
        None => {
            return refuse_open(Error::other("invalid open flags"));
        },
    };
    if name.is_none() && !opts.delete_on_close {
        return refuse_open(Error::other("delete on close expected for temporary database"));
    }
    if !has_file {
        return refuse_open(Error::other("invalid file pointer"));
    }
    let name: String = match name {
        Some(name) => name,
        None => state.vfs.temporary_name(),
    };
    let db = name.as_str();
    let result = match state.vfs.open(db, opts) {
        Ok(file) => Ok(file),
        Err(err) => {
            if retries_read_only(err.kind(), opts.access) {
                opts.access = OpenAccess::Read;
                match state.vfs.open(db, opts) {
                    Ok(file) => Ok(file),
                    Err(_) => Err(err),
                }
            } else {
                Err(err)
            }
        },
    };
    opened(state, name, opts, result)
}

/// Whether `r` is what became of an open request for the file `name` with
/// the options `opts`, given what the backend answered, where the file
/// system is registered as `vfs_name` and `id` is the number of the next
/// file.
///
/// If the backend opened the file, the state of the file is fresh, it has
/// the number `id`, and the flags that are handed back are those of the
/// options. If not, the reply is [`SQLITE_CANTOPEN`] where the access was
/// denied, else [`SQLITE_IOERR`], with the error of the backend.
pub open spec fn open_answered<V, F>(
    vfs_name: Seq<char>,
    id: usize,
    name: Seq<char>,
    opts: OpenOptions,
    result: Result<F, Error>,
    r: Opened<V, F>,
) -> bool {
    match result {
        Ok(file) => {
            &&& r.reply == Reply { code: SQLITE_OK, error: None }
            &&& r.out_flags == opts.spec_to_flags()
            &&& r.file matches Some(ext)
            &&& ext.file == file
            &&& ext.wal_index@.len() == 0
            &&& ext@ == fresh_file(vfs_name, name, opts.delete_on_close, id)
        },
        Err(err) => {
            &&& r.reply == Reply {
                code: if err.kind == ErrorKind::PermissionDenied {
                    SQLITE_CANTOPEN
                } else {
                    SQLITE_IOERR
                },
                error: Some(err),
            }
            &&& r.file is None
        },
    }
}

/// What became of an open request for the file `name` with the options
/// `opts`, given what the backend answered, as [`open_answered`] says. The
/// number of the next file moves on if the file is open.
pub fn opened<V, F>(
    state: &mut State<V>,
    name: String,
    opts: OpenOptions,
    result: Result<F, Error>,
) -> (r: Opened<V, F>)
    ensures
        open_answered(old(state).name@, old(state).next_id, name@, opts, result, r),
        final(state).name == old(state).name,
        final(state).vfs == old(state).vfs,
        match result {
            Ok(file) => {
                &&& r.reply.code == SQLITE_OK
                &&& r.reply.error is None
                &&& r.out_flags == opts.spec_to_flags()
                &&& final(state).next_id == next_id(old(state).next_id)
                &&& r.file matches Some(ext)
                &&& ext.file == file
                &&& *ext.vfs == *old(state).vfs
                &&& ext.wal_index@.len() == 0
                &&& ext@ == fresh_file(
                    old(state).name@,
                    name@,
                    opts.delete_on_close,
                    old(state).next_id,
                )
            },
            Err(err) => {
                &&& r.reply.code == if err.kind == ErrorKind::PermissionDenied {
                    SQLITE_CANTOPEN
                } else {
                    SQLITE_IOERR
                }
                &&& r.reply.error == Some(err)
                &&& r.file is None
                &&& final(state).next_id == old(state).next_id
            },
        },
{
    let file = match result {
        Ok(file) => file,
        Err(err) => {
            return Opened {
                reply: Reply::fail(open_failure_code(err.kind()), err),
                file: None,
                out_flags: 0,
            };
        },
    };
    let ext = FileExt {
        vfs: share(&state.vfs),
        vfs_name: state.name.clone(),
        db_name: name,
        file,
        delete_on_close: opts.delete_on_close,
        last_errno: 0,
        wal_index: Vec::new(),
        wal_index_locks: HashMap::new(),
        has_exclusive_lock: false,
        id: state.next_id,
        chunk_size: None,
    };
    state.next_id = if state.next_id == usize::MAX {
        0
    } else {
        state.next_id + 1
    };
    assert(ext@.mapped =~= Seq::<u32>::empty());
    Opened { reply: Reply::code(SQLITE_OK), file: Some(ext), out_flags: opts.to_flags() }
}

/// The answer to an open request that cannot be served.
fn refuse_open<V, F>(error: Error) -> (r: Opened<V, F>)
    ensures
        r.reply.code == SQLITE_CANTOPEN,
        r.reply.error == Some(error),
        r.file is None,
{
    Opened { reply: Reply::fail(SQLITE_CANTOPEN, error), file: None, out_flags: 0 }
}

/// The reply to a request to delete a file, given what the backend
/// answered: a file that was not there is told apart from other failures,
/// and is not kept as the last error.
pub open spec fn spec_delete_reply(result: Result<(), Error>) -> Reply {
    match result {
        Ok(_) => Reply { code: SQLITE_OK, error: None },
        Err(err) => if err.kind == ErrorKind::NotFound {
            Reply { code: SQLITE_IOERR_DELETE_NOENT, error: None }
        } else {
            Reply { code: SQLITE_DELETE, error: Some(err) }
        },
    }
}

/// The reply to a request to delete a file, given what the backend
/// answered: a file that was not there is told apart from other failures,
/// and is not kept as the last error.
pub fn delete_reply(result: Result<(), Error>) -> (reply: Reply)
    ensures
        reply == spec_delete_reply(result),
        match result {
            Ok(_) => reply.code == SQLITE_OK && reply.error is None,
            Err(err) => if err.kind == ErrorKind::NotFound {
                reply.code == SQLITE_IOERR_DELETE_NOENT && reply.error is None
            } else {
                reply.code == SQLITE_DELETE && reply.error == Some(err)
            },
        },
{
    match result {
        Ok(_) => Reply::code(SQLITE_OK),
        Err(err) => {
            if matches!(err.kind(), ErrorKind::NotFound) {
                Reply::code(SQLITE_IOERR_DELETE_NOENT)
            } else {
                Reply::fail(SQLITE_DELETE, err)
            }
        },
    }
}

/// Delete the file at `path`: the backend is asked to delete it, and the
/// reply is what [`spec_delete_reply`] makes of its answer.
pub fn delete<V: Vfs>(state: &State<V>, path: &str) -> (reply: Reply)
    ensures
        reply.code == SQLITE_OK || reply.code == SQLITE_IOERR_DELETE_NOENT || reply.code
            == SQLITE_DELETE,
        (reply.code == SQLITE_DELETE) == (reply.error is Some),
        exists|result: Result<(), Error>|
            call_ensures(V::delete, (&*state.vfs, path), result) && reply == spec_delete_reply(
                result,
            ),
{
    delete_reply(state.vfs.delete(path))
}

/// What an access check asks the backend.
#[derive(Debug, Clone, Copy, PartialEq, Eq, Structural)]
pub enum AccessCheck {
    /// Does the file exist?
    Exists,
    /// Can the file be read?
    Read,
    /// Can the file be read and written?
    ReadWrite,
}

/// What the flags of an access check ask for, if anything.
pub open spec fn spec_access_check(flags: i32) -> Option<AccessCheck> {
    if flags == SQLITE_ACCESS_EXISTS {
        Some(AccessCheck::Exists)
    } else if flags == SQLITE_ACCESS_READ {
        Some(AccessCheck::Read)
    } else if flags == SQLITE_ACCESS_READWRITE {
        Some(AccessCheck::ReadWrite)
    } else {
        None
    }
}

/// What the flags of an access check ask for, if anything.
pub fn access_check(flags: i32) -> (r: Option<AccessCheck>)
    ensures
        r == spec_access_check(flags),
        r == if flags == SQLITE_ACCESS_EXISTS {
            Some(AccessCheck::Exists)
        } else if flags == SQLITE_ACCESS_READ {
            Some(AccessCheck::Read)
        } else if flags == SQLITE_ACCESS_READWRITE {
            Some(AccessCheck::ReadWrite)
        } else {
            None
        },
{
    if flags == SQLITE_ACCESS_EXISTS {
        Some(AccessCheck::Exists)
    } else if flags == SQLITE_ACCESS_READ {
        Some(AccessCheck::Read)
    } else if flags == SQLITE_ACCESS_READWRITE {
        Some(AccessCheck::ReadWrite)
    } else {
        None
    }
}

/// Whether `r` is the reply to an access check, and the number to report,
/// given what the backend answered: one for a granted access and zero for
/// a denied one, where the engine gave room for the number; else, and for a
/// failure of the backend, [`SQLITE_IOERR_ACCESS`] with an error.
pub open spec fn access_answered(result: Result<bool, Error>, has_out: bool, r: (Reply, i32)) -> bool {
    match result {
        Ok(ok) => if has_out {
            r.0 == (Reply { code: SQLITE_OK, error: None }) && r.1 == if ok {
                1i32
            } else {
                0i32
            }
        } else {
            r.0.code == SQLITE_IOERR_ACCESS && r.0.error is Some
        },
        Err(err) => r.0 == Reply { code: SQLITE_IOERR_ACCESS, error: Some(err) },
    }
}

/// The reply to an access check, and the number to report, given what the
/// backend answered. `has_out` says whether the engine gave room for the
/// number.
pub fn access_reply(result: Result<bool, Error>, has_out: bool) -> (r: (Reply, i32))
    ensures
        access_answered(result, has_out, r),
        match result {
            Ok(ok) => if has_out {
                r.0.code == SQLITE_OK && r.0.error is None && r.1 == if ok {
                    1i32
                } else {
                    0i32
                }
            } else {
                r.0.code == SQLITE_IOERR_ACCESS && r.0.error is Some
            },
            Err(err) => r.0.code == SQLITE_IOERR_ACCESS && r.0.error == Some(err),
        },
{
    match result {
        Ok(ok) => {
            if has_out {
                (
                    Reply::code(SQLITE_OK),
                    if ok {
                        1
                    } else {
                        0
                    },
                )
            } else {
                (Reply::fail(SQLITE_IOERR_ACCESS, null_ptr_error()), 0)
            }
        },
        Err(err) => (Reply::fail(SQLITE_IOERR_ACCESS, err), 0),
    }
}

/// Test for access permissions: the backend is asked whether the file
/// exists, can be read, or can be read and written, as the flags say, and
/// the reply is what [`access_answered`] makes of its answer. Other flags
/// are answered with [`SQLITE_IOERR_ACCESS`], and the backend is not asked.
pub fn access<V: Vfs>(state: &State<V>, path: &str, flags: i32, has_out: bool) -> (r: (
    Reply,
    i32,
))
    ensures
        match spec_access_check(flags) {
            None => r.0 == Reply { code: SQLITE_IOERR_ACCESS, error: None },
            Some(AccessCheck::Exists) => exists|result: Result<bool, Error>|
                call_ensures(V::db_exists, (&*state.vfs, path), result) && access_answered(
                    result,
                    has_out,
                    r,
                ),
            Some(AccessCheck::Read) => exists|result: Result<bool, Error>|
                call_ensures(V::access, (&*state.vfs, path, false), result) && access_answered(
                    result,
                    has_out,
                    r,
                ),
            Some(AccessCheck::ReadWrite) => exists|result: Result<bool, Error>|
                call_ensures(V::access, (&*state.vfs, path, true), result) && access_answered(
                    result,
                    has_out,
                    r,
                ),
        },
        r.0.code == SQLITE_OK || r.0.code == SQLITE_IOERR_ACCESS,
        !(flags == SQLITE_ACCESS_EXISTS || flags == SQLITE_ACCESS_READ || flags
            == SQLITE_ACCESS_READWRITE) ==> r.0.code == SQLITE_IOERR_ACCESS && r.0.error is None,
        !has_out ==> r.0.code == SQLITE_IOERR_ACCESS,
        r.0.code == SQLITE_OK ==> r.0.error is None && (r.1 == 0 || r.1 == 1),
{
    let result = match access_check(flags) {
        Some(AccessCheck::Exists) => state.vfs.db_exists(path),
        Some(AccessCheck::Read) => state.vfs.access(path, false),
        Some(AccessCheck::ReadWrite) => state.vfs.access(path, true),
        None => {
            return (Reply::code(SQLITE_IOERR_ACCESS), 0);
        },
    };
    access_reply(result, has_out)
}

/// The bytes of `text` followed by a zero byte, if `text` holds no zero
/// byte itself.
pub fn c_string(text: &[u8]) -> (r: Option<Vec<u8>>)
    ensures
        r is Some <==> forall|k: int| 0 <= k < text@.len() ==> text@[k] != 0,
        r matches Some(bytes) ==> bytes@ == text@.push(0u8),
{
    match find_nul(text) {
        Some(_) => None,
        None => {
            let mut bytes = vstd::slice::slice_to_vec(text);
            bytes.push(0);
            Some(bytes)
        },
    }
}

/// Whether `reply` and `out` are the reply to a request for the full name
/// of a path, and the bytes to hand to the engine, given what the backend
/// answered. `n_out` is the room that the engine has for the name.
///
/// The name is handed out with a zero byte at its end. It must not hold one
/// before, and must fit into the room and into [`MAX_PATH_LENGTH`] bytes.
pub open spec fn full_pathname_answered(
    result: Result<String, Error>,
    n_out: i32,
    reply: Reply,
    out: Seq<u8>,
) -> bool {
    match result {
        Err(err) => reply == Reply { code: SQLITE_ERROR, error: Some(err) },
        Ok(name) => {
            let bytes = encode_utf8(name@);
            if exists|k: int| 0 <= k < bytes.len() && bytes[k] == 0 {
                reply.code == SQLITE_ERROR && reply.error is Some
            } else if bytes.len() + 1 > n_out || bytes.len() + 1 > MAX_PATH_LENGTH {
                reply.code == SQLITE_CANTOPEN && reply.error is Some
            } else {
                reply == (Reply { code: SQLITE_OK, error: None }) && out == bytes.push(0u8)
            }
        },
    }
}

/// The reply to a request for the full name of a path, and the bytes to
/// hand to the engine, given what the backend answered. `n_out` is the room
/// that the engine has for the name.
pub fn full_pathname_reply(result: Result<String, Error>, n_out: i32) -> (r: (Reply, Vec<u8>))
    ensures
        full_pathname_answered(result, n_out, r.0, r.1@),
        match result {
            Err(err) => r.0.code == SQLITE_ERROR && r.0.error == Some(err),
            Ok(name) => {
                let bytes = encode_utf8(name@);
                if exists|k: int| 0 <= k < bytes.len() && bytes[k] == 0 {
                    r.0.code == SQLITE_ERROR && r.0.error is Some
                } else if bytes.len() + 1 > n_out || bytes.len() + 1 > MAX_PATH_LENGTH {
                    r.0.code == SQLITE_CANTOPEN && r.0.error is Some
                } else {
                    r.0.code == SQLITE_OK && r.0.error is None && r.1@ == bytes.push(0u8)
                }
            },
        },
{
    let name = match result {
        Ok(name) => name,
        Err(err) => {
            return (Reply::fail(SQLITE_ERROR, err), Vec::new());
        },
    };
    let bytes = match c_string(name.as_str().as_bytes()) {
        Some(bytes) => bytes,
        None => {
            return (
                Reply::fail(SQLITE_ERROR, Error::other("name must not contain a nul byte")),
                Vec::new(),
            );
        },
    };
    if n_out < 0 || bytes.len() > n_out as usize || bytes.len() > MAX_PATH_LENGTH {
        return (
            Reply::fail(SQLITE_CANTOPEN, Error::other("full pathname is too long")),
            Vec::new(),
        );
    }
    (Reply::code(SQLITE_OK), bytes)
}

/// Find the full name of `path`: the backend is asked for it, and the
/// reply is what [`full_pathname_answered`] makes of its answer.
pub fn full_pathname<V: Vfs>(state: &State<V>, path: &str, n_out: i32) -> (r: (Reply, Vec<u8>))
    ensures
        exists|result: Result<String, Error>|
            call_ensures(V::full_pathname, (&*state.vfs, path), result)
                && full_pathname_answered(result, n_out, r.0, r.1@),
        r.0.code == SQLITE_OK || r.0.code == SQLITE_ERROR || r.0.code == SQLITE_CANTOPEN,
        (r.0.code == SQLITE_OK) == (r.0.error is None),
        r.0.code == SQLITE_OK ==> 1 <= r.1@.len() <= n_out && r.1@.len() <= MAX_PATH_LENGTH
            && r.1@.last() == 0 && forall|k: int| 0 <= k < r.1@.len() - 1 ==> r.1@[k] != 0,
{
    full_pathname_reply(state.vfs.full_pathname(path), n_out)
}

/// Fill a buffer of `len` bytes with random data. This is `Rng::fill` of
/// the crate `rand` on the generator that `rand::thread_rng` returns; all
/// that is known of the bytes is how many they are.
#[verifier::external_body]
fn random_bytes(len: usize) -> (bytes: Vec<u8>)
    ensures
        bytes@.len() == len,
{
    let mut bytes = vec![0u8; len];
    rand::Rng::fill(&mut rand::thread_rng(), &mut bytes[..]);
    bytes
}

/// `n_byte` bytes of random data, none if `n_byte` is negative. For the
/// sake of repeatable tests, all bytes are zero if `test_mode` is set.
pub fn randomness(n_byte: i32, test_mode: bool) -> (bytes: Vec<u8>)
    ensures
        bytes@.len() == if n_byte > 0 {
            n_byte as int
        } else {
            0
        },
        test_mode ==> forall|i: int| 0 <= i < bytes@.len() ==> bytes@[i] == 0,
{
    let len: usize = if n_byte > 0 {
        n_byte as usize
    } else {
        0
    };
    if test_mode {
        crate::wal_index::zeroed(len)
    } else {
        random_bytes(len)
    }
}

/// For how many microseconds to sleep when the engine asks for `n_micro`.
pub fn sleep_micros(n_micro: i32) -> (r: u64)
    ensures
        r == if n_micro > 0 {
            n_micro as int
        } else {
            0
        },
{
    if n_micro > 0 {
        n_micro as u64
    } else {
        0
    }
}

/// The number of microseconds to report after a sleep of `elapsed`
/// microseconds where `n_micro` were asked for: the time that has passed,
/// as far as the result can hold it. With `test_mode` set it is the time
/// that was asked for, whatever has passed.
pub fn sleep(n_micro: i32, elapsed: u128, test_mode: bool) -> (r: i32)
    ensures
        r == if test_mode {
            n_micro as int
        } else if elapsed > i32::MAX {
            i32::MAX as int
        } else {
            elapsed as int
        },
{
    if test_mode {
        n_micro
    } else if elapsed > i32::MAX as u128 {
        i32::MAX
    } else {
        elapsed as i32
    }
}

/// The time since the first of January 1970 in nanoseconds. This is
/// `unix_timestamp_nanos` of the crate `time` on what its
/// `OffsetDateTime::now_utc` returns: nothing is known of it.
#[verifier::external_body]
fn unix_nanos_now() -> i128 {
    time::OffsetDateTime::now_utc().unix_timestamp_nanos()
}

/// The Julian day number in milliseconds of a time given in milliseconds
/// since the first of January 1970, as far as the result can hold it.
pub open spec fn spec_julian_millis(unix_millis: int) -> i64 {
    if unix_millis + UNIX_EPOCH > i64::MAX {
        i64::MAX
    } else if unix_millis + UNIX_EPOCH < i64::MIN {
        i64::MIN
    } else {
        (unix_millis + UNIX_EPOCH) as i64
    }
}

/// The Julian day number in milliseconds of a time given in nanoseconds
/// since the first of January 1970.
pub fn julian_millis(unix_nanos: i128) -> (r: i64)
    ensures
        r == spec_julian_millis(unix_nanos as int / 1_000_000),
{
    let millis: i128 = if unix_nanos >= 0 {
        unix_nanos / 1_000_000
    } else if unix_nanos < -0x7fff_ffff_ffff_ffff_ffff_ffff_fff0_0000 {
        return i64::MIN;
    } else {
        let up: i128 = (999_999 - unix_nanos) / 1_000_000;
        -up
    };
    let julian: i128 = millis + UNIX_EPOCH as i128;
    if julian > i64::MAX as i128 {
        i64::MAX
    } else if julian < i64::MIN as i128 {
        i64::MIN
    } else {
        julian as i64
    }
}

/// The current time as a Julian day number in milliseconds. A positive
/// `test_time`, in seconds since the first of January 1970, takes the place
/// of the clock.
pub fn current_time_int64(test_time: i32) -> (r: i64)
    ensures
        test_time > 0 ==> r == test_time * 1000 + UNIX_EPOCH,
{
    if test_time > 0 {
        test_time as i64 * 1000 + UNIX_EPOCH
    } else {
        julian_millis(unix_nanos_now())
    }
}

/// What to hand to the engine when it asks for the last error: the result
/// code, and the message with a zero byte at its end. Without a last error
/// there is nothing to hand out. A message that holds a zero byte, or that
/// does not fit into the `n_byte` bytes that the engine has room for, is an
/// error itself.
pub fn get_last_error(last: Option<&Error>, n_byte: i32) -> (r: (i32, Option<Vec<u8>>))
    ensures
        match last {
            None => r.0 == SQLITE_OK && r.1 is None,
            Some(err) => {
                let bytes = encode_utf8(err.message@);
                if (exists|k: int| 0 <= k < bytes.len() && bytes[k] == 0) || bytes.len() + 1
                    > n_byte {
                    r.0 == SQLITE_ERROR && r.1 is None
                } else {
                    &&& r.0 == SQLITE_OK
                    &&& r.1 matches Some(message)
                    &&& message@ == bytes.push(0u8)
                }
            },
        },
{
    match last {
        None => (SQLITE_OK, None),
        Some(err) => {
            let message = match c_string(err.message.as_str().as_bytes()) {
                Some(message) => message,
                None => {
                    return (SQLITE_ERROR, None);
                },
            };
            if n_byte < 0 || message.len() > n_byte as usize {
                return (SQLITE_ERROR, None);
            }
            (SQLITE_OK, Some(message))
        },
    }
}

} // verus!
