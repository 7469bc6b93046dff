//! The callbacks of the database engine that concern one open file.
//!
//! Whoever owns the method table turns the pointers of the engine into
//! plain values, calls the function of this module that has the name of the
//! callback, stores the error of the [`Reply`] as the last error, and hands
//! the result code back to the engine.

use std::ops::Range;
use vstd::prelude::*;

use crate::backend::{DatabaseHandle, Vfs, WalIndex};
use crate::codes::{
    SQLITE_BUSY, SQLITE_DELETE, SQLITE_ERROR, SQLITE_FCNTL_BEGIN_ATOMIC_WRITE,
    SQLITE_FCNTL_BUSYHANDLER, SQLITE_FCNTL_CHUNK_SIZE, SQLITE_FCNTL_CKPT_DONE,
    SQLITE_FCNTL_CKPT_START, SQLITE_FCNTL_CKSM_FILE, SQLITE_FCNTL_COMMIT_ATOMIC_WRITE,
    SQLITE_FCNTL_COMMIT_PHASETWO, SQLITE_FCNTL_DATA_VERSION, SQLITE_FCNTL_EXTERNAL_READER,
    SQLITE_FCNTL_FILE_POINTER, SQLITE_FCNTL_GET_LOCKPROXYFILE, SQLITE_FCNTL_HAS_MOVED,
    SQLITE_FCNTL_JOURNAL_POINTER, SQLITE_FCNTL_LAST_ERRNO, SQLITE_FCNTL_LOCKSTATE,
    SQLITE_FCNTL_LOCK_TIMEOUT, SQLITE_FCNTL_MMAP_SIZE, SQLITE_FCNTL_OVERWRITE, SQLITE_FCNTL_PDB,
    SQLITE_FCNTL_PERSIST_WAL, SQLITE_FCNTL_POWERSAFE_OVERWRITE, SQLITE_FCNTL_PRAGMA,
    SQLITE_FCNTL_RBU, SQLITE_FCNTL_RESERVE_BYTES, SQLITE_FCNTL_ROLLBACK_ATOMIC_WRITE,
    SQLITE_FCNTL_SET_LOCKPROXYFILE, SQLITE_FCNTL_SIZE_HINT, SQLITE_FCNTL_SIZE_LIMIT,
    SQLITE_FCNTL_SYNC, SQLITE_FCNTL_SYNC_OMITTED, SQLITE_FCNTL_TEMPFILENAME, SQLITE_FCNTL_TRACE,
    SQLITE_FCNTL_VFSNAME, SQLITE_FCNTL_VFS_POINTER, SQLITE_FCNTL_WAL_BLOCK,
    SQLITE_FCNTL_WIN32_AV_RETRY, SQLITE_FCNTL_WIN32_GET_HANDLE, SQLITE_FCNTL_WIN32_SET_HANDLE,
    SQLITE_FCNTL_ZIPVFS, SQLITE_FULL, SQLITE_IOCAP_ATOMIC,
    SQLITE_IOCAP_POWERSAFE_OVERWRITE, SQLITE_IOCAP_SAFE_APPEND, SQLITE_IOCAP_SEQUENTIAL,
    SQLITE_IOERR_FSTAT, SQLITE_IOERR_FSYNC, SQLITE_IOERR_LOCK, SQLITE_IOERR_READ,
    SQLITE_IOERR_SHMLOCK, SQLITE_IOERR_SHMMAP, SQLITE_IOERR_SHORT_READ, SQLITE_IOERR_TRUNCATE,
    SQLITE_IOERR_UNLOCK, SQLITE_IOERR_WRITE, SQLITE_NOTFOUND, SQLITE_OK, SQLITE_SHM_EXCLUSIVE,
    SQLITE_SHM_LOCK,
    SQLITE_SYNC_DATAONLY,
};
use crate::error::{null_ptr_error, Error, ErrorKind, Reply};
use crate::lock::Lock;
use crate::vfs::{FileExt, FileView, MappedRegion};
use crate::wal_lock::{
    has_exclusive, has_exclusive_in, held_lock, holds_exclusive_in, record_band, WalIndexLock,
};

verus! {

/// The least multiple of `chunk` that is not below `size`, if it is in the
/// range of sizes; `size` itself where `chunk` is zero.
pub open spec fn spec_round_up(size: u64, chunk: usize) -> Option<u64> {
    if chunk == 0 {
        Some(size)
    } else {
        let rounded = (size + chunk - 1) / (chunk as int) * chunk;
        if rounded <= u64::MAX {
            Some(rounded as u64)
        } else {
            None
        }
    }
}

/// What [`spec_round_up`] computes is the least multiple of the chunk size
/// that is not below the size.
pub proof fn lemma_round_up(size: u64, chunk: usize)
    requires
        chunk > 0,
    ensures
        ({
            let rounded = (size + chunk - 1) / (chunk as int) * chunk;
            &&& rounded % (chunk as int) == 0
            &&& size <= rounded < size + chunk
        }),
{
    let c = chunk as int;
    let x = size + chunk - 1;
    let q = x / c;
    vstd::arithmetic::div_mod::lemma_fundamental_div_mod(x, c);
    vstd::arithmetic::div_mod::lemma_mod_bound(x, c);
    assert(q * c == c * q) by (nonlinear_arith);
    vstd::arithmetic::div_mod::lemma_mod_multiples_basic(q, c);
}

/// Round `size` up to a multiple of `chunk`.
pub fn round_up(size: u64, chunk: usize) -> (r: Option<u64>)
    ensures
        r == spec_round_up(size, chunk),
{
    if chunk == 0 {
        return Some(size);
    }
    let c: u128 = chunk as u128;
    let x: u128 = size as u128 + c - 1;
    let q: u128 = x / c;
    proof {
        lemma_round_up(size, chunk);
        assert(q == (size + chunk - 1) / (chunk as int));
    }
    let rounded: u128 = q * c;
    if rounded <= u64::MAX as u128 {
        Some(rounded as u64)
    } else {
        None
    }
}

/// The size to give a file that is asked to have `size` bytes, where it
/// grows and shrinks in chunks of `chunk_size`.
pub open spec fn spec_chunked(size: u64, chunk_size: Option<usize>) -> Option<u64> {
    match chunk_size {
        Some(chunk) => spec_round_up(size, chunk),
        None => Some(size),
    }
}

/// The size to give a file that is asked to have `size` bytes.
pub fn chunked(size: u64, chunk_size: Option<usize>) -> (r: Option<u64>)
    ensures
        r == spec_chunked(size, chunk_size),
{
    match chunk_size {
        Some(chunk) => round_up(size, chunk),
        None => Some(size),
    }
}

/// The reply to a request whose failure is reported with `code`, given
/// what the backend answered.
pub open spec fn spec_reply_or(result: Result<(), Error>, code: i32) -> Reply {
    match result {
        Ok(_) => Reply { code: SQLITE_OK, error: None },
        Err(err) => Reply { code, error: Some(err) },
    }
}

/// The reply to a request whose failure is reported with `code`.
pub fn reply_or<V, F>(state: &mut FileExt<V, F>, result: Result<(), Error>, code: i32) -> (reply:
    Reply)
    ensures
        reply == spec_reply_or(result, code),
        final(state).file == old(state).file,
        final(state).wal_index == old(state).wal_index,
        match result {
            Ok(_) => reply.code == SQLITE_OK && reply.error is None && final(state)@ == old(
                state,
            )@,
            Err(err) => reply.code == code && reply.error == Some(err) && final(state)@
                == (FileView { last_errno: code, ..old(state)@ }),
        },
{
    match result {
        Ok(_) => Reply::code(SQLITE_OK),
        Err(err) => state.set_last_error(code, err),
    }
}

/// The reply to a request to close a file, given what the backend answered
/// where it was asked to delete the file, `None` where it was not asked: a
/// failure to delete the file is answered with [`SQLITE_DELETE`].
pub open spec fn spec_close_reply(deleted: Option<Result<(), Error>>) -> Reply {
    match deleted {
        Some(Err(err)) => Reply { code: SQLITE_DELETE, error: Some(err) },
        _ => Reply { code: SQLITE_OK, error: None },
    }
}

/// The reply to a request to close a file, given what the backend answered
/// where it was asked to delete the file, `None` where it was not asked: a
/// failure to delete the file is answered with [`SQLITE_DELETE`].
pub fn close_reply(deleted: Option<Result<(), Error>>) -> (reply: Reply)
    ensures
        reply == spec_close_reply(deleted),
        match deleted {
            Some(Err(err)) => reply.code == SQLITE_DELETE && reply.error == Some(err),
            _ => reply.code == SQLITE_OK && reply.error is None,
        },
{
    match deleted {
        Some(Err(err)) => Reply::fail(SQLITE_DELETE, err),
        _ => Reply::code(SQLITE_OK),
    }
}

/// Close a file: if it was opened to be deleted on close, the backend is
/// asked to delete the file under the name it was opened with, and the
/// reply is what [`spec_close_reply`] makes of its answer. A file that is
/// to stay is closed without a word to the backend. The state of the file
/// is given up either way.
pub fn close<V: Vfs, F>(state: FileExt<V, F>) -> (reply: Reply)
    ensures
        reply.code == SQLITE_OK || reply.code == SQLITE_DELETE,
        !state@.delete_on_close ==> reply.code == SQLITE_OK,
        (reply.code == SQLITE_OK) == (reply.error is None),
        !state@.delete_on_close ==> reply == spec_close_reply(None),
        state@.delete_on_close ==> exists|name: &str, result: Result<(), Error>|
            name@ == state@.db_name && call_ensures(V::delete, (&*state.vfs, name), result)
                && reply == spec_close_reply(Some(result)),
{
    let deleted = if state.delete_on_close {
        Some(state.vfs.delete(state.db_name.as_str()))
    } else {
        None
    };
    close_reply(deleted)
}

/// The reply to a read, given what the backend answered: a read that hit
/// the end of the file is told apart from other failures, and is not kept
/// as the last error.
pub open spec fn spec_read_reply(result: Result<(), Error>) -> Reply {
    match result {
        Ok(_) => Reply { code: SQLITE_OK, error: None },
        Err(err) => if err.kind == ErrorKind::UnexpectedEof {
            Reply { code: SQLITE_IOERR_SHORT_READ, error: None }
        } else {
            Reply { code: SQLITE_IOERR_READ, error: Some(err) }
        },
    }
}

/// The reply to a read, given what the backend answered: a read that hit
/// the end of the file is told apart from other failures, and is not kept
/// as the last error.
pub fn read_reply<V, F>(state: &mut FileExt<V, F>, result: Result<(), Error>) -> (reply: Reply)
    ensures
        reply == spec_read_reply(result),
        final(state).file == old(state).file,
        final(state).wal_index == old(state).wal_index,
        match result {
            Ok(_) => reply.code == SQLITE_OK && reply.error is None && final(state)@ == old(
                state,
            )@,
            Err(err) => if err.kind == ErrorKind::UnexpectedEof {
                reply.code == SQLITE_IOERR_SHORT_READ && reply.error is None && final(state)@
                    == old(state)@
            } else {
                reply.code == SQLITE_IOERR_READ && reply.error == Some(err) && final(state)@
                    == (FileView { last_errno: SQLITE_IOERR_READ, ..old(state)@ })
            },
        },
{
    match result {
        Ok(_) => Reply::code(SQLITE_OK),
        Err(err) => {
            if matches!(err.kind(), ErrorKind::UnexpectedEof) {
                Reply::code(SQLITE_IOERR_SHORT_READ)
            } else {
                state.set_last_error(SQLITE_IOERR_READ, err)
            }
        },
    }
}

/// The error for an offset or a size below zero.
fn negative_error() -> (r: Error)
    ensures
        r.kind == ErrorKind::Other,
{
    Error::other("offset or size is negative")
}

/// Read data from a file: the backend is asked to fill `buf` with the
/// bytes at `offset`, and the reply is what [`spec_read_reply`] makes of its
/// answer. A negative offset is answered with [`SQLITE_IOERR_READ`], and
/// the backend is not asked.
pub fn read<V, F: DatabaseHandle>(state: &mut FileExt<V, F>, buf: &mut [u8], offset: i64) -> (reply:
    Reply)
    ensures
        final(state).file == old(state).file,
        final(state).wal_index == old(state).wal_index,
        offset < 0 ==> final(buf)@ == old(buf)@,
        offset >= 0 ==> exists|out: &mut [u8], at: u64, result: Result<(), Error>|
            out@ == old(buf)@ && final(out)@ == final(buf)@ && at == offset && call_ensures(
                F::read_exact_at,
                (&old(state).file, out, at),
                result,
            ) && reply == spec_read_reply(result),
        reply.code == SQLITE_OK || reply.code == SQLITE_IOERR_SHORT_READ || reply.code
            == SQLITE_IOERR_READ,
        offset < 0 ==> reply.code == SQLITE_IOERR_READ,
        (reply.code == SQLITE_IOERR_READ) == (reply.error is Some),
        final(state)@ == (FileView { last_errno: final(state)@.last_errno, ..old(state)@ }),
        final(state)@.last_errno == if reply.code == SQLITE_IOERR_READ {
            SQLITE_IOERR_READ
        } else {
            old(state)@.last_errno
        },
{
    if offset < 0 {
        return state.set_last_error(SQLITE_IOERR_READ, negative_error());
    }
    let out: &mut [u8] = &mut *buf;
    let result = state.file.read_exact_at(out, offset as u64);
    read_reply(state, result)
}

/// The reply to a write, given what the backend answered: a write that
/// stored nothing means that the storage is full, and is not kept as the
/// last error.
pub open spec fn spec_write_reply(result: Result<(), Error>) -> Reply {
    match result {
        Ok(_) => Reply { code: SQLITE_OK, error: None },
        Err(err) => if err.kind == ErrorKind::WriteZero {
            Reply { code: SQLITE_FULL, error: None }
        } else {
            Reply { code: SQLITE_IOERR_WRITE, error: Some(err) }
        },
    }
}

/// The reply to a write, given what the backend answered: a write that
/// stored nothing means that the storage is full, and is not kept as the
/// last error.
pub fn write_reply<V, F>(state: &mut FileExt<V, F>, result: Result<(), Error>) -> (reply: Reply)
    ensures
        reply == spec_write_reply(result),
        final(state).file == old(state).file,
        final(state).wal_index == old(state).wal_index,
        match result {
            Ok(_) => reply.code == SQLITE_OK && reply.error is None && final(state)@ == old(
                state,
            )@,
            Err(err) => if err.kind == ErrorKind::WriteZero {
                reply.code == SQLITE_FULL && reply.error is None && final(state)@ == old(state)@
            } else {
                reply.code == SQLITE_IOERR_WRITE && reply.error == Some(err) && final(state)@
                    == (FileView { last_errno: SQLITE_IOERR_WRITE, ..old(state)@ })
            },
        },
{
    match result {
        Ok(_) => Reply::code(SQLITE_OK),
        Err(err) => {
            if matches!(err.kind(), ErrorKind::WriteZero) {
                Reply::code(SQLITE_FULL)
            } else {
                state.set_last_error(SQLITE_IOERR_WRITE, err)
            }
        },
    }
}

/// Write data to a file: the backend is asked to store `data` at `offset`,
/// and the reply is what [`spec_write_reply`] makes of its answer. A
/// negative offset is answered with [`SQLITE_IOERR_WRITE`], and the backend
/// is not asked.
pub fn write<V, F: DatabaseHandle>(state: &mut FileExt<V, F>, data: &[u8], offset: i64) -> (reply:
    Reply)
    ensures
        final(state).wal_index == old(state).wal_index,
        offset < 0 ==> final(state).file == old(state).file,
        offset >= 0 ==> exists|file: &mut F, result: Result<(), Error>|
            *file == old(state).file && *final(file) == final(state).file && call_ensures(
                F::write_all_at,
                (file, data, offset as u64),
                result,
            ) && reply == spec_write_reply(result),
        reply.code == SQLITE_OK || reply.code == SQLITE_FULL || reply.code == SQLITE_IOERR_WRITE,
        offset < 0 ==> reply.code == SQLITE_IOERR_WRITE,
        (reply.code == SQLITE_IOERR_WRITE) == (reply.error is Some),
        final(state)@ == (FileView { last_errno: final(state)@.last_errno, ..old(state)@ }),
        final(state)@.last_errno == if reply.code == SQLITE_IOERR_WRITE {
            SQLITE_IOERR_WRITE
        } else {
            old(state)@.last_errno
        },
{
    if offset < 0 {
        return state.set_last_error(SQLITE_IOERR_WRITE, negative_error());
    }
    let result = state.file.write_all_at(data, offset as u64);
    write_reply(state, result)
}

/// The size that the backend is asked to give the file when the engine asks
/// for `size` bytes: `size` rounded up to a multiple of the chunk size, if
/// one is set; `None` if `size` is negative or the rounded size is out of
/// range.
pub open spec fn spec_truncate_size(size: i64, chunk_size: Option<usize>) -> Option<u64> {
    if size < 0 {
        None
    } else {
        spec_chunked(size as u64, chunk_size)
    }
}

/// The size that the backend is asked to give the file when the engine asks
/// for `size` bytes.
pub fn truncate_size(size: i64, chunk_size: Option<usize>) -> (r: Option<u64>)
    ensures
        r == spec_truncate_size(size, chunk_size),
{
    if size < 0 {
        None
    } else {
        chunked(size as u64, chunk_size)
    }
}

/// Truncate a file: the backend is asked to set the length of the file to
/// `size` bytes, rounded up to a multiple of the chunk size if one is set,
/// and the reply is what [`spec_reply_or`] makes of its answer. A size that
/// is negative, or out of range once it is rounded, is answered with
/// [`SQLITE_IOERR_TRUNCATE`], and the backend is not asked.
pub fn truncate<V, F: DatabaseHandle>(state: &mut FileExt<V, F>, size: i64) -> (reply: Reply)
    ensures
        final(state).wal_index == old(state).wal_index,
        spec_truncate_size(size, old(state)@.chunk_size) is None ==> final(state).file == old(
            state,
        ).file,
        spec_truncate_size(size, old(state)@.chunk_size) matches Some(len) ==> exists|
            file: &mut F,
            result: Result<(), Error>,
        |
            *file == old(state).file && *final(file) == final(state).file && call_ensures(
                F::set_len,
                (file, len),
                result,
            ) && reply == spec_reply_or(result, SQLITE_IOERR_TRUNCATE),
        reply.code == SQLITE_OK || reply.code == SQLITE_IOERR_TRUNCATE,
        spec_truncate_size(size, old(state)@.chunk_size) is None ==> reply.code
            == SQLITE_IOERR_TRUNCATE,
        (reply.code == SQLITE_OK) == (reply.error is None),
        final(state)@ == (FileView { last_errno: final(state)@.last_errno, ..old(state)@ }),
        final(state)@.last_errno == if reply.code == SQLITE_OK {
            old(state)@.last_errno
        } else {
            SQLITE_IOERR_TRUNCATE
        },
{
    match truncate_size(size, state.chunk_size) {
        Some(size) => {
            let result = state.file.set_len(size);
            reply_or(state, result, SQLITE_IOERR_TRUNCATE)
        },
        None => state.set_last_error(SQLITE_IOERR_TRUNCATE, Error::other("size is out of range")),
    }
}

/// Whether the flags of a sync ask for the data only.
pub fn sync_data_only(flags: i32) -> (r: bool)
    ensures
        r == (flags & SQLITE_SYNC_DATAONLY > 0),
{
    flags & SQLITE_SYNC_DATAONLY > 0
}

/// Persist changes to a file: the backend is asked to sync the file, only
/// its data if the flags say so, and the reply is what [`spec_reply_or`]
/// makes of its answer, with [`SQLITE_IOERR_FSYNC`] for a failure.
pub fn sync<V, F: DatabaseHandle>(state: &mut FileExt<V, F>, flags: i32) -> (reply: Reply)
    ensures
        final(state).wal_index == old(state).wal_index,
        exists|file: &mut F, result: Result<(), Error>|
            *file == old(state).file && *final(file) == final(state).file && call_ensures(
                F::sync,
                (file, flags & SQLITE_SYNC_DATAONLY > 0),
                result,
            ) && reply == spec_reply_or(result, SQLITE_IOERR_FSYNC),
        reply.code == SQLITE_OK || reply.code == SQLITE_IOERR_FSYNC,
        (reply.code == SQLITE_OK) == (reply.error is None),
        final(state)@ == (FileView { last_errno: final(state)@.last_errno, ..old(state)@ }),
        final(state)@.last_errno == if reply.code == SQLITE_OK {
            old(state)@.last_errno
        } else {
            SQLITE_IOERR_FSYNC
        },
{
    let result = state.file.sync(sync_data_only(flags));
    reply_or(state, result, SQLITE_IOERR_FSYNC)
}

/// The reply to a request for the size of a file, and the size to report,
/// given what the backend answered. `has_out` says whether the engine gave
/// room for the size. A size beyond the range of the result is reported as
/// the greatest size in range.
pub open spec fn file_size_answered(result: Result<u64, Error>, has_out: bool, r: (Reply, i64)) -> bool {
    match result {
        Ok(size) => if has_out {
            r.0 == (Reply { code: SQLITE_OK, error: None }) && r.1 == if size > i64::MAX {
                i64::MAX as int
            } else {
                size as int
            }
        } else {
            r.0.code == SQLITE_IOERR_FSTAT && r.0.error is Some
        },
        Err(err) => r.0 == Reply { code: SQLITE_IOERR_FSTAT, error: Some(err) },
    }
}

/// The reply to a request for the size of a file, and the size to report,
/// given what the backend answered, as [`file_size_answered`] says. A
/// failure is kept as the last error of the file.
pub fn file_size_reply<V, F>(
    state: &mut FileExt<V, F>,
    result: Result<u64, Error>,
    has_out: bool,
) -> (r: (Reply, i64))
    ensures
        file_size_answered(result, has_out, r),
        final(state).file == old(state).file,
        final(state).wal_index == old(state).wal_index,
        match result {
            Ok(size) => if has_out {
                &&& r.0.code == SQLITE_OK
                &&& r.0.error is None
                &&& r.1 == if size > i64::MAX {
                    i64::MAX as int
                } else {
                    size as int
                }
                &&& final(state)@ == old(state)@
            } else {
                &&& r.0.code == SQLITE_IOERR_FSTAT
                &&& r.0.error is Some
                &&& final(state)@ == (FileView { last_errno: SQLITE_IOERR_FSTAT, ..old(state)@ })
            },
            Err(err) => {
                &&& r.0.code == SQLITE_IOERR_FSTAT
                &&& r.0.error == Some(err)
                &&& final(state)@ == (FileView { last_errno: SQLITE_IOERR_FSTAT, ..old(state)@ })
            },
        },
{
    match result {
        Ok(size) => {
            if has_out {
                (
                    Reply::code(SQLITE_OK),
                    if size > i64::MAX as u64 {
                        i64::MAX
                    } else {
                        size as i64
                    },
                )
            } else {
                (state.set_last_error(SQLITE_IOERR_FSTAT, null_ptr_error()), 0)
            }
        },
        Err(err) => (state.set_last_error(SQLITE_IOERR_FSTAT, err), 0),
    }
}

/// Return the current size of a file: the backend is asked for it, and the
/// reply is what [`file_size_answered`] makes of its answer.
pub fn file_size<V, F: DatabaseHandle>(state: &mut FileExt<V, F>, has_out: bool) -> (r: (
    Reply,
    i64,
))
    ensures
        final(state).file == old(state).file,
        final(state).wal_index == old(state).wal_index,
        exists|result: Result<u64, Error>|
            call_ensures(F::size, (&old(state).file,), result) && file_size_answered(
                result,
                has_out,
                r,
            ),
        r.0.code == SQLITE_OK || r.0.code == SQLITE_IOERR_FSTAT,
        !has_out ==> r.0.code == SQLITE_IOERR_FSTAT,
        (r.0.code == SQLITE_OK) == (r.0.error is None),
        r.0.code == SQLITE_OK ==> r.1 >= 0,
        final(state)@ == (FileView { last_errno: final(state)@.last_errno, ..old(state)@ }),
        final(state)@.last_errno == if r.0.code == SQLITE_OK {
            old(state)@.last_errno
        } else {
            SQLITE_IOERR_FSTAT
        },
{
    let result = state.file.size();
    file_size_reply(state, result, has_out)
}

/// How the mapped regions of the WAL index and the backend are brought in
/// line.
#[derive(Debug, Clone, Copy, PartialEq, Eq, Structural)]
pub enum WalSync {
    /// Bring the mapped regions up to date with the backend.
    Pull,
    /// Store the mapped regions in the backend.
    Push,
    /// Leave both as they are.
    Nothing,
}

/// What is done about the mapped regions before the backend is asked for a
/// lock on the band `start..end`: before a lock is acquired, they are
/// pulled unless the file holds an exclusive lock on some region; before a
/// lock is released, they are pushed if the file holds an exclusive lock
/// within the band.
pub open spec fn spec_sync_before_shm_lock(
    locks: Map<u8, WalIndexLock>,
    start: u8,
    end: u8,
    locking: bool,
) -> WalSync {
    if locking {
        if holds_exclusive_in(locks, 0, 256) {
            WalSync::Nothing
        } else {
            WalSync::Pull
        }
    } else if holds_exclusive_in(locks, start as int, end as int) {
        WalSync::Push
    } else {
        WalSync::Nothing
    }
}

/// What is done about the mapped regions at a memory barrier: a file with
/// the exclusive lock on the database pushes them; else they are pulled
/// unless the file holds an exclusive lock on some region.
pub open spec fn spec_sync_at_barrier(
    has_exclusive_lock: bool,
    locks: Map<u8, WalIndexLock>,
) -> WalSync {
    if has_exclusive_lock {
        WalSync::Push
    } else if holds_exclusive_in(locks, 0, 256) {
        WalSync::Nothing
    } else {
        WalSync::Pull
    }
}

/// What is done about the mapped regions after a request for a lock on the
/// database was answered with `code`: once the exclusive lock is granted
/// they are pulled, for the file is about to read what counts.
pub open spec fn spec_sync_after_lock(code: i32, has_exclusive_lock: bool) -> WalSync {
    if code == SQLITE_OK && has_exclusive_lock {
        WalSync::Pull
    } else {
        WalSync::Nothing
    }
}

impl<V, F> FileExt<V, F> {
    /// What is done about the mapped regions before the backend is asked
    /// for a lock on the band `start..end`.
    pub fn sync_before_shm_lock(&self, start: u8, end: u8, locking: bool) -> (sync: WalSync)
        ensures
            sync == spec_sync_before_shm_lock(self@.locks, start, end, locking),
    {
        if locking {
            if has_exclusive(&self.wal_index_locks) {
                WalSync::Nothing
            } else {
                WalSync::Pull
            }
        } else if has_exclusive_in(&self.wal_index_locks, start, end) {
            WalSync::Push
        } else {
            WalSync::Nothing
        }
    }

    /// What is done about the mapped regions at a memory barrier.
    pub fn sync_at_barrier(&self) -> (sync: WalSync)
        ensures
            sync == spec_sync_at_barrier(self@.has_exclusive_lock, self@.locks),
    {
        if self.has_exclusive_lock {
            WalSync::Push
        } else if has_exclusive(&self.wal_index_locks) {
            WalSync::Nothing
        } else {
            WalSync::Pull
        }
    }

    /// What is done about the mapped regions after a request for a lock on
    /// the database was answered with `code`.
    pub fn sync_after_lock(&self, code: i32) -> (sync: WalSync)
        ensures
            sync == spec_sync_after_lock(code, self@.has_exclusive_lock),
    {
        if code == SQLITE_OK && self.has_exclusive_lock {
            WalSync::Pull
        } else {
            WalSync::Nothing
        }
    }
}

/// What one call of the backend for a mapped region led to: the file
/// before and after the call, the block of the region after the call, and
/// what the backend answered.
pub struct Synced<F> {
    pub before: F,
    pub file: F,
    pub block: [u8; 32768],
    pub result: Result<(), Error>,
}

/// The file after the calls `steps`: as the last call left it, or as it was
/// where there was no call.
pub open spec fn file_after<F>(file: F, steps: Seq<Synced<F>>) -> F {
    if steps.len() == 0 {
        file
    } else {
        steps.last().file
    }
}

/// Whether every call of `steps` was handed the file as the call before
/// left it, and the first call the file `file`.
pub open spec fn chained<F>(file: F, steps: Seq<Synced<F>>) -> bool
    decreases steps.len(),
{
    steps.len() == 0 || (chained(file, steps.drop_last()) && steps.last().before == file_after(
        file,
        steps.drop_last(),
    ))
}

/// Whether `steps` has a call for each of the mapped regions `regions` of
/// the file `file`, in the order in which they were mapped, each with the
/// file as the call before left it, or ends early: with `stop` set, the
/// first failure is the last call.
pub open spec fn trace_ends<F>(
    file: F,
    regions: Seq<MappedRegion>,
    stop: bool,
    steps: Seq<Synced<F>>,
) -> bool {
    &&& chained(file, steps)
    &&& steps.len() <= regions.len()
    &&& stop ==> forall|k: int| 0 <= k < steps.len() - 1 ==> (#[trigger] steps[k]).result is Ok
    &&& steps.len() < regions.len() ==> stop && steps.len() > 0 && steps.last().result is Err
}

/// The first error among the answers of the backend, if there is one.
pub open spec fn first_error<F>(steps: Seq<Synced<F>>) -> Option<Error>
    decreases steps.len(),
{
    if steps.len() == 0 {
        None
    } else {
        match first_error(steps.drop_last()) {
            Some(err) => Some(err),
            None => match steps.last().result {
                Err(err) => Some(err),
                Ok(_) => None,
            },
        }
    }
}

/// The mapped regions after the calls `steps`: every region that had its
/// call holds the block that the call left.
pub open spec fn regions_after<F>(regions: Seq<MappedRegion>, steps: Seq<Synced<F>>) -> Seq<
    MappedRegion,
> {
    Seq::new(
        regions.len(),
        |k: int|
            if k < steps.len() {
                MappedRegion { region: regions[k].region, data: Box::new(steps[k].block) }
            } else {
                regions[k]
            },
    )
}

/// Whether `after` and `r` are what the calls `steps` of the backend make
/// of the file `before`: the file of the backend is as the last call left
/// it, the regions hold the blocks that the calls left, and `r` is the
/// first error that the backend answered. What the shim knows of the file
/// stays as it is.
pub open spec fn synced_state<V, F>(
    before: FileExt<V, F>,
    steps: Seq<Synced<F>>,
    after: FileExt<V, F>,
    r: Option<Error>,
) -> bool {
    &&& after.file == file_after(before.file, steps)
    &&& after.wal_index@ == regions_after(before.wal_index@, steps)
    &&& after@ == before@
    &&& r == first_error(steps)
}

/// Bring the mapped regions and the backend in line as `sync` says: pull
/// them as [`pull_mapped`] does, push them as [`push_mapped`] does, or
/// leave everything as it is. With `stop` set, the first failure ends the
/// work. The first error is handed back.
pub fn sync_mapped<V, F: DatabaseHandle>(
    state: &mut FileExt<V, F>,
    sync: WalSync,
    stop: bool,
) -> (r: Option<Error>)
    ensures
        final(state)@ == old(state)@,
        sync == WalSync::Nothing ==> r is None && final(state).wal_index == old(state).wal_index,
        sync == WalSync::Nothing ==> *final(state) == *old(state),
        sync == WalSync::Pull ==> exists|steps: Seq<Synced<F>>|
            {
                &&& #[trigger] trace_ends(
                    old(state).file,
                    old(state).wal_index@,
                    stop,
                    steps,
                )
                &&& synced_state(*old(state), steps, *final(state), r)
                &&& forall|k: int|
                    #![trigger steps[k]]
                    0 <= k < steps.len() ==> exists|handle: &mut F, data: &mut [u8; 32768]|
                        *handle == steps[k].before && *final(handle) == steps[k].file && *data
                            == *old(state).wal_index@[k].data && *final(data)
                            == steps[k].block && call_ensures(
                            <F::WalIndex as WalIndex<F>>::pull,
                            (handle, old(state).wal_index@[k].region, data),
                            steps[k].result,
                        )
            },
        sync == WalSync::Push ==> exists|steps: Seq<Synced<F>>|
            {
                &&& #[trigger] trace_ends(
                    old(state).file,
                    old(state).wal_index@,
                    stop,
                    steps,
                )
                &&& synced_state(*old(state), steps, *final(state), r)
                &&& forall|k: int|
                    #![trigger steps[k]]
                    0 <= k < steps.len() ==> exists|handle: &mut F|
                        *handle == steps[k].before && *final(handle) == steps[k].file
                            && steps[k].block == *old(state).wal_index@[k].data && call_ensures(
                            <F::WalIndex as WalIndex<F>>::push,
                            (
                                handle,
                                old(state).wal_index@[k].region,
                                &*old(state).wal_index@[k].data,
                            ),
                            steps[k].result,
                        )
            },
{
    match sync {
        WalSync::Pull => pull_mapped(state, stop),
        WalSync::Push => push_mapped(state, stop),
        WalSync::Nothing => None,
    }
}

/// Bring the block of every mapped region up to date with the backend.
///
/// The backend is asked to pull every mapped region in turn, in the order
/// in which they were mapped, each time with the file as the call before
/// left it and with the block of the region. With `stop` set, the first
/// failure ends the work. Afterwards the regions hold what the calls left
/// in their blocks, and the first error that the backend answered is
/// handed back.
pub fn pull_mapped<V, F: DatabaseHandle>(state: &mut FileExt<V, F>, stop: bool) -> (r: Option<
    Error,
>)
    ensures
        final(state)@ == old(state)@,
        exists|steps: Seq<Synced<F>>|
            {
                &&& #[trigger] trace_ends(
                    old(state).file,
                    old(state).wal_index@,
                    stop,
                    steps,
                )
                &&& synced_state(*old(state), steps, *final(state), r)
                &&& forall|k: int|
                    #![trigger steps[k]]
                    0 <= k < steps.len() ==> exists|handle: &mut F, data: &mut [u8; 32768]|
                        *handle == steps[k].before && *final(handle) == steps[k].file && *data
                            == *old(state).wal_index@[k].data && *final(data)
                            == steps[k].block && call_ensures(
                            <F::WalIndex as WalIndex<F>>::pull,
                            (handle, old(state).wal_index@[k].region, data),
                            steps[k].result,
                        )
            },
{
    let mut first: Option<Error> = None;
    let mut i: usize = 0;
    let ghost mut steps: Seq<Synced<F>> = Seq::empty();
    let ghost regions = state.wal_index@;
    assert(state.wal_index@ =~= regions_after(regions, steps));
    while i < state.wal_index.len()
        invariant
            state@ == old(state)@,
            regions == old(state).wal_index@,
            i == steps.len(),
            i <= regions.len(),
            state.wal_index@ == regions_after(regions, steps),
            chained(old(state).file, steps),
            state.file == file_after(old(state).file, steps),
            forall|k: int|
                #![trigger steps[k]]
                0 <= k < steps.len() ==> exists|handle: &mut F, data: &mut [u8; 32768]|
                        *handle == steps[k].before && *final(handle) == steps[k].file && *data
                            == *regions[k].data && *final(data) == steps[k].block && call_ensures(
                            <F::WalIndex as WalIndex<F>>::pull,
                            (handle, regions[k].region, data),
                            steps[k].result,
                        ),
            forall|k: int| 0 <= k < steps.len() ==> (#[trigger] steps[k]).result is Ok || !stop,
            first == first_error(steps),
        decreases state.wal_index.len() - i,
    {
        let ghost before = state@;
        let ghost earlier = steps;
        let ghost file = state.file;
        let ghost block = *state.wal_index@[i as int].data;
        let region = state.wal_index[i].region;
        assert(block == *regions[i as int].data && region == regions[i as int].region);
        let data: &mut [u8; 32768] = &mut *state.wal_index[i].data;
        let result = F::WalIndex::pull(&mut state.file, region, data);
        proof {
            let step = Synced {
                before: file,
                file: state.file,
                block: *state.wal_index@[i as int].data,
                result,
            };
            assert(exists|handle: &mut F, data: &mut [u8; 32768]|
                *handle == file && *final(handle) == step.file && *data == block && *final(data)
                    == step.block && call_ensures(
                    <F::WalIndex as WalIndex<F>>::pull,
                    (handle, region, data),
                    step.result,
                ));
            assert(state@.mapped =~= before.mapped);
            steps = steps.push(step);
            assert(steps.drop_last() =~= earlier);
            assert(state.wal_index@ =~= regions_after(regions, steps));
            assert forall|k: int|
                #![trigger steps[k]]
                0 <= k < steps.len() implies exists|handle: &mut F, data: &mut [u8; 32768]|
                        *handle == steps[k].before && *final(handle) == steps[k].file && *data
                            == *regions[k].data && *final(data) == steps[k].block && call_ensures(
                            <F::WalIndex as WalIndex<F>>::pull,
                            (handle, regions[k].region, data),
                            steps[k].result,
                        ) by {
                if k < i {
                    assert(steps[k] == earlier[k]);
                }
            }
        }
        if let Err(err) = result {
            if first.is_none() {
                first = Some(err);
            }
            if stop {
                proof {
                    assert forall|k: int| 0 <= k < steps.len() - 1 implies (
                    #[trigger] steps[k]).result is Ok by {
                        assert(earlier[k].result is Ok || !stop);
                    }
                    assert(trace_ends(old(state).file, regions, stop, steps));
                }
                return first;
            }
        }
        i += 1;
    }
    proof {
        assert(trace_ends(old(state).file, regions, stop, steps));
    }
    first
}

/// Store the block of every mapped region in the backend.
///
/// The backend is asked to push every mapped region in turn, in the order
/// in which they were mapped, each time with the file as the call before
/// left it and with the block of the region. With `stop` set, the first
/// failure ends the work. The regions stay as they are, and the first
/// error that the backend answered is handed back.
pub fn push_mapped<V, F: DatabaseHandle>(state: &mut FileExt<V, F>, stop: bool) -> (r: Option<
    Error,
>)
    ensures
        final(state)@ == old(state)@,
        final(state).wal_index == old(state).wal_index,
        exists|steps: Seq<Synced<F>>|
            {
                &&& #[trigger] trace_ends(
                    old(state).file,
                    old(state).wal_index@,
                    stop,
                    steps,
                )
                &&& synced_state(*old(state), steps, *final(state), r)
                &&& forall|k: int|
                    #![trigger steps[k]]
                    0 <= k < steps.len() ==> exists|handle: &mut F|
                        *handle == steps[k].before && *final(handle) == steps[k].file
                            && steps[k].block == *old(state).wal_index@[k].data && call_ensures(
                            <F::WalIndex as WalIndex<F>>::push,
                            (
                                handle,
                                old(state).wal_index@[k].region,
                                &*old(state).wal_index@[k].data,
                            ),
                            steps[k].result,
                        )
            },
{
    let mut first: Option<Error> = None;
    let mut i: usize = 0;
    let ghost mut steps: Seq<Synced<F>> = Seq::empty();
    let ghost regions = state.wal_index@;
    while i < state.wal_index.len()
        invariant
            state@ == old(state)@,
            state.wal_index == old(state).wal_index,
            regions == old(state).wal_index@,
            i == steps.len(),
            i <= regions.len(),
            chained(old(state).file, steps),
            state.file == file_after(old(state).file, steps),
            forall|k: int|
                #![trigger steps[k]]
                0 <= k < steps.len() ==> exists|handle: &mut F|
                        *handle == steps[k].before && *final(handle) == steps[k].file
                            && steps[k].block == *regions[k].data && call_ensures(
                            <F::WalIndex as WalIndex<F>>::push,
                            (handle, regions[k].region, &*regions[k].data),
                            steps[k].result,
                        ),
            forall|k: int| 0 <= k < steps.len() ==> (#[trigger] steps[k]).result is Ok || !stop,
            first == first_error(steps),
        decreases state.wal_index.len() - i,
    {
        let ghost earlier = steps;
        let ghost file = state.file;
        let region = state.wal_index[i].region;
        let data: &[u8; 32768] = &*state.wal_index[i].data;
        let result = F::WalIndex::push(&mut state.file, region, data);
        proof {
            let step = Synced {
                before: file,
                file: state.file,
                block: *state.wal_index@[i as int].data,
                result,
            };
            assert(exists|handle: &mut F|
                *handle == file && *final(handle) == step.file && call_ensures(
                    <F::WalIndex as WalIndex<F>>::push,
                    (handle, regions[i as int].region, &*regions[i as int].data),
                    step.result,
                ));
            steps = steps.push(step);
            assert(steps.drop_last() =~= earlier);
            assert forall|k: int|
                #![trigger steps[k]]
                0 <= k < steps.len() implies exists|handle: &mut F|
                        *handle == steps[k].before && *final(handle) == steps[k].file
                            && steps[k].block == *regions[k].data && call_ensures(
                            <F::WalIndex as WalIndex<F>>::push,
                            (handle, regions[k].region, &*regions[k].data),
                            steps[k].result,
                        ) by {
                if k < i {
                    assert(steps[k] == earlier[k]);
                }
            }
        }
        if let Err(err) = result {
            if first.is_none() {
                first = Some(err);
            }
            if stop {
                proof {
                    assert forall|k: int| 0 <= k < steps.len() - 1 implies (
                    #[trigger] steps[k]).result is Ok by {
                        assert(earlier[k].result is Ok || !stop);
                    }
                    assert(trace_ends(old(state).file, regions, stop, steps));
                    assert(state.wal_index@ =~= regions_after(regions, steps));
                }
                return first;
            }
        }
        i += 1;
    }
    proof {
        assert(trace_ends(old(state).file, regions, stop, steps));
        assert(state.wal_index@ =~= regions_after(regions, steps));
    }
    first
}

/// What a lock request that the backend answered with `result` leads to:
/// the reply, and whether the file holds the exclusive lock afterwards.
pub open spec fn spec_lock_outcome(
    lock: Lock,
    result: Result<bool, Error>,
    held: bool,
    failure: i32,
) -> (i32, bool) {
    match result {
        Ok(true) => (SQLITE_OK, lock == Lock::Exclusive),
        Ok(false) => (SQLITE_BUSY, held),
        Err(_) => (failure, held),
    }
}

/// Take note of what the backend answered to a request for `lock`: if it
/// was granted, the file holds the exclusive lock exactly if that was asked
/// for; if not, the engine is told that the file is busy. A failure is
/// reported with `failure`.
pub fn lock_reply<V, F>(
    state: &mut FileExt<V, F>,
    lock: Lock,
    result: Result<bool, Error>,
    failure: i32,
) -> (reply: Reply)
    ensures
        final(state).file == old(state).file,
        final(state).wal_index == old(state).wal_index,
        reply.code == spec_lock_outcome(lock, result, old(state)@.has_exclusive_lock, failure).0,
        reply.error == match result {
            Err(err) => Some(err),
            _ => None,
        },
        final(state)@ == (FileView {
            has_exclusive_lock: spec_lock_outcome(
                lock,
                result,
                old(state)@.has_exclusive_lock,
                failure,
            ).1,
            last_errno: if result is Err {
                failure
            } else {
                old(state)@.last_errno
            },
            ..old(state)@
        }),
{
    match result {
        Ok(true) => {
            state.has_exclusive_lock = matches!(lock, Lock::Exclusive);
            Reply::code(SQLITE_OK)
        },
        Ok(false) => Reply::code(SQLITE_BUSY),
        Err(err) => state.set_last_error(failure, err),
    }
}

/// Lock a file.
///
/// A number that stands for no lock is answered with
/// [`SQLITE_IOERR_LOCK`], and the backend is not asked. Else the backend is
/// asked for the lock, and the reply is what [`spec_lock_outcome`] makes of
/// its answer. Once the exclusive lock is granted, the mapped regions of
/// the WAL index are brought up to date as [`pull_mapped`] does, every one
/// of them; a failure to do so is passed over.
pub fn lock<V, F: DatabaseHandle>(state: &mut FileExt<V, F>, e_lock: i32) -> (reply: Reply)
    ensures
        Lock::from_level(e_lock as int) is None ==> *final(state) == *old(state),
        Lock::from_level(e_lock as int) matches Some(l) ==> exists|
            file: &mut F,
            result: Result<bool, Error>,
        |
            {
                &&& *file == old(state).file
                &&& call_ensures(F::lock, (file, l), result)
                &&& reply.code == spec_lock_outcome(
                    l,
                    result,
                    old(state)@.has_exclusive_lock,
                    SQLITE_IOERR_LOCK,
                ).0
                &&& reply.error == match result {
                    Err(err) => Some(err),
                    _ => None,
                }
                &&& if reply.code == SQLITE_OK && l == Lock::Exclusive {
                    exists|steps: Seq<Synced<F>>|
                        {
                            &&& #[trigger] trace_ends(
                                *final(file),
                                old(state).wal_index@,
                                false,
                                steps,
                            )
                            &&& final(state).file == file_after(*final(file), steps)
                            &&& final(state).wal_index@ == regions_after(
                                old(state).wal_index@,
                                steps,
                            )
                            &&& forall|k: int|
                                #![trigger steps[k]]
                                0 <= k < steps.len() ==> exists|
                                    handle: &mut F,
                                    data: &mut [u8; 32768],
                                |
                                    *handle == steps[k].before && *final(handle) == steps[k].file
                                        && *data == *old(state).wal_index@[k].data && *final(data)
                                        == steps[k].block && call_ensures(
                                        <F::WalIndex as WalIndex<F>>::pull,
                                        (handle, old(state).wal_index@[k].region, data),
                                        steps[k].result,
                                    )
                        }
                } else {
                    final(state).file == *final(file) && final(state).wal_index == old(
                        state,
                    ).wal_index
                }
            },
        reply.code == SQLITE_OK || reply.code == SQLITE_BUSY || reply.code == SQLITE_IOERR_LOCK,
        Lock::from_level(e_lock as int) is None ==> reply.code == SQLITE_IOERR_LOCK && reply.error
            is None && final(state)@ == old(state)@,
        reply.error is Some ==> reply.code == SQLITE_IOERR_LOCK,
        final(state)@ == (FileView {
            has_exclusive_lock: final(state)@.has_exclusive_lock,
            last_errno: final(state)@.last_errno,
            ..old(state)@
        }),
        final(state)@.has_exclusive_lock == if reply.code == SQLITE_OK {
            Lock::from_level(e_lock as int) == Some(Lock::Exclusive)
        } else {
            old(state)@.has_exclusive_lock
        },
        final(state)@.last_errno == if reply.error is Some {
            SQLITE_IOERR_LOCK
        } else {
            old(state)@.last_errno
        },
{
    let lock = match Lock::from_i32(e_lock) {
        Some(lock) => lock,
        None => {
            return Reply::code(SQLITE_IOERR_LOCK);
        },
    };
    let result = state.file.lock(lock);
    let reply = lock_reply(state, lock, result, SQLITE_IOERR_LOCK);
    let sync = state.sync_after_lock(reply.code);
    let _ = sync_mapped(state, sync, false);
    reply
}

/// Unlock a file.
///
/// A number that stands for no lock is answered with
/// [`SQLITE_IOERR_UNLOCK`], and the backend is not asked. Else the backend
/// is asked to unlock down to the lock, and the reply is what
/// [`spec_lock_outcome`] makes of its answer.
pub fn unlock<V, F: DatabaseHandle>(state: &mut FileExt<V, F>, e_lock: i32) -> (reply: Reply)
    ensures
        final(state).wal_index == old(state).wal_index,
        Lock::from_level(e_lock as int) is None ==> *final(state) == *old(state),
        Lock::from_level(e_lock as int) matches Some(l) ==> exists|
            file: &mut F,
            result: Result<bool, Error>,
        |
            {
                &&& *file == old(state).file
                &&& *final(file) == final(state).file
                &&& call_ensures(F::unlock, (file, l), result)
                &&& reply.code == spec_lock_outcome(
                    l,
                    result,
                    old(state)@.has_exclusive_lock,
                    SQLITE_IOERR_UNLOCK,
                ).0
                &&& reply.error == match result {
                    Err(err) => Some(err),
                    _ => None,
                }
            },
        reply.code == SQLITE_OK || reply.code == SQLITE_BUSY || reply.code == SQLITE_IOERR_UNLOCK,
        Lock::from_level(e_lock as int) is None ==> reply.code == SQLITE_IOERR_UNLOCK
            && reply.error is None && final(state)@ == old(state)@,
        reply.error is Some ==> reply.code == SQLITE_IOERR_UNLOCK,
        final(state)@ == (FileView {
            has_exclusive_lock: final(state)@.has_exclusive_lock,
            last_errno: final(state)@.last_errno,
            ..old(state)@
        }),
        final(state)@.has_exclusive_lock == if reply.code == SQLITE_OK {
            Lock::from_level(e_lock as int) == Some(Lock::Exclusive)
        } else {
            old(state)@.has_exclusive_lock
        },
        final(state)@.last_errno == if reply.error is Some {
            SQLITE_IOERR_UNLOCK
        } else {
            old(state)@.last_errno
        },
{
    let lock = match Lock::from_i32(e_lock) {
        Some(lock) => lock,
        None => {
            return Reply::code(SQLITE_IOERR_UNLOCK);
        },
    };
    let result = state.file.unlock(lock);
    lock_reply(state, lock, result, SQLITE_IOERR_UNLOCK)
}

/// The reply to a request whether a reserved lock is held on the file, and
/// the number to report, given what the backend answered. `has_out` says
/// whether the engine gave room for the number.
pub open spec fn reserved_answered(result: Result<bool, Error>, has_out: bool, r: (Reply, i32)) -> bool {
    match result {
        Ok(reserved) => if has_out {
            r.0 == (Reply { code: SQLITE_OK, error: None }) && r.1 == if reserved {
                1i32
            } else {
                0i32
            }
        } else {
            r.0.code == SQLITE_IOERR_UNLOCK && r.0.error is Some
        },
        Err(err) => r.0 == Reply { code: SQLITE_IOERR_UNLOCK, error: Some(err) },
    }
}

/// The reply to a request whether a reserved lock is held on the file, and
/// the number to report, given what the backend answered, as
/// [`reserved_answered`] says. A failure is kept as the last error of the
/// file.
pub fn check_reserved_lock_reply<V, F>(
    state: &mut FileExt<V, F>,
    result: Result<bool, Error>,
    has_out: bool,
) -> (r: (Reply, i32))
    ensures
        reserved_answered(result, has_out, r),
        final(state).file == old(state).file,
        final(state).wal_index == old(state).wal_index,
        match result {
            Ok(reserved) => if has_out {
                &&& r.0.code == SQLITE_OK
                &&& r.0.error is None
                &&& r.1 == if reserved {
                    1i32
                } else {
                    0i32
                }
                &&& final(state)@ == old(state)@
            } else {
                &&& r.0.code == SQLITE_IOERR_UNLOCK
                &&& r.0.error is Some
                &&& final(state)@ == (FileView { last_errno: SQLITE_IOERR_UNLOCK, ..old(state)@ })
            },
            Err(err) => {
                &&& r.0.code == SQLITE_IOERR_UNLOCK
                &&& r.0.error == Some(err)
                &&& final(state)@ == (FileView { last_errno: SQLITE_IOERR_UNLOCK, ..old(state)@ })
            },
        },
{
    match result {
        Ok(reserved) => {
            if has_out {
                (
                    Reply::code(SQLITE_OK),
                    if reserved {
                        1
                    } else {
                        0
                    },
                )
            } else {
                (state.set_last_error(SQLITE_IOERR_UNLOCK, null_ptr_error()), 0)
            }
        },
        Err(err) => (state.set_last_error(SQLITE_IOERR_UNLOCK, err), 0),
    }
}

/// Check if some connection holds a reserved lock on a file: the backend is
/// asked, and the reply is what [`reserved_answered`] makes of its answer.
pub fn check_reserved_lock<V, F: DatabaseHandle>(state: &mut FileExt<V, F>, has_out: bool) -> (r:
    (Reply, i32))
    ensures
        final(state).file == old(state).file,
        final(state).wal_index == old(state).wal_index,
        exists|result: Result<bool, Error>|
            call_ensures(F::is_reserved, (&old(state).file,), result) && reserved_answered(
                result,
                has_out,
                r,
            ),
        r.0.code == SQLITE_OK || r.0.code == SQLITE_IOERR_UNLOCK,
        !has_out ==> r.0.code == SQLITE_IOERR_UNLOCK,
        (r.0.code == SQLITE_OK) == (r.0.error is None),
        r.0.code == SQLITE_OK ==> r.1 == 0 || r.1 == 1,
        final(state)@ == (FileView { last_errno: final(state)@.last_errno, ..old(state)@ }),
        final(state)@.last_errno == if r.0.code == SQLITE_OK {
            old(state)@.last_errno
        } else {
            SQLITE_IOERR_UNLOCK
        },
{
    let result = state.file.is_reserved();
    check_reserved_lock_reply(state, result, has_out)
}

/// Return the sector size in bytes for a file.
pub fn sector_size() -> (r: i32)
    ensures
        r == 1024,
{
    1024
}

/// Return the device characteristics of a file: writes of any size are
/// atomic, a power loss changes no byte but those being written, appended
/// data is written before the size is extended, and data reaches the
/// storage in the order in which it was written.
pub fn device_characteristics() -> (r: i32)
    ensures
        r == SQLITE_IOCAP_ATOMIC | SQLITE_IOCAP_POWERSAFE_OVERWRITE | SQLITE_IOCAP_SAFE_APPEND
            | SQLITE_IOCAP_SEQUENTIAL,
        r == 0x1601,
{
    assert(0x1i32 | 0x1000i32 | 0x200i32 | 0x400i32 == 0x1601i32) by (bit_vector);
    SQLITE_IOCAP_ATOMIC | SQLITE_IOCAP_POWERSAFE_OVERWRITE | SQLITE_IOCAP_SAFE_APPEND
        | SQLITE_IOCAP_SEQUENTIAL
}

/// Fetch a page of a memory-mapped file. This is not supported.
pub fn mem_fetch() -> (r: i32)
    ensures
        r == SQLITE_ERROR,
{
    SQLITE_ERROR
}

/// Release a memory-mapped page. There is nothing to release.
pub fn mem_unfetch() -> (r: i32)
    ensures
        r == SQLITE_OK,
{
    SQLITE_OK
}

/// What a file-control request is about, as far as the shim tells the
/// opcodes apart.
#[derive(Debug, Clone, Copy, PartialEq, Eq, Structural)]
pub enum ControlKind {
    /// Report the lock that the file holds.
    LockState,
    /// Report the number of the last error.
    LastErrno,
    /// Announce the size that the file is going to have.
    SizeHint,
    /// Set the size in whose multiples the file grows and shrinks.
    ChunkSize,
    /// Report the name of the file system.
    VfsName,
    /// Generate the name of a temporary file.
    TempFilename,
    /// Take note of what the engine is doing.
    Trace,
    /// A notice that needs no action.
    Acknowledged,
    /// Not handled by the shim: the engine falls back to its defaults.
    NotFound,
}

/// How the engine hands over the argument of a file-control request.
#[derive(Debug, Clone, Copy, PartialEq, Eq, Structural)]
pub enum ControlArg {
    /// The shim does not read the argument.
    Unused,
    /// The argument points to an integer of 32 bits.
    Int32,
    /// The argument points to an integer of 64 bits.
    Int64,
}

/// What a file-control request leads to.
#[derive(Debug, PartialEq, Eq)]
pub enum Control {
    /// Hand the reply to the engine.
    Reply(Reply),
    /// Write the number of the lock to the argument, and reply
    /// [`SQLITE_OK`].
    LockState(i32),
    /// Write the number of the last error of the file system to the
    /// argument, and reply [`SQLITE_OK`].
    LastErrno,
    /// Let the argument point to the name of the file system, which must
    /// outlive the call, and reply [`SQLITE_OK`].
    VfsName(String),
    /// Let the argument point to the name of a temporary file, which must
    /// outlive the call, and reply [`SQLITE_OK`].
    TempFilename(String),
    /// Log the text that the argument points to, and reply [`SQLITE_OK`].
    Trace,
}

/// What the opcode `op` of a file-control request is about. All opcodes
/// that are not named here are not handled.
pub open spec fn spec_control_kind(op: i32) -> ControlKind {
    if op == SQLITE_FCNTL_LOCKSTATE {
        ControlKind::LockState
    } else if op == SQLITE_FCNTL_LAST_ERRNO {
        ControlKind::LastErrno
    } else if op == SQLITE_FCNTL_SIZE_HINT {
        ControlKind::SizeHint
    } else if op == SQLITE_FCNTL_CHUNK_SIZE {
        ControlKind::ChunkSize
    } else if op == SQLITE_FCNTL_VFSNAME {
        ControlKind::VfsName
    } else if op == SQLITE_FCNTL_TEMPFILENAME {
        ControlKind::TempFilename
    } else if op == SQLITE_FCNTL_TRACE {
        ControlKind::Trace
    } else if op == SQLITE_FCNTL_SYNC || op == SQLITE_FCNTL_COMMIT_PHASETWO || op
        == SQLITE_FCNTL_CKPT_DONE || op == SQLITE_FCNTL_CKPT_START {
        ControlKind::Acknowledged
    } else {
        ControlKind::NotFound
    }
}

/// What the opcode `op` of a file-control request is about.
pub fn control_kind(op: i32) -> (kind: ControlKind)
    ensures
        kind == spec_control_kind(op),
{
    match op {
        // Handled by the engine before the request reaches a file system.
        SQLITE_FCNTL_FILE_POINTER
        | SQLITE_FCNTL_VFS_POINTER
        | SQLITE_FCNTL_JOURNAL_POINTER
        | SQLITE_FCNTL_DATA_VERSION
        | SQLITE_FCNTL_RESERVE_BYTES => ControlKind::NotFound,
        // No longer in use.
        SQLITE_FCNTL_SYNC_OMITTED => ControlKind::NotFound,
        // Used for debugging.
        SQLITE_FCNTL_LOCKSTATE => ControlKind::LockState,
        // Relevant for proxy locking only.
        SQLITE_FCNTL_GET_LOCKPROXYFILE | SQLITE_FCNTL_SET_LOCKPROXYFILE => ControlKind::NotFound,
        SQLITE_FCNTL_LAST_ERRNO => ControlKind::LastErrno,
        SQLITE_FCNTL_SIZE_HINT => ControlKind::SizeHint,
        SQLITE_FCNTL_CHUNK_SIZE => ControlKind::ChunkSize,
        SQLITE_FCNTL_WIN32_AV_RETRY => ControlKind::NotFound,
        SQLITE_FCNTL_PERSIST_WAL => ControlKind::NotFound,
        SQLITE_FCNTL_OVERWRITE => ControlKind::NotFound,
        SQLITE_FCNTL_VFSNAME => ControlKind::VfsName,
        SQLITE_FCNTL_POWERSAFE_OVERWRITE => ControlKind::NotFound,
        // Always fall back to the pragma processing of the engine.
        SQLITE_FCNTL_PRAGMA => ControlKind::NotFound,
        SQLITE_FCNTL_BUSYHANDLER => ControlKind::NotFound,
        SQLITE_FCNTL_TEMPFILENAME => ControlKind::TempFilename,
        SQLITE_FCNTL_MMAP_SIZE => ControlKind::NotFound,
        SQLITE_FCNTL_TRACE => ControlKind::Trace,
        SQLITE_FCNTL_HAS_MOVED => ControlKind::NotFound,
        // Sent right before a sync, and after a commit.
        SQLITE_FCNTL_SYNC => ControlKind::Acknowledged,
        SQLITE_FCNTL_COMMIT_PHASETWO => ControlKind::Acknowledged,
        SQLITE_FCNTL_WIN32_SET_HANDLE => ControlKind::NotFound,
        SQLITE_FCNTL_WAL_BLOCK => ControlKind::NotFound,
        SQLITE_FCNTL_ZIPVFS => ControlKind::NotFound,
        SQLITE_FCNTL_RBU => ControlKind::NotFound,
        SQLITE_FCNTL_WIN32_GET_HANDLE => ControlKind::NotFound,
        SQLITE_FCNTL_PDB => ControlKind::NotFound,
        SQLITE_FCNTL_BEGIN_ATOMIC_WRITE
        | SQLITE_FCNTL_COMMIT_ATOMIC_WRITE
        | SQLITE_FCNTL_ROLLBACK_ATOMIC_WRITE => ControlKind::NotFound,
        SQLITE_FCNTL_LOCK_TIMEOUT => ControlKind::NotFound,
        SQLITE_FCNTL_SIZE_LIMIT => ControlKind::NotFound,
        // Sent around the copying of pages during a checkpoint.
        SQLITE_FCNTL_CKPT_DONE => ControlKind::Acknowledged,
        SQLITE_FCNTL_CKPT_START => ControlKind::Acknowledged,
        SQLITE_FCNTL_EXTERNAL_READER => ControlKind::NotFound,
        SQLITE_FCNTL_CKSM_FILE => ControlKind::NotFound,
        _ => ControlKind::NotFound,
    }
}

/// How to read the argument of a file-control request with the opcode `op`
/// before it is handed to [`file_control`].
pub fn file_control_arg(op: i32) -> (arg: ControlArg)
    ensures
        arg == match spec_control_kind(op) {
            ControlKind::SizeHint => ControlArg::Int64,
            ControlKind::ChunkSize => ControlArg::Int32,
            _ => ControlArg::Unused,
        },
{
    match control_kind(op) {
        ControlKind::SizeHint => ControlArg::Int64,
        ControlKind::ChunkSize => ControlArg::Int32,
        _ => ControlArg::Unused,
    }
}

/// What to hand out when the engine asks for the lock that the file holds,
/// given what the backend answered: the number of the lock, or the reply
/// [`SQLITE_ERROR`].
pub fn lock_state_control<V, F>(state: &mut FileExt<V, F>, result: Result<Lock, Error>) -> (control:
    Control)
    ensures
        final(state).file == old(state).file,
        final(state).wal_index == old(state).wal_index,
        match result {
            Ok(lock) => control == Control::LockState(lock.level() as i32) && final(state)@
                == old(state)@,
            Err(err) => control == Control::Reply(Reply { code: SQLITE_ERROR, error: Some(err) })
                && final(state)@ == (FileView { last_errno: SQLITE_ERROR, ..old(state)@ }),
        },
{
    match result {
        Ok(lock) => Control::LockState(lock.to_i32()),
        Err(err) => Control::Reply(state.set_last_error(SQLITE_ERROR, err)),
    }
}

/// The reply to a request to set the chunk size to `chunk_size`, given what
/// the backend answered: the chunk size is kept if the backend took it,
/// else the reply is [`SQLITE_ERROR`].
pub fn chunk_size_reply<V, F>(
    state: &mut FileExt<V, F>,
    chunk_size: usize,
    result: Result<(), Error>,
) -> (reply: Reply)
    ensures
        final(state).file == old(state).file,
        final(state).wal_index == old(state).wal_index,
        reply == spec_reply_or(result, SQLITE_ERROR),
        match result {
            Ok(_) => reply.code == SQLITE_OK && reply.error is None && final(state)@
                == (FileView { chunk_size: Some(chunk_size), ..old(state)@ }),
            Err(err) => reply.code == SQLITE_ERROR && reply.error == Some(err) && final(state)@
                == (FileView { last_errno: SQLITE_ERROR, ..old(state)@ }),
        },
{
    match result {
        Ok(_) => {
            state.chunk_size = Some(chunk_size);
            Reply::code(SQLITE_OK)
        },
        Err(err) => state.set_last_error(SQLITE_ERROR, err),
    }
}

/// File control: requests of the engine, or of the user through the
/// engine, on an open file. `arg` is the integer that the argument points
/// to, read as [`file_control_arg`] says; `None` where the argument is not
/// read or points nowhere.
///
/// - The lock state is asked of the backend and reported as the number of
///   the lock.
/// - A size hint asks the backend to set the length of the file to the
///   hint, rounded up to a multiple of the chunk size if one is set; the
///   reply is what [`spec_reply_or`] makes of its answer.
/// - A chunk size is announced to the backend, and kept if the backend
///   takes it.
/// - The name of the file system is handed out, and a temporary name that
///   the backend is asked for.
/// - Notices are acknowledged. Everything else is not handled, which the
///   reply [`SQLITE_NOTFOUND`] says.
pub fn file_control<V: Vfs, F: DatabaseHandle>(
    state: &mut FileExt<V, F>,
    op: i32,
    arg: Option<i64>,
) -> (control: Control)
    ensures
        final(state)@ == (FileView {
            last_errno: final(state)@.last_errno,
            chunk_size: final(state)@.chunk_size,
            ..old(state)@
        }),
        match spec_control_kind(op) {
            ControlKind::NotFound => {
                &&& control == Control::Reply(Reply { code: SQLITE_NOTFOUND, error: None })
                &&& final(state)@ == old(state)@
            },
            ControlKind::Acknowledged => {
                &&& control == Control::Reply(Reply { code: SQLITE_OK, error: None })
                &&& final(state)@ == old(state)@
            },
            ControlKind::LockState => {
                &&& final(state)@.chunk_size == old(state)@.chunk_size
                &&& final(state).file == old(state).file
                &&& match control {
                    Control::LockState(n) => 0 <= n <= 4 && final(state)@ == old(state)@,
                    Control::Reply(reply) => reply.code == SQLITE_ERROR && reply.error is Some
                        && final(state)@.last_errno == SQLITE_ERROR,
                    _ => false,
                }
                &&& exists|result: Result<Lock, Error>|
                    call_ensures(F::current_lock, (&old(state).file,), result) && control
                        == match result {
                        Ok(lock) => Control::LockState(lock.level() as i32),
                        Err(err) => Control::Reply(Reply { code: SQLITE_ERROR, error: Some(err) }),
                    }
            },
            ControlKind::LastErrno => control == Control::LastErrno && final(state)@ == old(
                state,
            )@,
            ControlKind::SizeHint => {
                &&& final(state)@.chunk_size == old(state)@.chunk_size
                &&& control matches Control::Reply(reply)
                &&& (reply.code == SQLITE_OK) == (reply.error is None)
                &&& final(state)@.last_errno == if reply.code == SQLITE_OK {
                    old(state)@.last_errno
                } else {
                    reply.code
                }
                &&& if arg is None || arg->Some_0 < 0 {
                    reply.code == SQLITE_NOTFOUND && final(state).file == old(state).file
                } else if spec_chunked(arg->Some_0 as u64, old(state)@.chunk_size) is None {
                    reply.code == SQLITE_IOERR_TRUNCATE && final(state).file == old(state).file
                } else {
                    exists|file: &mut F, result: Result<(), Error>|
                        *file == old(state).file && *final(file) == final(state).file
                            && call_ensures(
                            F::set_len,
                            (
                                file,
                                spec_chunked(
                                    arg->Some_0 as u64,
                                    old(state)@.chunk_size,
                                )->Some_0,
                            ),
                            result,
                        ) && reply == spec_reply_or(result, SQLITE_IOERR_TRUNCATE)
                }
            },
            ControlKind::ChunkSize => {
                &&& control matches Control::Reply(reply)
                &&& (reply.code == SQLITE_OK) == (reply.error is None)
                &&& final(state)@.last_errno == if reply.code == SQLITE_OK {
                    old(state)@.last_errno
                } else {
                    reply.code
                }
                &&& final(state)@.chunk_size == if reply.code == SQLITE_OK {
                    Some(arg->Some_0 as usize)
                } else {
                    old(state)@.chunk_size
                }
                &&& final(state).file == old(state).file
                &&& if arg is None || arg->Some_0 < 0 || arg->Some_0 > i32::MAX {
                    reply.code == SQLITE_NOTFOUND
                } else {
                    exists|result: Result<(), Error>|
                        call_ensures(
                            F::set_chunk_size,
                            (&old(state).file, arg->Some_0 as usize),
                            result,
                        ) && reply == spec_reply_or(result, SQLITE_ERROR)
                }
            },
            ControlKind::VfsName => {
                &&& control matches Control::VfsName(name)
                &&& name@ == old(state)@.vfs_name
                &&& final(state)@ == old(state)@
            },
            ControlKind::TempFilename => {
                &&& control matches Control::TempFilename(name)
                &&& call_ensures(V::temporary_name, (&*old(state).vfs,), name)
                &&& *final(state) == *old(state)
            },
            ControlKind::Trace => control == Control::Trace && final(state)@ == old(state)@,
        },
{
    match control_kind(op) {
        ControlKind::NotFound => Control::Reply(Reply::code(SQLITE_NOTFOUND)),
        ControlKind::Acknowledged => Control::Reply(Reply::code(SQLITE_OK)),
        ControlKind::LockState => {
            let result = state.file.current_lock();
            lock_state_control(state, result)
        },
        ControlKind::LastErrno => Control::LastErrno,
        ControlKind::SizeHint => {
            let hint: u64 = match arg {
                Some(hint) if hint >= 0 => hint as u64,
                _ => {
                    return Control::Reply(
                        state.set_last_error(
                            SQLITE_NOTFOUND,
                            Error::other("expect size hint arg"),
                        ),
                    );
                },
            };
            match chunked(hint, state.chunk_size) {
                Some(size) => {
                    let result = state.file.set_len(size);
                    Control::Reply(reply_or(state, result, SQLITE_IOERR_TRUNCATE))
                },
                None => Control::Reply(
                    state.set_last_error(
                        SQLITE_IOERR_TRUNCATE,
                        Error::other("size is out of range"),
                    ),
                ),
            }
        },
        ControlKind::ChunkSize => {
            let chunk_size: usize = match arg {
                Some(size) if size >= 0 && size <= i32::MAX as i64 => size as usize,
                _ => {
                    return Control::Reply(
                        state.set_last_error(
                            SQLITE_NOTFOUND,
                            Error::other("expect chunk_size arg"),
                        ),
                    );
                },
            };
            let result = state.file.set_chunk_size(chunk_size);
            Control::Reply(chunk_size_reply(state, chunk_size, result))
        },
        ControlKind::VfsName => Control::VfsName(state.vfs_name.clone()),
        ControlKind::TempFilename => Control::TempFilename(state.vfs.temporary_name()),
        ControlKind::Trace => Control::Trace,
    }
}

/// The error for a request on the WAL index that is out of bounds.
fn bounds_error(message: &str) -> (r: Error)
    ensures
        r.kind == ErrorKind::Other,
{
    Error::other(message)
}

/// The reply to a request to map the region `region`, which is not mapped
/// yet, given what the backend answered: the block of the backend is kept
/// as the last of the mapped regions, or the reply is
/// [`SQLITE_IOERR_SHMMAP`].
pub fn shm_map_reply<V, F>(
    state: &mut FileExt<V, F>,
    region: u32,
    result: Result<[u8; 32768], Error>,
) -> (reply: Reply)
    ensures
        old(state)@.wf() && !old(state)@.is_mapped(region) ==> final(state)@.wf(),
        final(state).file == old(state).file,
        match result {
            Ok(block) => {
                &&& reply.code == SQLITE_OK
                &&& reply.error is None
                &&& final(state).wal_index@ == old(state).wal_index@.push(
                    MappedRegion { region, data: Box::new(block) },
                )
                &&& final(state)@ == (FileView {
                    mapped: old(state)@.mapped.push(region),
                    ..old(state)@
                })
                &&& final(state)@.is_mapped(region)
            },
            Err(err) => {
                &&& reply.code == SQLITE_IOERR_SHMMAP
                &&& reply.error == Some(err)
                &&& final(state).wal_index == old(state).wal_index
                &&& final(state)@ == (FileView { last_errno: SQLITE_IOERR_SHMMAP, ..old(state)@ })
            },
        },
{
    match result {
        Ok(block) => {
            let ghost before = state@.mapped;
            state.wal_index.push(MappedRegion { region, data: Box::new(block) });
            assert(state@.mapped =~= before.push(region));
            assert(state@.mapped[before.len() as int] == region);
            assert(old(state)@.wf() && !old(state)@.is_mapped(region) ==> state@.wf()) by {
                if old(state)@.wf() && !old(state)@.is_mapped(region) {
                    assert forall|i: int, j: int|
                        0 <= i < j < state@.mapped.len() implies state@.mapped[i]
                        != state@.mapped[j] by {
                        if j == before.len() {
                            assert(before[i] != region);
                        }
                    }
                }
            }
            Reply::code(SQLITE_OK)
        },
        Err(err) => state.set_last_error(SQLITE_IOERR_SHMMAP, err),
    }
}

/// What is to be done about a request to map a region.
#[derive(Debug, Clone, Copy, PartialEq, Eq, Structural)]
pub enum MapPlan {
    /// The file has no WAL: the request is refused.
    Disabled,
    /// The region has another size than 32768 bytes, or a negative number:
    /// the request is refused.
    BadRegion,
    /// The region is mapped already, and stays as it is.
    Mapped,
    /// The backend is asked for the block of the region with this number.
    Ask(u32),
}

/// What is to be done about a request to map the region `region_ix` of the
/// size `region_size`, where `enabled` is what the backend answered when
/// asked whether the file has a WAL, and `mapped` are the regions that are
/// mapped.
pub open spec fn spec_map_plan(
    enabled: bool,
    region_ix: i32,
    region_size: i32,
    mapped: Seq<u32>,
) -> MapPlan {
    if !enabled {
        MapPlan::Disabled
    } else if region_size != 32768 || region_ix < 0 {
        MapPlan::BadRegion
    } else if exists|i: int| 0 <= i < mapped.len() && mapped[i] == region_ix as u32 {
        MapPlan::Mapped
    } else {
        MapPlan::Ask(region_ix as u32)
    }
}

/// What is to be done about a request to map the region `region_ix` of the
/// size `region_size`, where `enabled` is what the backend answered when
/// asked whether the file has a WAL.
pub fn map_plan<V, F>(state: &FileExt<V, F>, enabled: bool, region_ix: i32, region_size: i32) -> (plan:
    MapPlan)
    ensures
        plan == spec_map_plan(enabled, region_ix, region_size, state@.mapped),
{
    if !enabled {
        MapPlan::Disabled
    } else if region_size != 32768 || region_ix < 0 {
        MapPlan::BadRegion
    } else {
        match state.find_region(region_ix as u32) {
            Some(i) => {
                assert(state@.mapped[i as int] == region_ix as u32);
                MapPlan::Mapped
            },
            None => MapPlan::Ask(region_ix as u32),
        }
    }
}

/// Whether `index` and `reply` are what the answer `result` of the backend
/// to a request for the block of the region `region` leads to, where
/// `regions` were mapped before: the block of the backend is kept as the
/// last of the mapped regions, or the reply is [`SQLITE_IOERR_SHMMAP`] with
/// the error of the backend.
pub open spec fn map_answered(
    regions: Seq<MappedRegion>,
    region: u32,
    result: Result<[u8; 32768], Error>,
    index: Seq<MappedRegion>,
    reply: Reply,
) -> bool {
    match result {
        Ok(block) => {
            &&& reply == Reply { code: SQLITE_OK, error: None }
            &&& index == regions.push(MappedRegion { region, data: Box::new(block) })
        },
        Err(err) => {
            &&& reply == Reply { code: SQLITE_IOERR_SHMMAP, error: Some(err) }
            &&& index == regions
        },
    }
}

/// Map a region of the WAL index into the engine.
///
/// The backend is asked whether the file has a WAL, and [`spec_map_plan`]
/// says what follows. A file without WAL is answered with
/// [`SQLITE_IOERR_SHMLOCK`]; a region of another size than 32768 bytes, or
/// with a negative number, with [`SQLITE_IOERR_SHMMAP`]; neither changes
/// what is mapped. A region that is mapped stays as it is, and the reply is
/// [`SQLITE_OK`]. Else the backend is asked for the block of the region,
/// which is kept at a place of its own for as long as the region is
/// mapped, as [`map_answered`] says. After the reply [`SQLITE_OK`] the
/// region is mapped, and [`FileExt::find_region`] says where.
pub fn shm_map<V, F: DatabaseHandle>(
    state: &mut FileExt<V, F>,
    region_ix: i32,
    region_size: i32,
) -> (reply: Reply)
    ensures
        old(state)@.wf() ==> final(state)@.wf(),
        reply.code == SQLITE_OK || reply.code == SQLITE_IOERR_SHMLOCK || reply.code
            == SQLITE_IOERR_SHMMAP,
        region_size != 32768 || region_ix < 0 ==> reply.code != SQLITE_OK,
        reply.error is Some ==> reply.code == SQLITE_IOERR_SHMMAP,
        final(state)@ == (FileView {
            last_errno: final(state)@.last_errno,
            mapped: final(state)@.mapped,
            ..old(state)@
        }),
        final(state)@.last_errno == if reply.error is Some {
            SQLITE_IOERR_SHMMAP
        } else {
            old(state)@.last_errno
        },
        final(state)@.mapped == if reply.code == SQLITE_OK && !old(state)@.is_mapped(
            region_ix as u32,
        ) {
            old(state)@.mapped.push(region_ix as u32)
        } else {
            old(state)@.mapped
        },
        reply.code == SQLITE_OK ==> final(state)@.is_mapped(region_ix as u32),
        exists|on: bool|
            call_ensures(<F::WalIndex as WalIndex<F>>::enabled, (), on) && match spec_map_plan(
                on,
                region_ix,
                region_size,
                old(state)@.mapped,
            ) {
                MapPlan::Disabled => {
                    &&& reply == Reply { code: SQLITE_IOERR_SHMLOCK, error: None }
                    &&& *final(state) == *old(state)
                },
                MapPlan::BadRegion => {
                    &&& reply.code == SQLITE_IOERR_SHMMAP
                    &&& reply.error is Some
                    &&& final(state).file == old(state).file
                    &&& final(state).wal_index == old(state).wal_index
                },
                MapPlan::Mapped => {
                    &&& reply == Reply { code: SQLITE_OK, error: None }
                    &&& *final(state) == *old(state)
                },
                MapPlan::Ask(region) => exists|handle: &mut F, result: Result<[u8; 32768], Error>|
                    *handle == old(state).file && *final(handle) == final(state).file
                        && call_ensures(
                        <F::WalIndex as WalIndex<F>>::map,
                        (handle, region),
                        result,
                    ) && map_answered(
                        old(state).wal_index@,
                        region,
                        result,
                        final(state).wal_index@,
                        reply,
                    ),
            },
{
    let on = F::WalIndex::enabled();
    match map_plan(state, on, region_ix, region_size) {
        MapPlan::Disabled => Reply::code(SQLITE_IOERR_SHMLOCK),
        MapPlan::BadRegion => {
            if region_size != 32768 {
                state.set_last_error(
                    SQLITE_IOERR_SHMMAP,
                    bounds_error("encountered region size other than 32kB"),
                )
            } else {
                state.set_last_error(
                    SQLITE_IOERR_SHMMAP,
                    bounds_error("encountered negative region number"),
                )
            }
        },
        MapPlan::Mapped => Reply::code(SQLITE_OK),
        MapPlan::Ask(region) => {
            let result = F::WalIndex::map(&mut state.file, region);
            shm_map_reply(state, region, result)
        },
    }
}

/// The band of regions that a lock request of the engine names: `n`
/// regions from `offset`. `None` if the numbers are negative or lead
/// beyond the regions that there are.
pub fn shm_band(offset: i32, n: i32) -> (r: Option<(u8, u8)>)
    ensures
        r == if 0 <= offset && 0 <= n && offset + n <= 255 {
            Some((offset as u8, (offset + n) as u8))
        } else {
            None
        },
{
    if 0 <= offset && 0 <= n && offset <= 255 && n <= 255 && offset + n <= 255 {
        Some((offset as u8, (offset + n) as u8))
    } else {
        None
    }
}

/// The lock that the flags of a lock request ask for.
pub fn shm_lock_kind(flags: i32) -> (lock: WalIndexLock)
    ensures
        lock == WalIndexLock::spec_from_shm_flags(
            flags & SQLITE_SHM_LOCK > 0,
            flags & SQLITE_SHM_EXCLUSIVE > 0,
        ),
{
    let locking = flags & SQLITE_SHM_LOCK > 0;
    let exclusive = flags & SQLITE_SHM_EXCLUSIVE > 0;
    if !locking {
        WalIndexLock::Unlocked
    } else if exclusive {
        WalIndexLock::Exclusive
    } else {
        WalIndexLock::Shared
    }
}

/// The reply to a request for `lock` on the band `start..end` of the WAL
/// index, given what the backend answered: if it granted the request, the
/// lock is recorded for every region of the band; if not, the engine is
/// told that the file is busy; a failure is answered with
/// [`SQLITE_IOERR_SHMLOCK`].
pub open spec fn spec_shm_lock_reply(result: Result<bool, Error>) -> Reply {
    match result {
        Ok(true) => Reply { code: SQLITE_OK, error: None },
        Ok(false) => Reply { code: SQLITE_BUSY, error: None },
        Err(err) => Reply { code: SQLITE_IOERR_SHMLOCK, error: Some(err) },
    }
}

/// Take note of what the backend answered to a request for `lock` on the
/// band `start..end` of the WAL index, and reply as [`spec_shm_lock_reply`]
/// says: if the request was granted, the lock is recorded for every region
/// of the band; a failure is kept as the last error of the file.
pub fn shm_lock_reply<V, F>(
    state: &mut FileExt<V, F>,
    start: u8,
    end: u8,
    lock: WalIndexLock,
    result: Result<bool, Error>,
) -> (reply: Reply)
    ensures
        reply == spec_shm_lock_reply(result),
        final(state).file == old(state).file,
        final(state).wal_index == old(state).wal_index,
        match result {
            Ok(true) => {
                &&& reply.code == SQLITE_OK
                &&& reply.error is None
                &&& final(state)@ == (FileView { locks: final(state)@.locks, ..old(state)@ })
                &&& forall|r: u8|
                    #[trigger] held_lock(final(state)@.locks, r) == if start <= r < end {
                        lock
                    } else {
                        held_lock(old(state)@.locks, r)
                    }
            },
            Ok(false) => reply.code == SQLITE_BUSY && reply.error is None && final(state)@ == old(
                state,
            )@,
            Err(err) => {
                &&& reply.code == SQLITE_IOERR_SHMLOCK
                &&& reply.error == Some(err)
                &&& final(state)@ == (FileView { last_errno: SQLITE_IOERR_SHMLOCK, ..old(state)@ })
            },
        },
{
    match result {
        Ok(true) => {
            record_band(&mut state.wal_index_locks, start, end, lock);
            Reply::code(SQLITE_OK)
        },
        Ok(false) => Reply::code(SQLITE_BUSY),
        Err(err) => state.set_last_error(SQLITE_IOERR_SHMLOCK, err),
    }
}

/// Lock or unlock a band of regions of the WAL index.
///
/// Before a lock is asked for while the file holds no exclusive lock on
/// any region, the mapped regions are brought up to date as
/// [`pull_mapped`] does, so that the engine sees what others have written.
/// Before an exclusive lock in the band is released, the mapped regions are
/// stored as [`push_mapped`] does, so that others see what the engine has
/// written. The first failure ends the request with its error. Then the
/// backend is asked for the lock on the band, with the file as the calls
/// before left it, and the reply is what [`spec_shm_lock_reply`] makes of
/// its answer. If it grants the request, the lock is recorded for every
/// region of the band; if not, the engine is told that the file is busy. A
/// band that is out of bounds or a failure of the backend is answered with
/// [`SQLITE_IOERR_SHMLOCK`].
pub fn shm_lock<V, F: DatabaseHandle>(
    state: &mut FileExt<V, F>,
    offset: i32,
    n: i32,
    flags: i32,
) -> (reply: Reply)
    ensures
        !(0 <= offset && 0 <= n && offset + n <= 255) ==> final(state).file == old(state).file
            && final(state).wal_index == old(state).wal_index,
        0 <= offset && 0 <= n && offset + n <= 255 ==> match spec_sync_before_shm_lock(
                old(state)@.locks,
                offset as u8,
                (offset + n) as u8,
                flags & SQLITE_SHM_LOCK > 0,
            ) {
            WalSync::Nothing => {
                &&& final(state).wal_index == old(state).wal_index
                &&& exists|
                    handle: &mut F,
                    band: Range<u8>,
                    to: WalIndexLock,
                    result: Result<bool, Error>,
                |
                    {
                        &&& *handle == old(state).file
                        &&& *final(handle) == final(state).file
                        &&& band.start == offset
                        &&& band.end == offset + n
                        &&& to == WalIndexLock::spec_from_shm_flags(
                            flags & SQLITE_SHM_LOCK > 0,
                            flags & SQLITE_SHM_EXCLUSIVE > 0,
                        )
                        &&& call_ensures(
                            <F::WalIndex as WalIndex<F>>::lock,
                            (handle, band, to),
                            result,
                        )
                        &&& reply == spec_shm_lock_reply(result)
                    }
            },
            WalSync::Pull => exists|steps: Seq<Synced<F>>|
                {
                    &&& #[trigger] trace_ends(
                        old(state).file,
                        old(state).wal_index@,
                        true,
                        steps,
                    )
                    &&& final(state).wal_index@ == regions_after(old(state).wal_index@, steps)
                    &&& forall|k: int|
                        #![trigger steps[k]]
                        0 <= k < steps.len() ==> exists|handle: &mut F, data: &mut [u8; 32768]|
                            *handle == steps[k].before && *final(handle) == steps[k].file && *data
                                == *old(state).wal_index@[k].data && *final(data)
                                == steps[k].block && call_ensures(
                                <F::WalIndex as WalIndex<F>>::pull,
                                (handle, old(state).wal_index@[k].region, data),
                                steps[k].result,
                            )
                    &&& match first_error(steps) {
                        Some(err) => {
                            &&& reply == Reply { code: SQLITE_IOERR_SHMLOCK, error: Some(err) }
                            &&& final(state).file == file_after(old(state).file, steps)
                        },
                        None => exists|
                            handle: &mut F,
                            band: Range<u8>,
                            to: WalIndexLock,
                            result: Result<bool, Error>,
                        |
                            {
                                &&& *handle == file_after(old(state).file, steps)
                                &&& *final(handle) == final(state).file
                                &&& band.start == offset
                                &&& band.end == offset + n
                                &&& to == WalIndexLock::spec_from_shm_flags(
                                    flags & SQLITE_SHM_LOCK > 0,
                                    flags & SQLITE_SHM_EXCLUSIVE > 0,
                                )
                                &&& call_ensures(
                                    <F::WalIndex as WalIndex<F>>::lock,
                                    (handle, band, to),
                                    result,
                                )
                                &&& reply == spec_shm_lock_reply(result)
                            },
                    }
                },
            WalSync::Push => exists|steps: Seq<Synced<F>>|
                {
                    &&& #[trigger] trace_ends(
                        old(state).file,
                        old(state).wal_index@,
                        true,
                        steps,
                    )
                    &&& final(state).wal_index@ == regions_after(old(state).wal_index@, steps)
                    &&& forall|k: int|
                        #![trigger steps[k]]
                        0 <= k < steps.len() ==> exists|handle: &mut F|
                            *handle == steps[k].before && *final(handle) == steps[k].file
                                && steps[k].block == *old(state).wal_index@[k].data
                                && call_ensures(
                                <F::WalIndex as WalIndex<F>>::push,
                                (
                                    handle,
                                    old(state).wal_index@[k].region,
                                    &*old(state).wal_index@[k].data,
                                ),
                                steps[k].result,
                            )
                    &&& match first_error(steps) {
                        Some(err) => {
                            &&& reply == Reply { code: SQLITE_IOERR_SHMLOCK, error: Some(err) }
                            &&& final(state).file == file_after(old(state).file, steps)
                        },
                        None => exists|
                            handle: &mut F,
                            band: Range<u8>,
                            to: WalIndexLock,
                            result: Result<bool, Error>,
                        |
                            {
                                &&& *handle == file_after(old(state).file, steps)
                                &&& *final(handle) == final(state).file
                                &&& band.start == offset
                                &&& band.end == offset + n
                                &&& to == WalIndexLock::spec_from_shm_flags(
                                    flags & SQLITE_SHM_LOCK > 0,
                                    flags & SQLITE_SHM_EXCLUSIVE > 0,
                                )
                                &&& call_ensures(
                                    <F::WalIndex as WalIndex<F>>::lock,
                                    (handle, band, to),
                                    result,
                                )
                                &&& reply == spec_shm_lock_reply(result)
                            },
                    }
                },
        },
        reply.code == SQLITE_OK || reply.code == SQLITE_BUSY || reply.code
            == SQLITE_IOERR_SHMLOCK,
        !(0 <= offset && 0 <= n && offset + n <= 255) ==> reply.code == SQLITE_IOERR_SHMLOCK,
        (reply.code == SQLITE_IOERR_SHMLOCK) == (reply.error is Some),
        final(state)@ == (FileView {
            last_errno: final(state)@.last_errno,
            locks: final(state)@.locks,
            ..old(state)@
        }),
        final(state)@.last_errno == if reply.code == SQLITE_IOERR_SHMLOCK {
            SQLITE_IOERR_SHMLOCK
        } else {
            old(state)@.last_errno
        },
        reply.code != SQLITE_OK ==> final(state)@.locks == old(state)@.locks,
        reply.code == SQLITE_OK ==> forall|r: u8|
            #[trigger] held_lock(final(state)@.locks, r) == if offset <= r < offset + n {
                WalIndexLock::spec_from_shm_flags(
                    flags & SQLITE_SHM_LOCK > 0,
                    flags & SQLITE_SHM_EXCLUSIVE > 0,
                )
            } else {
                held_lock(old(state)@.locks, r)
            },
{
    let (start, end) = match shm_band(offset, n) {
        Some(band) => band,
        None => {
            return state.set_last_error(
                SQLITE_IOERR_SHMLOCK,
                bounds_error("lock range is out of bounds"),
            );
        },
    };
    let lock = shm_lock_kind(flags);
    let sync = state.sync_before_shm_lock(start, end, flags & SQLITE_SHM_LOCK > 0);
    if let Some(err) = sync_mapped(state, sync, true) {
        return state.set_last_error(SQLITE_IOERR_SHMLOCK, err);
    }
    let result = F::WalIndex::lock(&mut state.file, Range { start, end }, lock);
    shm_lock_reply(state, start, end, lock, result)
}

/// Memory barrier on the WAL index: the point at which the mapped regions
/// and the backend are brought in line. A file that holds the exclusive
/// lock on the database stores its regions as [`push_mapped`] does. Else, a
/// file that holds no exclusive lock on any region brings its regions up to
/// date as [`pull_mapped`] does. Failures are passed over: every region has
/// its turn.
pub fn shm_barrier<V, F: DatabaseHandle>(state: &mut FileExt<V, F>)
    ensures
        final(state)@ == old(state)@,
        spec_sync_at_barrier(old(state)@.has_exclusive_lock, old(state)@.locks)
            == WalSync::Nothing ==> *final(state) == *old(state),
        spec_sync_at_barrier(old(state)@.has_exclusive_lock, old(state)@.locks)
            == WalSync::Pull ==> exists|steps: Seq<Synced<F>>|
            {
                &&& #[trigger] trace_ends(
                    old(state).file,
                    old(state).wal_index@,
                    false,
                    steps,
                )
                &&& synced_state(*old(state), steps, *final(state), first_error(steps))
                &&& forall|k: int|
                    #![trigger steps[k]]
                    0 <= k < steps.len() ==> exists|handle: &mut F, data: &mut [u8; 32768]|
                        *handle == steps[k].before && *final(handle) == steps[k].file && *data
                            == *old(state).wal_index@[k].data && *final(data)
                            == steps[k].block && call_ensures(
                            <F::WalIndex as WalIndex<F>>::pull,
                            (handle, old(state).wal_index@[k].region, data),
                            steps[k].result,
                        )
            },
        spec_sync_at_barrier(old(state)@.has_exclusive_lock, old(state)@.locks)
            == WalSync::Push ==> exists|steps: Seq<Synced<F>>|
            {
                &&& #[trigger] trace_ends(
                    old(state).file,
                    old(state).wal_index@,
                    false,
                    steps,
                )
                &&& synced_state(*old(state), steps, *final(state), first_error(steps))
                &&& forall|k: int|
                    #![trigger steps[k]]
                    0 <= k < steps.len() ==> exists|handle: &mut F|
                        *handle == steps[k].before && *final(handle) == steps[k].file
                            && steps[k].block == *old(state).wal_index@[k].data && call_ensures(
                            <F::WalIndex as WalIndex<F>>::push,
                            (
                                handle,
                                old(state).wal_index@[k].region,
                                &*old(state).wal_index@[k].data,
                            ),
                            steps[k].result,
                        )
            },
{
    let sync = state.sync_at_barrier();
    let _ = sync_mapped(state, sync, false);
}

/// Unmap the WAL index: forget the mapped regions and the locks. With
/// `delete_flags` set to one, the backend deletes the WAL index, and a
/// failure to do so is answered with [`SQLITE_ERROR`].
pub fn shm_unmap<V, F: DatabaseHandle>(state: &mut FileExt<V, F>, delete_flags: i32) -> (reply:
    Reply)
    ensures
        delete_flags != 1 ==> final(state).file == old(state).file,
        delete_flags == 1 ==> exists|handle: &mut F, result: Result<(), Error>|
            *handle == old(state).file && *final(handle) == final(state).file && call_ensures(
                <F::WalIndex as WalIndex<F>>::delete,
                (handle,),
                result,
            ) && reply == spec_reply_or(result, SQLITE_ERROR),
        reply.code == SQLITE_OK || reply.code == SQLITE_ERROR,
        delete_flags != 1 ==> reply.code == SQLITE_OK,
        (reply.code == SQLITE_OK) == (reply.error is None),
        final(state)@ == (FileView {
            mapped: Seq::empty(),
            locks: Map::empty(),
            last_errno: if reply.code == SQLITE_OK {
                old(state)@.last_errno
            } else {
                SQLITE_ERROR
            },
            ..old(state)@
        }),
{
    state.wal_index.clear();
    state.wal_index_locks.clear();
    assert(state@.mapped =~= Seq::<u32>::empty());
    if delete_flags == 1 {
        let result = F::WalIndex::delete(&mut state.file);
        let reply = reply_or(state, result, SQLITE_ERROR);
        assert(state@.mapped =~= Seq::<u32>::empty());
        reply
    } else {
        Reply::code(SQLITE_OK)
    }
}

} // verus!
