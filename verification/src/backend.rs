//! What a backend has to offer: a file system, the files it opens, and the
//! WAL index of a file.

use std::ops::Range;
use vstd::prelude::*;

use crate::error::{Error, ErrorKind};
use crate::lock::Lock;
use crate::open_options::OpenOptions;
use crate::wal_lock::WalIndexLock;

verus! {

/// A file opened by a [`Vfs`].
pub trait DatabaseHandle: Sized {
    /// How the WAL index of the file is stored; [`WalDisabled`] where it is
    /// not.
    type WalIndex: WalIndex<Self>;

    /// Return the current size in bytes of the database.
    fn size(&self) -> Result<u64, Error>;

    /// Read the exact number of bytes required to fill `buf` from the given
    /// `offset`.
    fn read_exact_at(&self, buf: &mut [u8], offset: u64) -> Result<(), Error>;

    /// Attempt to write all of `buf` starting from the given `offset`.
    fn write_all_at(&mut self, buf: &[u8], offset: u64) -> Result<(), Error>;

    /// Make sure all writes are committed to the underlying storage. If
    /// `data_only` is set, only the data and not the metadata (like size,
    /// access time, etc) should be synced.
    fn sync(&mut self, data_only: bool) -> Result<(), Error>;

    /// Set the database file to the specified `size`. Truncates or extends
    /// the underlying storage.
    fn set_len(&mut self, size: u64) -> Result<(), Error>;

    /// Lock the database. Returns whether the requested lock could be
    /// acquired.
    ///
    /// The lock is never moved from [`Lock::Unlocked`] to anything higher
    /// than [`Lock::Shared`], a [`Lock::Pending`] is never requested
    /// explicitly, and a [`Lock::Shared`] is always held when a
    /// [`Lock::Reserved`] lock is requested.
    fn lock(&mut self, lock: Lock) -> Result<bool, Error>;

    /// Unlock the database. Unless a file says otherwise, it unlocks by
    /// asking [`DatabaseHandle::lock`] for the lower lock: what that does to
    /// the file and what it answers is what unlocking does and answers.
    fn unlock(&mut self, lock: Lock) -> (r: Result<bool, Error>)
        default_ensures
            exists|handle: &mut Self|
                *handle == *old(self) && *final(handle) == *final(self) && call_ensures(
                    Self::lock,
                    (handle, lock),
                    r,
                ),
    {
        self.lock(lock)
    }

    /// Check if the database this handle points to holds a
    /// [`Lock::Reserved`], [`Lock::Pending`] or [`Lock::Exclusive`] lock.
    fn is_reserved(&self) -> Result<bool, Error>;

    /// Return the current [`Lock`] of this handle.
    fn current_lock(&self) -> Result<Lock, Error>;

    /// Change the chunk size of the database to `chunk_size`. Unless a file
    /// says otherwise, it takes every chunk size.
    fn set_chunk_size(&self, _chunk_size: usize) -> (r: Result<(), Error>)
        default_ensures
            r is Ok,
    {
        Ok(())
    }
}

/// A virtual file system for the database engine.
pub trait Vfs {
    /// The file returned by [`Vfs::open`].
    type Handle: DatabaseHandle;

    /// Open the database `db` (of type `opts.kind`).
    fn open(&self, db: &str, opts: OpenOptions) -> Result<Self::Handle, Error>;

    /// Delete the database `db`.
    fn delete(&self, db: &str) -> Result<(), Error>;

    /// Check if a database `db` already exists.
    fn db_exists(&self, db: &str) -> Result<bool, Error>;

    /// Generate and return a path for a temporary database.
    fn temporary_name(&self) -> String;

    /// Check access to `db`. Unless a file system says otherwise, every
    /// access is granted.
    fn access(&self, _db: &str, _write: bool) -> (r: Result<bool, Error>)
        default_ensures
            r matches Ok(granted) && granted,
    {
        Ok(true)
    }

    /// Retrieve the full pathname of a database `db`. Unless a file system
    /// says otherwise, that is `db` as it is.
    fn full_pathname(&self, db: &str) -> (r: Result<String, Error>)
        default_ensures
            r matches Ok(name) && name@ == db@,
    {
        Ok(db.to_owned())
    }
}

/// How the WAL index of a file `T` is stored.
pub trait WalIndex<T> {
    /// Whether the file supports a WAL at all. Unless an implementation
    /// says otherwise, it does.
    fn enabled() -> (r: bool)
        default_ensures
            r,
    {
        true
    }

    /// The block of the region `region`.
    fn map(handle: &mut T, region: u32) -> Result<[u8; 32768], Error>;

    /// Move the lock on the regions `locks` to `lock`. Returns whether the
    /// lock could be acquired.
    fn lock(handle: &mut T, locks: Range<u8>, lock: WalIndexLock) -> Result<bool, Error>;

    /// Delete the WAL index.
    fn delete(handle: &mut T) -> Result<(), Error>;

    /// Bring `data` up to date with the stored block of `region`. Unless an
    /// implementation says otherwise, there is nothing stored elsewhere:
    /// the block and the file stay as they are.
    fn pull(_handle: &mut T, _region: u32, _data: &mut [u8; 32768]) -> (r: Result<(), Error>)
        default_ensures
            r is Ok,
            *final(_handle) == *old(_handle),
            *final(_data) == *old(_data),
    {
        Ok(())
    }

    /// Store `data` as the block of `region`. Unless an implementation says
    /// otherwise, there is nothing to store it in: the file stays as it is.
    fn push(_handle: &mut T, _region: u32, _data: &[u8; 32768]) -> (r: Result<(), Error>)
        default_ensures
            r is Ok,
            *final(_handle) == *old(_handle),
    {
        Ok(())
    }
}

/// The WAL index of a file that supports no WAL.
#[derive(Default)]
pub struct WalDisabled;

impl<T> WalIndex<T> for WalDisabled {
    fn enabled() -> bool
        returns
            false,
    {
        false
    }

    fn map(_handle: &mut T, _region: u32) -> (r: Result<[u8; 32768], Error>)
        ensures
            r matches Err(err) && err.kind == ErrorKind::Other && err.message@
                == "wal is disabled"@,
            *final(_handle) == *old(_handle),
    {
        Err(Error::other("wal is disabled"))
    }

    fn lock(_handle: &mut T, _locks: Range<u8>, _lock: WalIndexLock) -> (r: Result<bool, Error>)
        ensures
            r matches Err(err) && err.kind == ErrorKind::Other && err.message@
                == "wal is disabled"@,
            *final(_handle) == *old(_handle),
    {
        Err(Error::other("wal is disabled"))
    }

    fn delete(_handle: &mut T) -> (r: Result<(), Error>)
        ensures
            r is Ok,
    {
        Ok(())
    }
}

} // verus!
