//! Integers shared with the database engine: result codes, flags and opcodes.

use vstd::prelude::*;

verus! {

// Result codes.

/// Successful result.
pub const SQLITE_OK: i32 = 0;

/// Generic error.
pub const SQLITE_ERROR: i32 = 1;

/// The database file is locked.
pub const SQLITE_BUSY: i32 = 5;

/// Reported when deleting a file fails for a reason other than its absence.
pub const SQLITE_DELETE: i32 = 9;

/// Some kind of disk I/O error occurred.
pub const SQLITE_IOERR: i32 = 10;

/// Unknown opcode in a file-control request.
pub const SQLITE_NOTFOUND: i32 = 12;

/// The write failed because the storage is full.
pub const SQLITE_FULL: i32 = 13;

/// Unable to open the database file.
pub const SQLITE_CANTOPEN: i32 = 14;

/// A read failed.
pub const SQLITE_IOERR_READ: i32 = 266;

/// A read reached the end of the file before filling the buffer.
pub const SQLITE_IOERR_SHORT_READ: i32 = 522;

/// A write failed.
pub const SQLITE_IOERR_WRITE: i32 = 778;

/// A sync failed.
pub const SQLITE_IOERR_FSYNC: i32 = 1034;

/// Changing the length of the file failed.
pub const SQLITE_IOERR_TRUNCATE: i32 = 1546;

/// Reading the size of the file failed.
pub const SQLITE_IOERR_FSTAT: i32 = 1802;

/// Releasing a lock failed.
pub const SQLITE_IOERR_UNLOCK: i32 = 2058;

/// Deleting a file failed.
pub const SQLITE_IOERR_DELETE: i32 = 2570;

/// Checking the access permissions failed.
pub const SQLITE_IOERR_ACCESS: i32 = 3338;

/// Checking for a reserved lock failed.
pub const SQLITE_IOERR_CHECKRESERVEDLOCK: i32 = 3594;

/// Acquiring a lock failed.
pub const SQLITE_IOERR_LOCK: i32 = 3850;

/// Closing a file failed.
pub const SQLITE_IOERR_CLOSE: i32 = 4106;

/// Locking a WAL-index region failed.
pub const SQLITE_IOERR_SHMLOCK: i32 = 5130;

/// Mapping a WAL-index region failed.
pub const SQLITE_IOERR_SHMMAP: i32 = 5386;

/// The file to delete does not exist.
pub const SQLITE_IOERR_DELETE_NOENT: i32 = 5898;

// The levels of a database lock.

/// No lock.
pub const SQLITE_LOCK_NONE: i32 = 0;

/// A shared lock.
pub const SQLITE_LOCK_SHARED: i32 = 1;

/// A reserved lock.
pub const SQLITE_LOCK_RESERVED: i32 = 2;

/// A pending lock.
pub const SQLITE_LOCK_PENDING: i32 = 3;

/// An exclusive lock.
pub const SQLITE_LOCK_EXCLUSIVE: i32 = 4;

// Flags of an open request.

/// Open for reading only.
pub const SQLITE_OPEN_READONLY: i32 = 0x1;

/// Open for reading and writing.
pub const SQLITE_OPEN_READWRITE: i32 = 0x2;

/// Create the file if it does not exist.
pub const SQLITE_OPEN_CREATE: i32 = 0x4;

/// Delete the file when it is closed.
pub const SQLITE_OPEN_DELETEONCLOSE: i32 = 0x8;

/// Together with create: fail if the file exists.
pub const SQLITE_OPEN_EXCLUSIVE: i32 = 0x10;

/// The main database file.
pub const SQLITE_OPEN_MAIN_DB: i32 = 0x100;

/// A temporary database file.
pub const SQLITE_OPEN_TEMP_DB: i32 = 0x200;

/// A transient database file.
pub const SQLITE_OPEN_TRANSIENT_DB: i32 = 0x400;

/// The rollback journal of the main database.
pub const SQLITE_OPEN_MAIN_JOURNAL: i32 = 0x800;

/// The rollback journal of a temporary database.
pub const SQLITE_OPEN_TEMP_JOURNAL: i32 = 0x1000;

/// A statement journal.
pub const SQLITE_OPEN_SUBJOURNAL: i32 = 0x2000;

/// A super-journal.
pub const SQLITE_OPEN_SUPER_JOURNAL: i32 = 0x4000;

/// A write-ahead log.
pub const SQLITE_OPEN_WAL: i32 = 0x80000;

// Flags of an access check.

/// Does the file exist?
pub const SQLITE_ACCESS_EXISTS: i32 = 0;

/// Can the file be read and written?
pub const SQLITE_ACCESS_READWRITE: i32 = 1;

/// Can the file be read?
pub const SQLITE_ACCESS_READ: i32 = 2;

// Flags of a sync request.

/// An ordinary sync.
pub const SQLITE_SYNC_NORMAL: i32 = 0x2;

/// A full sync.
pub const SQLITE_SYNC_FULL: i32 = 0x3;

/// Only the data of the file needs to be synced, not its metadata.
pub const SQLITE_SYNC_DATAONLY: i32 = 0x10;

// Flags of a WAL-index lock request.

/// Release the lock.
pub const SQLITE_SHM_UNLOCK: i32 = 1;

/// Acquire the lock.
pub const SQLITE_SHM_LOCK: i32 = 2;

/// The lock is shared.
pub const SQLITE_SHM_SHARED: i32 = 4;

/// The lock is exclusive.
pub const SQLITE_SHM_EXCLUSIVE: i32 = 8;

// Device characteristics.

/// Writes of any size are atomic.
pub const SQLITE_IOCAP_ATOMIC: i32 = 0x1;

/// Appended data is written before the size of the file is extended.
pub const SQLITE_IOCAP_SAFE_APPEND: i32 = 0x200;

/// Data reaches the storage in the order in which it was written.
pub const SQLITE_IOCAP_SEQUENTIAL: i32 = 0x400;

/// A power loss changes no byte but those being written.
pub const SQLITE_IOCAP_POWERSAFE_OVERWRITE: i32 = 0x1000;

// Opcodes of a file-control request.

/// Report the lock the file currently holds.
pub const SQLITE_FCNTL_LOCKSTATE: i32 = 1;

/// Query the lock proxy file.
pub const SQLITE_FCNTL_GET_LOCKPROXYFILE: i32 = 2;

/// Set the lock proxy file.
pub const SQLITE_FCNTL_SET_LOCKPROXYFILE: i32 = 3;

/// Report the number of the last error.
pub const SQLITE_FCNTL_LAST_ERRNO: i32 = 4;

/// Announce how large the file is going to grow.
pub const SQLITE_FCNTL_SIZE_HINT: i32 = 5;

/// Grow and shrink the file in chunks of the given size.
pub const SQLITE_FCNTL_CHUNK_SIZE: i32 = 6;

/// Handled by the engine itself.
pub const SQLITE_FCNTL_FILE_POINTER: i32 = 7;

/// No longer in use.
pub const SQLITE_FCNTL_SYNC_OMITTED: i32 = 8;

/// Retry behaviour in the presence of anti-virus programs.
pub const SQLITE_FCNTL_WIN32_AV_RETRY: i32 = 9;

/// The persistent WAL setting.
pub const SQLITE_FCNTL_PERSIST_WAL: i32 = 10;

/// The whole file is going to be overwritten.
pub const SQLITE_FCNTL_OVERWRITE: i32 = 11;

/// Report the name of the virtual file system.
pub const SQLITE_FCNTL_VFSNAME: i32 = 12;

/// The powersafe-overwrite setting.
pub const SQLITE_FCNTL_POWERSAFE_OVERWRITE: i32 = 13;

/// Offers a pragma statement for interception.
pub const SQLITE_FCNTL_PRAGMA: i32 = 14;

/// Hands over the busy handler of the connection.
pub const SQLITE_FCNTL_BUSYHANDLER: i32 = 15;

/// Generate the name of a temporary file.
pub const SQLITE_FCNTL_TEMPFILENAME: i32 = 16;

/// The size limit of memory-mapped I/O.
pub const SQLITE_FCNTL_MMAP_SIZE: i32 = 18;

/// Advisory information about what the engine is doing.
pub const SQLITE_FCNTL_TRACE: i32 = 19;

/// Has the file been moved or deleted since it was opened?
pub const SQLITE_FCNTL_HAS_MOVED: i32 = 20;

/// Sent right before a sync.
pub const SQLITE_FCNTL_SYNC: i32 = 21;

/// Sent after a transaction has been committed.
pub const SQLITE_FCNTL_COMMIT_PHASETWO: i32 = 22;

/// Swap the native file handle.
pub const SQLITE_FCNTL_WIN32_SET_HANDLE: i32 = 23;

/// Blocking on the next WAL lock may be of advantage.
pub const SQLITE_FCNTL_WAL_BLOCK: i32 = 24;

/// Reserved for a compressing file system.
pub const SQLITE_FCNTL_ZIPVFS: i32 = 25;

/// Reserved for the resumable bulk update extension.
pub const SQLITE_FCNTL_RBU: i32 = 26;

/// Handled by the engine itself.
pub const SQLITE_FCNTL_VFS_POINTER: i32 = 27;

/// Handled by the engine itself.
pub const SQLITE_FCNTL_JOURNAL_POINTER: i32 = 28;

/// Report the native file handle.
pub const SQLITE_FCNTL_WIN32_GET_HANDLE: i32 = 29;

/// Undocumented.
pub const SQLITE_FCNTL_PDB: i32 = 30;

/// Start a batch of atomic writes.
pub const SQLITE_FCNTL_BEGIN_ATOMIC_WRITE: i32 = 31;

/// Commit a batch of atomic writes.
pub const SQLITE_FCNTL_COMMIT_ATOMIC_WRITE: i32 = 32;

/// Roll back a batch of atomic writes.
pub const SQLITE_FCNTL_ROLLBACK_ATOMIC_WRITE: i32 = 33;

/// How long to block when acquiring a lock.
pub const SQLITE_FCNTL_LOCK_TIMEOUT: i32 = 34;

/// Handled by the engine itself.
pub const SQLITE_FCNTL_DATA_VERSION: i32 = 35;

/// The size limit of an in-memory database.
pub const SQLITE_FCNTL_SIZE_LIMIT: i32 = 36;

/// Sent after a checkpoint has copied its pages.
pub const SQLITE_FCNTL_CKPT_DONE: i32 = 37;

/// Handled by the engine itself.
pub const SQLITE_FCNTL_RESERVE_BYTES: i32 = 38;

/// Sent before a checkpoint starts to copy pages.
pub const SQLITE_FCNTL_CKPT_START: i32 = 39;

/// Is there a reader in another process?
pub const SQLITE_FCNTL_EXTERNAL_READER: i32 = 40;

/// Reserved for the checksum file system.
pub const SQLITE_FCNTL_CKSM_FILE: i32 = 41;

} // verus!
