use std::cell::{Cell, RefCell};
use std::collections::HashMap;
use std::ops::Range;
use std::rc::Rc;

use sqlite_vfs::backend::{DatabaseHandle, Vfs, WalDisabled, WalIndex};
use sqlite_vfs::error::{null_ptr_error, Error, ErrorKind, Reply};
use sqlite_vfs::io::{
    check_reserved_lock, check_reserved_lock_reply, chunk_size_reply, chunked, close,
    close_reply, control_kind, device_characteristics, file_control, file_control_arg, file_size,
    file_size_reply, lock, lock_reply, lock_state_control, mem_fetch, mem_unfetch, pull_mapped,
    push_mapped, read, read_reply, reply_or, round_up, sector_size, shm_band, shm_barrier,
    shm_lock, shm_lock_kind, shm_lock_reply, shm_map, shm_map_reply, shm_unmap, sync,
    sync_data_only, sync_mapped, truncate, truncate_size, unlock, write_reply, Control,
    ControlArg, ControlKind, WalSync,
};
use sqlite_vfs::io::{map_plan, MapPlan};
use sqlite_vfs::lock::Lock;
use sqlite_vfs::open_options::{OpenAccess, OpenKind, OpenOptions};
use sqlite_vfs::vfs::{
    access, access_check, access_reply, c_string, current_time_int64, delete, delete_reply,
    find_nul, full_pathname, full_pathname_reply, get_last_error, julian_millis, open,
    open_failure_code, opened, randomness, register, registered, retries_read_only, sleep,
    sleep_micros, AccessCheck, FileExt, RegisterError, State,
};
use sqlite_vfs::wal_lock::WalIndexLock;

type Log = Rc<RefCell<Vec<String>>>;

/// What the backend is told to do wrong.
#[derive(Default)]
struct Faults {
    /// The kind of error that every call of the file fails with.
    file: Cell<Option<ErrorKind>>,
    /// The kind of error that opening for more than reading fails with.
    open_write: Cell<Option<ErrorKind>>,
    /// The kind of error that opening fails with.
    open: Cell<Option<ErrorKind>>,
    /// The kind of error that deleting fails with.
    delete: Cell<Option<ErrorKind>>,
    /// Locks are not granted.
    busy: Cell<bool>,
    /// The lock that the file reports to hold.
    current: Cell<Option<Lock>>,
}

struct MemVfs {
    log: Log,
    faults: Rc<Faults>,
    content: Vec<u8>,
}

struct MemFile {
    log: Log,
    faults: Rc<Faults>,
    data: Vec<u8>,
    stored: HashMap<u32, u8>,
}

struct MemWal;

fn fail(kind: ErrorKind) -> Error {
    Error::new(kind, "injected")
}

impl MemFile {
    fn note(&self, what: String) -> Result<(), Error> {
        self.log.borrow_mut().push(what);
        match self.faults.file.get() {
            Some(kind) => Err(fail(kind)),
            None => Ok(()),
        }
    }
}

impl DatabaseHandle for MemFile {
    type WalIndex = MemWal;

    fn size(&self) -> Result<u64, Error> {
        self.note("size".to_string())?;
        Ok(self.data.len() as u64)
    }

    fn read_exact_at(&self, buf: &mut [u8], offset: u64) -> Result<(), Error> {
        self.note(format!("read {} at {}", buf.len(), offset))?;
        let start = (offset as usize).min(self.data.len());
        let n = buf.len().min(self.data.len() - start);
        buf[..n].copy_from_slice(&self.data[start..start + n]);
        if n < buf.len() {
            return Err(Error::new(ErrorKind::UnexpectedEof, "failed to fill whole buffer"));
        }
        Ok(())
    }

    fn write_all_at(&mut self, buf: &[u8], offset: u64) -> Result<(), Error> {
        self.note(format!("write {} at {}", buf.len(), offset))?;
        let end = offset as usize + buf.len();
        if self.data.len() < end {
            self.data.resize(end, 0);
        }
        self.data[offset as usize..end].copy_from_slice(buf);
        Ok(())
    }

    fn sync(&mut self, data_only: bool) -> Result<(), Error> {
        self.note(format!("sync {}", data_only))
    }

    fn set_len(&mut self, size: u64) -> Result<(), Error> {
        self.note(format!("set_len {}", size))?;
        // sizes beyond a megabyte are only taken note of
        if size <= 1 << 20 {
            self.data.resize(size as usize, 0);
        }
        Ok(())
    }

    fn lock(&mut self, lock: Lock) -> Result<bool, Error> {
        self.note(format!("lock {:?}", lock))?;
        Ok(!self.faults.busy.get())
    }

    fn is_reserved(&self) -> Result<bool, Error> {
        self.note("is_reserved".to_string())?;
        Ok(self.faults.busy.get())
    }

    fn current_lock(&self) -> Result<Lock, Error> {
        self.note("current_lock".to_string())?;
        Ok(self.faults.current.get().unwrap_or(Lock::Unlocked))
    }

    fn set_chunk_size(&self, chunk_size: usize) -> Result<(), Error> {
        self.note(format!("set_chunk_size {}", chunk_size))
    }
}

impl WalIndex<MemFile> for MemWal {
    fn map(handle: &mut MemFile, region: u32) -> Result<[u8; 32768], Error> {
        handle.note(format!("map {}", region))?;
        Ok([handle.stored.get(&region).copied().unwrap_or(0); 32768])
    }

    fn lock(handle: &mut MemFile, locks: Range<u8>, lock: WalIndexLock) -> Result<bool, Error> {
        handle.note(format!("wal lock {:?} {:?}", locks, lock))?;
        Ok(!handle.faults.busy.get())
    }

    fn delete(handle: &mut MemFile) -> Result<(), Error> {
        handle.note("wal delete".to_string())?;
        handle.stored.clear();
        Ok(())
    }

    fn pull(handle: &mut MemFile, region: u32, data: &mut [u8; 32768]) -> Result<(), Error> {
        handle.note(format!("pull {}", region))?;
        data.fill(handle.stored.get(&region).copied().unwrap_or(0));
        Ok(())
    }

    fn push(handle: &mut MemFile, region: u32, data: &[u8; 32768]) -> Result<(), Error> {
        handle.note(format!("push {}", region))?;
        handle.stored.insert(region, data[0]);
        Ok(())
    }
}

impl Vfs for MemVfs {
    type Handle = MemFile;

    fn open(&self, db: &str, opts: OpenOptions) -> Result<MemFile, Error> {
        self.log.borrow_mut().push(format!("open {} {:?}", db, opts.access));
        if let Some(kind) = self.faults.open.get() {
            return Err(fail(kind));
        }
        if opts.access != OpenAccess::Read {
            if let Some(kind) = self.faults.open_write.get() {
                return Err(Error::new(kind, "no writing"));
            }
        }
        Ok(MemFile {
            log: self.log.clone(),
            faults: self.faults.clone(),
            data: self.content.clone(),
            stored: HashMap::new(),
        })
    }

    fn delete(&self, db: &str) -> Result<(), Error> {
        self.log.borrow_mut().push(format!("delete {}", db));
        match self.faults.delete.get() {
            Some(kind) => Err(fail(kind)),
            None => Ok(()),
        }
    }

    fn db_exists(&self, db: &str) -> Result<bool, Error> {
        self.log.borrow_mut().push(format!("exists {}", db));
        match self.faults.file.get() {
            Some(kind) => Err(fail(kind)),
            None => Ok(db == "there"),
        }
    }

    fn temporary_name(&self) -> String {
        "temp.db".to_string()
    }
}

/// A file system that relies on the defaults of the trait, with files
/// without WAL.
struct PlainVfs;

struct PlainFile;

impl DatabaseHandle for PlainFile {
    type WalIndex = WalDisabled;

    fn size(&self) -> Result<u64, Error> {
        Ok(u64::MAX)
    }

    fn read_exact_at(&self, _buf: &mut [u8], _offset: u64) -> Result<(), Error> {
        Ok(())
    }

    fn write_all_at(&mut self, _buf: &[u8], _offset: u64) -> Result<(), Error> {
        Err(Error::new(ErrorKind::WriteZero, "full"))
    }

    fn sync(&mut self, _data_only: bool) -> Result<(), Error> {
        Ok(())
    }

    fn set_len(&mut self, _size: u64) -> Result<(), Error> {
        Ok(())
    }

    fn lock(&mut self, lock: Lock) -> Result<bool, Error> {
        Ok(lock != Lock::Exclusive)
    }

    fn is_reserved(&self) -> Result<bool, Error> {
        Ok(false)
    }

    fn current_lock(&self) -> Result<Lock, Error> {
        Ok(Lock::Pending)
    }
}

impl Vfs for PlainVfs {
    type Handle = PlainFile;

    fn open(&self, _db: &str, _opts: OpenOptions) -> Result<PlainFile, Error> {
        Ok(PlainFile)
    }

    fn delete(&self, _db: &str) -> Result<(), Error> {
        Err(Error::new(ErrorKind::NotFound, "gone"))
    }

    fn db_exists(&self, _db: &str) -> Result<bool, Error> {
        Ok(false)
    }

    fn temporary_name(&self) -> String {
        "plain.tmp".to_string()
    }
}

const MAIN_DB_CREATE: i32 = 0x100 | 0x2 | 0x4;

struct Setup {
    state: State<MemVfs>,
    log: Log,
    faults: Rc<Faults>,
}

fn setup(content: Vec<u8>) -> Setup {
    let log: Log = Default::default();
    let faults: Rc<Faults> = Default::default();
    let vfs = MemVfs { log: log.clone(), faults: faults.clone(), content };
    let state = register("mem", vfs).unwrap();
    Setup { state, log, faults }
}

fn open_file(setup: &mut Setup) -> FileExt<MemVfs, MemFile> {
    let opened = open(&mut setup.state, Some(b"main.db"), MAIN_DB_CREATE, true);
    assert_eq!(opened.reply, Reply::code(0));
    setup.log.borrow_mut().clear();
    opened.file.unwrap()
}

fn plain_file() -> FileExt<PlainVfs, PlainFile> {
    let mut state = register("plain", PlainVfs).unwrap();
    open(&mut state, Some(b"plain.db"), MAIN_DB_CREATE, true).file.unwrap()
}

fn taken(log: &Log) -> Vec<String> {
    std::mem::take(&mut *log.borrow_mut())
}

fn failed(code: i32) -> Reply {
    Reply::fail(code, fail(ErrorKind::Other))
}

#[test]
fn a_name_with_a_zero_byte_cannot_be_registered() {
    assert_eq!(register("a\0b", PlainVfs).err(), Some(RegisterError::Nul(1)));
    assert_eq!(register("\0", PlainVfs).err(), Some(RegisterError::Nul(0)));
    let state = register("test-vfs", PlainVfs).unwrap();
    assert_eq!(state.name, "test-vfs");
    assert_eq!(state.next_id, 0);
    assert_eq!(registered(0), Ok(()));
    assert_eq!(registered(1), Err(RegisterError::Register(1)));
    assert_eq!(registered(21), Err(RegisterError::Register(21)));
    assert_eq!(find_nul(b"abc"), None);
    assert_eq!(find_nul(b"a\0b\0"), Some(1));
    assert_eq!(c_string(b"abc"), Some(b"abc\0".to_vec()));
    assert_eq!(c_string(b""), Some(vec![0]));
    assert_eq!(c_string(b"a\0"), None);
}

#[test]
fn a_file_is_opened() {
    let mut setup = setup(Vec::new());
    let opened = open(&mut setup.state, Some(b"main.db"), MAIN_DB_CREATE, true);
    assert_eq!(opened.reply, Reply::code(0));
    assert_eq!(opened.out_flags, MAIN_DB_CREATE);
    let file = opened.file.unwrap();
    assert_eq!(file.vfs_name, "mem");
    assert_eq!(file.db_name, "main.db");
    assert!(!file.delete_on_close);
    assert_eq!(file.last_errno, 0);
    assert!(file.wal_index.is_empty());
    assert!(file.wal_index_locks.is_empty());
    assert!(!file.has_exclusive_lock);
    assert_eq!(file.id, 0);
    assert_eq!(file.chunk_size, None);
    assert_eq!(taken(&setup.log), vec!["open main.db Create"]);
    assert_eq!(setup.state.next_id, 1);

    // the next file has the next number
    let opened = open(&mut setup.state, Some(b"main.db-journal"), 0x800 | 0x2 | 0x8, true);
    let file = opened.file.unwrap();
    assert_eq!(file.id, 1);
    assert!(file.delete_on_close);
    assert_eq!(opened.out_flags, 0x800 | 0x2 | 0x8);
    assert_eq!(setup.state.next_id, 2);

    setup.state.next_id = usize::MAX;
    let opened = open(&mut setup.state, Some(b"x"), MAIN_DB_CREATE, true);
    assert_eq!(opened.file.unwrap().id, usize::MAX);
    assert_eq!(setup.state.next_id, 0);
}

#[test]
fn a_file_without_a_name_is_temporary() {
    let mut setup = setup(Vec::new());
    let opened = open(&mut setup.state, None, 0x200 | 0x2 | 0x4 | 0x8, true);
    assert_eq!(opened.reply, Reply::code(0));
    assert_eq!(opened.file.unwrap().db_name, "temp.db");
    assert_eq!(taken(&setup.log), vec!["open temp.db Create"]);

    let opened = open(&mut setup.state, None, 0x200 | 0x2 | 0x4, true);
    assert_eq!(
        opened.reply,
        Reply::fail(14, Error::other("delete on close expected for temporary database"))
    );
    assert!(opened.file.is_none());
    assert!(taken(&setup.log).is_empty());
    assert_eq!(setup.state.next_id, 1);
}

#[test]
fn what_cannot_be_opened() {
    let mut setup = setup(Vec::new());
    let opened = open(&mut setup.state, Some(&[0xff, 0xfe]), MAIN_DB_CREATE, true);
    assert_eq!(
        opened.reply,
        Reply::fail(14, Error::other("database must be defined and a valid utf8 string"))
    );
    assert!(opened.file.is_none());
    let opened = open(&mut setup.state, Some(b"main.db"), 0x100, true);
    assert_eq!(opened.reply, Reply::fail(14, Error::other("invalid open flags")));
    let opened = open(&mut setup.state, Some(b"main.db"), 0x6, true);
    assert_eq!(opened.reply, Reply::fail(14, Error::other("invalid open flags")));
    let opened = open(&mut setup.state, Some(b"main.db"), MAIN_DB_CREATE, false);
    assert_eq!(opened.reply, Reply::fail(14, Error::other("invalid file pointer")));
    // the backend was never asked, and no number was used up
    assert!(taken(&setup.log).is_empty());
    assert_eq!(setup.state.next_id, 0);
}

#[test]
fn a_denied_file_is_opened_for_reading() {
    let mut setup = setup(Vec::new());
    setup.faults.open_write.set(Some(ErrorKind::PermissionDenied));
    let opened = open(&mut setup.state, Some(b"main.db"), MAIN_DB_CREATE | 0x8, true);
    assert_eq!(opened.reply, Reply::code(0));
    assert_eq!(opened.out_flags, 0x100 | 0x1 | 0x8);
    assert!(opened.file.is_some());
    assert_eq!(taken(&setup.log), vec!["open main.db Create", "open main.db Read"]);

    // a file that is asked for reading is not tried twice
    setup.faults.open.set(Some(ErrorKind::PermissionDenied));
    let opened = open(&mut setup.state, Some(b"main.db"), 0x100 | 0x1, true);
    assert_eq!(opened.reply, Reply::fail(14, fail(ErrorKind::PermissionDenied)));
    assert_eq!(taken(&setup.log), vec!["open main.db Read"]);

    // the error of the first attempt is reported
    setup.faults.open.set(None);
    setup.faults.open_write.set(Some(ErrorKind::PermissionDenied));
    let mut state2 = setup.state;
    let opened = {
        setup.faults.open.set(None);
        let r = open(&mut state2, Some(b"main.db"), 0x100 | 0x2, true);
        r
    };
    assert_eq!(opened.reply, Reply::code(0));
    assert_eq!(opened.out_flags, 0x100 | 0x1);
    setup.faults.open.set(Some(ErrorKind::NotFound));
    let opened = open(&mut state2, Some(b"main.db"), 0x100 | 0x2, true);
    assert_eq!(opened.reply, Reply::fail(10, fail(ErrorKind::NotFound)));
    assert_eq!(state2.next_id, 2);
}

#[test]
fn open_failures_have_their_codes() {
    assert!(retries_read_only(ErrorKind::PermissionDenied, OpenAccess::Write));
    assert!(retries_read_only(ErrorKind::PermissionDenied, OpenAccess::Create));
    assert!(retries_read_only(ErrorKind::PermissionDenied, OpenAccess::CreateNew));
    assert!(!retries_read_only(ErrorKind::PermissionDenied, OpenAccess::Read));
    assert!(!retries_read_only(ErrorKind::NotFound, OpenAccess::Write));
    assert!(!retries_read_only(ErrorKind::Other, OpenAccess::Create));
    assert_eq!(open_failure_code(ErrorKind::PermissionDenied), 14);
    assert_eq!(open_failure_code(ErrorKind::NotFound), 10);
    assert_eq!(open_failure_code(ErrorKind::Other), 10);
}

#[test]
fn files_are_deleted() {
    let setup = setup(Vec::new());
    assert_eq!(delete(&setup.state, "a.db"), Reply::code(0));
    assert_eq!(taken(&setup.log), vec!["delete a.db"]);
    setup.faults.delete.set(Some(ErrorKind::NotFound));
    assert_eq!(delete(&setup.state, "a.db"), Reply::code(5898));
    setup.faults.delete.set(Some(ErrorKind::PermissionDenied));
    assert_eq!(delete(&setup.state, "a.db"), Reply::fail(9, fail(ErrorKind::PermissionDenied)));
}

#[test]
fn access_is_checked() {
    let setup = setup(Vec::new());
    assert_eq!(access(&setup.state, "there", 0, true), (Reply::code(0), 1));
    assert_eq!(access(&setup.state, "missing", 0, true), (Reply::code(0), 0));
    // the default of the trait grants every access
    assert_eq!(access(&setup.state, "missing", 1, true), (Reply::code(0), 1));
    assert_eq!(access(&setup.state, "missing", 2, true), (Reply::code(0), 1));
    assert_eq!(taken(&setup.log), vec!["exists there", "exists missing"]);
    assert_eq!(access(&setup.state, "there", 3, true), (Reply::code(3338), 0));
    assert_eq!(access(&setup.state, "there", -1, true), (Reply::code(3338), 0));
    assert!(taken(&setup.log).is_empty());
    assert_eq!(access(&setup.state, "there", 0, false), (Reply::fail(3338, null_ptr_error()), 0));
    setup.faults.file.set(Some(ErrorKind::Other));
    assert_eq!(access(&setup.state, "there", 0, true), (failed(3338), 0));
    assert_eq!(access_check(0), Some(AccessCheck::Exists));
    assert_eq!(access_check(1), Some(AccessCheck::ReadWrite));
    assert_eq!(access_check(2), Some(AccessCheck::Read));
    assert_eq!(access_check(4), None);
}

#[test]
fn full_pathnames_end_with_a_zero_byte() {
    let setup = setup(Vec::new());
    // the default of the trait hands the name back
    assert_eq!(full_pathname(&setup.state, "a/b.db", 513), (Reply::code(0), b"a/b.db\0".to_vec()));
    assert_eq!(full_pathname(&setup.state, "a/b.db", 7), (Reply::code(0), b"a/b.db\0".to_vec()));
    let too_long = Reply::fail(14, Error::other("full pathname is too long"));
    assert_eq!(full_pathname(&setup.state, "a/b.db", 6), (too_long.clone(), Vec::new()));
    assert_eq!(full_pathname(&setup.state, "a/b.db", -1), (too_long.clone(), Vec::new()));
    let name = "x".repeat(511);
    assert_eq!(full_pathname(&setup.state, &name, 1000).0, Reply::code(0));
    let name = "x".repeat(512);
    assert_eq!(full_pathname(&setup.state, &name, 1000), (too_long, Vec::new()));
    assert_eq!(
        full_pathname(&setup.state, "a\0b", 513),
        (Reply::fail(1, Error::other("name must not contain a nul byte")), Vec::new())
    );
}

#[test]
fn randomness_fills_the_buffer() {
    assert_eq!(randomness(16, true), vec![0u8; 16]);
    assert_eq!(randomness(0, true), Vec::<u8>::new());
    assert_eq!(randomness(-3, true), Vec::<u8>::new());
    assert_eq!(randomness(-3, false), Vec::<u8>::new());
    assert_eq!(randomness(16, false).len(), 16);
    let bytes = randomness(4096, false);
    assert_eq!(bytes.len(), 4096);
    // four thousand random bytes are not all the same
    assert!(bytes.iter().any(|b| *b != bytes[0]));
}

#[test]
fn sleeping_reports_the_time_that_passed() {
    assert_eq!(sleep_micros(1000), 1000);
    assert_eq!(sleep_micros(0), 0);
    assert_eq!(sleep_micros(-5), 0);
    assert_eq!(sleep(1000, 1234, false), 1234);
    assert_eq!(sleep(1000, 1234, true), 1000);
    assert_eq!(sleep(1000, u128::MAX, false), i32::MAX);
    assert_eq!(sleep(1000, i32::MAX as u128, false), i32::MAX);
    assert_eq!(sleep(-1, 0, true), -1);
}

#[test]
fn the_time_is_a_julian_day_number() {
    let offset: i64 = 24405875 * 8640000;
    assert_eq!(offset, 210866760000000);
    assert_eq!(julian_millis(0), offset);
    assert_eq!(julian_millis(999_999), offset);
    assert_eq!(julian_millis(1_000_000), offset + 1);
    assert_eq!(julian_millis(1_700_000_000_123_456_789), offset + 1_700_000_000_123);
    assert_eq!(julian_millis(-1), offset - 1);
    assert_eq!(julian_millis(-1_000_000), offset - 1);
    assert_eq!(julian_millis(-1_000_001), offset - 2);
    assert_eq!(julian_millis(i128::MAX), i64::MAX);
    assert_eq!(julian_millis(i128::MIN), i64::MIN);
    assert_eq!(julian_millis(i128::MIN + 1), i64::MIN);
    assert_eq!(current_time_int64(1), offset + 1000);
    assert_eq!(current_time_int64(1_700_000_000), offset + 1_700_000_000_000);
    // the clock is past the year 2020 and before the year 3000
    let now = current_time_int64(0);
    assert!(now > offset + 1_577_836_800_000);
    assert!(now < offset + 32_503_680_000_000);
    // a test time that is not positive leaves the clock in charge
    let later = current_time_int64(-1);
    assert!((later - now).abs() < 60_000);
}

#[test]
fn the_last_error_is_handed_out() {
    assert_eq!(get_last_error(None, 10), (0, None));
    assert_eq!(get_last_error(None, -1), (0, None));
    let err = Error::other("boom");
    assert_eq!(get_last_error(Some(&err), 5), (0, Some(b"boom\0".to_vec())));
    assert_eq!(get_last_error(Some(&err), 100), (0, Some(b"boom\0".to_vec())));
    assert_eq!(get_last_error(Some(&err), 4), (1, None));
    assert_eq!(get_last_error(Some(&err), -1), (1, None));
    let err = Error::other("bo\0om");
    assert_eq!(get_last_error(Some(&err), 100), (1, None));
    assert_eq!(null_ptr_error(), Error::new(ErrorKind::Other, "received null pointer"));
    assert_eq!(err.kind(), ErrorKind::Other);
}

#[test]
fn closing_deletes_temporary_files() {
    let mut setup = setup(Vec::new());
    let file = open_file(&mut setup);
    assert_eq!(close(file), Reply::code(0));
    assert!(taken(&setup.log).is_empty());

    let file = open(&mut setup.state, Some(b"t.db"), 0x200 | 0x6 | 0x8, true).file.unwrap();
    taken(&setup.log);
    assert_eq!(close(file), Reply::code(0));
    assert_eq!(taken(&setup.log), vec!["delete t.db"]);

    let file = open(&mut setup.state, Some(b"u.db"), 0x200 | 0x6 | 0x8, true).file.unwrap();
    taken(&setup.log);
    setup.faults.delete.set(Some(ErrorKind::Other));
    assert_eq!(close(file), failed(9));
    assert_eq!(taken(&setup.log), vec!["delete u.db"]);

    assert_eq!(close_reply(None), Reply::code(0));
    assert_eq!(close_reply(Some(Ok(()))), Reply::code(0));
    assert_eq!(
        close_reply(Some(Err(fail(ErrorKind::NotFound)))),
        Reply::fail(9, fail(ErrorKind::NotFound))
    );
}

#[test]
fn a_short_read_is_no_failure() {
    let mut setup = setup((0..100).collect());
    let mut file = open_file(&mut setup);
    let mut buf = [0xeeu8; 200];
    assert_eq!(read(&mut file, &mut buf, 0), Reply::code(522));
    assert_eq!(&buf[..100], &(0..100).collect::<Vec<u8>>()[..]);
    assert_eq!(file.last_errno, 0);
    let mut buf = [0u8; 10];
    assert_eq!(read(&mut file, &mut buf, 90), Reply::code(0));
    assert_eq!(buf, [90, 91, 92, 93, 94, 95, 96, 97, 98, 99]);
    assert_eq!(read(&mut file, &mut buf, 91), Reply::code(522));
    assert_eq!(taken(&setup.log), vec!["read 200 at 0", "read 10 at 90", "read 10 at 91"]);

    setup.faults.file.set(Some(ErrorKind::Other));
    assert_eq!(read(&mut file, &mut buf, 0), failed(266));
    assert_eq!(file.last_errno, 266);
    taken(&setup.log);
    let reply = read(&mut file, &mut buf, -1);
    assert_eq!(reply.code, 266);
    assert!(reply.error.is_some());
    assert!(taken(&setup.log).is_empty());
}

#[test]
fn a_full_disk_is_told_apart() {
    let mut setup = setup(Vec::new());
    let mut file = open_file(&mut setup);
    assert_eq!(sqlite_vfs::io::write(&mut file, &[1, 2, 3], 4), Reply::code(0));
    assert_eq!(file.file.data, vec![0, 0, 0, 0, 1, 2, 3]);
    setup.faults.file.set(Some(ErrorKind::WriteZero));
    assert_eq!(sqlite_vfs::io::write(&mut file, &[1], 0), Reply::code(13));
    assert_eq!(file.last_errno, 0);
    setup.faults.file.set(Some(ErrorKind::Other));
    assert_eq!(sqlite_vfs::io::write(&mut file, &[1], 0), failed(778));
    assert_eq!(file.last_errno, 778);
    taken(&setup.log);
    assert_eq!(sqlite_vfs::io::write(&mut file, &[1], -7).code, 778);
    assert!(taken(&setup.log).is_empty());

    let mut plain = plain_file();
    assert_eq!(sqlite_vfs::io::write(&mut plain, &[1], 0), Reply::code(13));
}

#[test]
fn sizes_are_rounded_up_to_chunks() {
    assert_eq!(round_up(0, 4096), Some(0));
    assert_eq!(round_up(1, 4096), Some(4096));
    assert_eq!(round_up(4096, 4096), Some(4096));
    assert_eq!(round_up(4097, 4096), Some(8192));
    assert_eq!(round_up(10, 3), Some(12));
    assert_eq!(round_up(10, 1), Some(10));
    assert_eq!(round_up(10, 0), Some(10));
    assert_eq!(round_up(u64::MAX, 1), Some(u64::MAX));
    assert_eq!(round_up(u64::MAX, 2), None);
    assert_eq!(round_up(u64::MAX - 1, 2), Some(u64::MAX - 1));
    assert_eq!(round_up(1, usize::MAX), Some(usize::MAX as u64));
    assert_eq!(chunked(10, None), Some(10));
    assert_eq!(chunked(10, Some(8)), Some(16));
    assert_eq!(truncate_size(10, Some(8)), Some(16));
    assert_eq!(truncate_size(-1, Some(8)), None);
    assert_eq!(truncate_size(-1, None), None);
    assert_eq!(truncate_size(i64::MAX, None), Some(i64::MAX as u64));
}

#[test]
fn truncation_respects_the_chunk_size() {
    let mut setup = setup(vec![1; 10]);
    let mut file = open_file(&mut setup);
    assert_eq!(truncate(&mut file, 5), Reply::code(0));
    assert_eq!(file.file.data.len(), 5);
    file.chunk_size = Some(4096);
    assert_eq!(truncate(&mut file, 5), Reply::code(0));
    assert_eq!(truncate(&mut file, 4097), Reply::code(0));
    assert_eq!(truncate(&mut file, 0), Reply::code(0));
    assert_eq!(taken(&setup.log), vec!["set_len 5", "set_len 4096", "set_len 8192", "set_len 0"]);
    assert_eq!(truncate(&mut file, -1).code, 1546);
    assert_eq!(file.last_errno, 1546);
    file.chunk_size = Some(2);
    assert_eq!(truncate(&mut file, i64::MAX).code, 0);
    assert!(!taken(&setup.log).is_empty());
    setup.faults.file.set(Some(ErrorKind::Other));
    assert_eq!(truncate(&mut file, 1), failed(1546));
}

#[test]
fn sync_passes_the_data_only_flag() {
    let mut setup = setup(Vec::new());
    let mut file = open_file(&mut setup);
    assert!(!sync_data_only(2));
    assert!(!sync_data_only(3));
    assert!(sync_data_only(0x12));
    assert!(sync_data_only(0x13));
    assert_eq!(sync(&mut file, 2), Reply::code(0));
    assert_eq!(sync(&mut file, 0x13), Reply::code(0));
    assert_eq!(taken(&setup.log), vec!["sync false", "sync true"]);
    setup.faults.file.set(Some(ErrorKind::Other));
    assert_eq!(sync(&mut file, 2), failed(1034));
    assert_eq!(file.last_errno, 1034);
}

#[test]
fn the_size_is_reported() {
    let mut setup = setup(vec![0; 77]);
    let mut file = open_file(&mut setup);
    assert_eq!(file_size(&mut file, true), (Reply::code(0), 77));
    assert_eq!(file_size(&mut file, false), (Reply::fail(1802, null_ptr_error()), 0));
    assert_eq!(file.last_errno, 1802);
    setup.faults.file.set(Some(ErrorKind::Other));
    assert_eq!(file_size(&mut file, true), (failed(1802), 0));
    let mut plain = plain_file();
    assert_eq!(file_size(&mut plain, true), (Reply::code(0), i64::MAX));
}

#[test]
fn the_exclusive_lock_pulls_the_wal_index() {
    let mut setup = setup(Vec::new());
    let mut file = open_file(&mut setup);
    assert_eq!(shm_map(&mut file, 0, 32768), Reply::code(0));
    assert_eq!(shm_map(&mut file, 3, 32768), Reply::code(0));
    taken(&setup.log);

    assert_eq!(lock(&mut file, 1), Reply::code(0));
    assert!(!file.has_exclusive_lock);
    assert_eq!(lock(&mut file, 2), Reply::code(0));
    assert_eq!(taken(&setup.log), vec!["lock Shared", "lock Reserved"]);
    assert_eq!(lock(&mut file, 4), Reply::code(0));
    assert!(file.has_exclusive_lock);
    assert_eq!(taken(&setup.log), vec!["lock Exclusive", "pull 0", "pull 3"]);

    // whatever the file holds on the WAL index
    file.wal_index_locks.insert(1, WalIndexLock::Exclusive);
    assert_eq!(lock(&mut file, 4), Reply::code(0));
    assert_eq!(taken(&setup.log), vec!["lock Exclusive", "pull 0", "pull 3"]);

    assert_eq!(unlock(&mut file, 1), Reply::code(0));
    assert!(!file.has_exclusive_lock);
    assert_eq!(unlock(&mut file, 0), Reply::code(0));
    assert_eq!(taken(&setup.log), vec!["lock Shared", "lock Unlocked"]);
}

#[test]
fn a_busy_file_keeps_its_lock() {
    let mut setup = setup(Vec::new());
    let mut file = open_file(&mut setup);
    file.has_exclusive_lock = true;
    setup.faults.busy.set(true);
    assert_eq!(lock(&mut file, 1), Reply::code(5));
    assert!(file.has_exclusive_lock);
    assert_eq!(unlock(&mut file, 1), Reply::code(5));
    assert!(file.has_exclusive_lock);
    assert_eq!(check_reserved_lock(&mut file, true), (Reply::code(0), 1));

    setup.faults.busy.set(false);
    assert_eq!(check_reserved_lock(&mut file, true), (Reply::code(0), 0));
    assert_eq!(check_reserved_lock(&mut file, false), (Reply::fail(2058, null_ptr_error()), 0));
    setup.faults.file.set(Some(ErrorKind::Other));
    assert_eq!(lock(&mut file, 4), failed(3850));
    assert_eq!(file.last_errno, 3850);
    assert_eq!(unlock(&mut file, 0), failed(2058));
    assert_eq!(file.last_errno, 2058);
    assert_eq!(check_reserved_lock(&mut file, true), (failed(2058), 0));
    assert!(file.has_exclusive_lock);

    taken(&setup.log);
    assert_eq!(lock(&mut file, 5), Reply::code(3850));
    assert_eq!(lock(&mut file, -1), Reply::code(3850));
    assert_eq!(unlock(&mut file, 5), Reply::code(2058));
    assert!(taken(&setup.log).is_empty());

    let mut plain = plain_file();
    assert_eq!(lock(&mut plain, 4), Reply::code(5));
    assert_eq!(lock(&mut plain, 1), Reply::code(0));
    // the default of the trait unlocks by locking
    assert_eq!(unlock(&mut plain, 4), Reply::code(5));
    assert_eq!(unlock(&mut plain, 0), Reply::code(0));
}

#[test]
fn file_control_opcodes_are_told_apart() {
    let not_found = [
        2, 3, 7, 8, 9, 10, 11, 13, 14, 15, 18, 20, 23, 24, 25, 26, 27, 28, 29, 30, 31, 32, 33, 34,
        35, 36, 38, 40, 41, 0, 17, 42, -1, 1000,
    ];
    for op in not_found {
        assert_eq!(control_kind(op), ControlKind::NotFound, "{}", op);
        assert_eq!(file_control_arg(op), ControlArg::Unused);
    }
    for op in [21, 22, 37, 39] {
        assert_eq!(control_kind(op), ControlKind::Acknowledged, "{}", op);
    }
    assert_eq!(control_kind(1), ControlKind::LockState);
    assert_eq!(control_kind(4), ControlKind::LastErrno);
    assert_eq!(control_kind(5), ControlKind::SizeHint);
    assert_eq!(control_kind(6), ControlKind::ChunkSize);
    assert_eq!(control_kind(12), ControlKind::VfsName);
    assert_eq!(control_kind(16), ControlKind::TempFilename);
    assert_eq!(control_kind(19), ControlKind::Trace);
    assert_eq!(file_control_arg(5), ControlArg::Int64);
    assert_eq!(file_control_arg(6), ControlArg::Int32);
    assert_eq!(file_control_arg(1), ControlArg::Unused);
}

#[test]
fn file_control_answers() {
    let mut setup = setup(Vec::new());
    let mut file = open_file(&mut setup);
    assert_eq!(file_control(&mut file, 14, None), Control::Reply(Reply::code(12)));
    assert_eq!(file_control(&mut file, 20, Some(1)), Control::Reply(Reply::code(12)));
    assert_eq!(file_control(&mut file, 99, None), Control::Reply(Reply::code(12)));
    assert_eq!(file_control(&mut file, 21, None), Control::Reply(Reply::code(0)));
    assert_eq!(file_control(&mut file, 39, None), Control::Reply(Reply::code(0)));
    assert_eq!(file_control(&mut file, 4, None), Control::LastErrno);
    assert_eq!(file_control(&mut file, 12, None), Control::VfsName("mem".to_string()));
    assert_eq!(file_control(&mut file, 16, None), Control::TempFilename("temp.db".to_string()));
    assert_eq!(file_control(&mut file, 19, None), Control::Trace);
    assert!(taken(&setup.log).is_empty());

    assert_eq!(file_control(&mut file, 1, None), Control::LockState(0));
    setup.faults.current.set(Some(Lock::Reserved));
    assert_eq!(file_control(&mut file, 1, None), Control::LockState(2));
    setup.faults.current.set(Some(Lock::Exclusive));
    assert_eq!(file_control(&mut file, 1, None), Control::LockState(4));
    setup.faults.file.set(Some(ErrorKind::Other));
    assert_eq!(file_control(&mut file, 1, None), Control::Reply(failed(1)));
    assert_eq!(file.last_errno, 1);
}

#[test]
fn size_hints_and_chunk_sizes() {
    let mut setup = setup(Vec::new());
    let mut file = open_file(&mut setup);
    assert_eq!(file_control(&mut file, 5, Some(1000)), Control::Reply(Reply::code(0)));
    assert_eq!(file_control(&mut file, 6, Some(4096)), Control::Reply(Reply::code(0)));
    assert_eq!(file.chunk_size, Some(4096));
    assert_eq!(file_control(&mut file, 5, Some(1000)), Control::Reply(Reply::code(0)));
    assert_eq!(file_control(&mut file, 5, Some(4097)), Control::Reply(Reply::code(0)));
    assert_eq!(file_control(&mut file, 5, Some(0)), Control::Reply(Reply::code(0)));
    assert_eq!(
        taken(&setup.log),
        vec!["set_len 1000", "set_chunk_size 4096", "set_len 4096", "set_len 8192", "set_len 0"]
    );
    let expect_hint = Control::Reply(Reply::fail(12, Error::other("expect size hint arg")));
    assert_eq!(file_control(&mut file, 5, None), expect_hint);
    assert_eq!(file_control(&mut file, 5, Some(-1)), expect_hint);
    assert_eq!(file.last_errno, 12);
    let expect_chunk = Control::Reply(Reply::fail(12, Error::other("expect chunk_size arg")));
    assert_eq!(file_control(&mut file, 6, None), expect_chunk);
    assert_eq!(file_control(&mut file, 6, Some(-1)), expect_chunk);
    assert_eq!(file_control(&mut file, 6, Some(i32::MAX as i64 + 1)), expect_chunk);
    assert_eq!(file.chunk_size, Some(4096));
    assert!(taken(&setup.log).is_empty());

    // a chunk size of zero rounds nothing
    assert_eq!(file_control(&mut file, 6, Some(0)), Control::Reply(Reply::code(0)));
    assert_eq!(file.chunk_size, Some(0));
    assert_eq!(file_control(&mut file, 5, Some(77)), Control::Reply(Reply::code(0)));
    assert_eq!(taken(&setup.log), vec!["set_chunk_size 0", "set_len 77"]);

    file.chunk_size = Some(2);
    assert_eq!(file_control(&mut file, 5, Some(i64::MAX)), Control::Reply(Reply::code(0)));
    setup.faults.file.set(Some(ErrorKind::Other));
    assert_eq!(file_control(&mut file, 5, Some(10)), Control::Reply(failed(1546)));
    assert_eq!(file_control(&mut file, 6, Some(10)), Control::Reply(failed(1)));
    assert_eq!(file.chunk_size, Some(2));
    assert_eq!(file.last_errno, 1);
}

#[test]
fn the_device_is_described() {
    assert_eq!(sector_size(), 1024);
    assert_eq!(device_characteristics(), 0x1 | 0x1000 | 0x200 | 0x400);
    assert_eq!(mem_fetch(), 1);
    assert_eq!(mem_unfetch(), 0);
}

#[test]
fn regions_are_mapped_once() {
    let mut setup = setup(Vec::new());
    let mut file = open_file(&mut setup);
    file.file.stored.insert(2, 9);
    assert_eq!(shm_map(&mut file, 2, 32768), Reply::code(0));
    assert_eq!(shm_map(&mut file, 0, 32768), Reply::code(0));
    assert_eq!(shm_map(&mut file, 2, 32768), Reply::code(0));
    assert_eq!(taken(&setup.log), vec!["map 2", "map 0"]);
    assert_eq!(file.wal_index.len(), 2);
    assert_eq!(file.find_region(2), Some(0));
    assert_eq!(file.find_region(0), Some(1));
    assert_eq!(file.find_region(1), None);
    assert_eq!(file.region_mut(0).unwrap()[..], [9u8; 32768][..]);
    assert_eq!(file.region_mut(1).unwrap()[..], [0u8; 32768][..]);
    // the block stays where it is while more regions are mapped
    let at = file.region_mut(0).unwrap().as_ptr();
    for region in 10..60 {
        assert_eq!(shm_map(&mut file, region, 32768), Reply::code(0));
    }
    assert_eq!(file.region_mut(0).unwrap().as_ptr(), at);
    assert!(file.region_mut(52).is_none());

    assert_eq!(shm_map(&mut file, 1, 4096).code, 5386);
    assert_eq!(shm_map(&mut file, 1, 0).code, 5386);
    assert_eq!(shm_map(&mut file, -1, 32768).code, 5386);
    assert_eq!(file.last_errno, 5386);
    assert_eq!(file.find_region(1), None);
    setup.faults.file.set(Some(ErrorKind::Other));
    assert_eq!(shm_map(&mut file, 1, 32768), failed(5386));
    assert_eq!(file.find_region(1), None);

    // without WAL nothing is mapped
    let mut plain = plain_file();
    assert_eq!(shm_map(&mut plain, 0, 32768), Reply::code(5130));
    assert_eq!(shm_lock(&mut plain, 0, 1, 2 | 4).code, 5130);
    assert_eq!(shm_unmap(&mut plain, 1), Reply::code(0));
}

#[test]
fn lock_requests_name_a_band_and_a_lock() {
    assert_eq!(shm_band(0, 1), Some((0, 1)));
    assert_eq!(shm_band(3, 5), Some((3, 8)));
    assert_eq!(shm_band(0, 0), Some((0, 0)));
    assert_eq!(shm_band(0, 255), Some((0, 255)));
    assert_eq!(shm_band(255, 0), Some((255, 255)));
    assert_eq!(shm_band(1, 255), None);
    assert_eq!(shm_band(-1, 2), None);
    assert_eq!(shm_band(2, -1), None);
    assert_eq!(shm_band(i32::MAX, i32::MAX), None);
    assert_eq!(shm_lock_kind(1), WalIndexLock::Unlocked);
    assert_eq!(shm_lock_kind(1 | 4), WalIndexLock::Unlocked);
    assert_eq!(shm_lock_kind(1 | 8), WalIndexLock::Unlocked);
    assert_eq!(shm_lock_kind(2 | 4), WalIndexLock::Shared);
    assert_eq!(shm_lock_kind(2 | 8), WalIndexLock::Exclusive);
    assert_eq!(shm_lock_kind(2), WalIndexLock::Shared);
    assert_eq!(shm_lock_kind(0), WalIndexLock::Unlocked);
}

#[test]
fn wal_index_locks_pull_and_push() {
    let mut setup = setup(Vec::new());
    let mut file = open_file(&mut setup);
    shm_map(&mut file, 0, 32768);
    shm_map(&mut file, 1, 32768);
    taken(&setup.log);

    // a lock without an exclusive lock pulls first
    assert_eq!(shm_lock(&mut file, 3, 2, 2 | 4), Reply::code(0));
    assert_eq!(taken(&setup.log), vec!["pull 0", "pull 1", "wal lock 3..5 Shared"]);
    assert_eq!(file.wal_index_locks.get(&3), Some(&WalIndexLock::Shared));
    assert_eq!(file.wal_index_locks.get(&4), Some(&WalIndexLock::Shared));
    assert_eq!(file.wal_index_locks.len(), 2);

    assert_eq!(shm_lock(&mut file, 0, 1, 2 | 8), Reply::code(0));
    assert_eq!(taken(&setup.log), vec!["pull 0", "pull 1", "wal lock 0..1 Exclusive"]);
    // with an exclusive lock nothing is pulled
    assert_eq!(shm_lock(&mut file, 5, 1, 2 | 4), Reply::code(0));
    assert_eq!(taken(&setup.log), vec!["wal lock 5..6 Shared"]);

    // releasing a shared lock pushes nothing
    assert_eq!(shm_lock(&mut file, 3, 2, 1 | 4), Reply::code(0));
    assert_eq!(taken(&setup.log), vec!["wal lock 3..5 Unlocked"]);
    assert_eq!(file.wal_index_locks.get(&3), Some(&WalIndexLock::Unlocked));
    // releasing the exclusive lock pushes first
    file.region_mut(0).unwrap()[0] = 7;
    assert_eq!(shm_lock(&mut file, 0, 2, 1 | 8), Reply::code(0));
    assert_eq!(taken(&setup.log), vec!["push 0", "push 1", "wal lock 0..2 Unlocked"]);
    assert_eq!(file.file.stored.get(&0), Some(&7));
    assert_eq!(file.wal_index_locks.get(&0), Some(&WalIndexLock::Unlocked));
    assert_eq!(file.wal_index_locks.get(&5), Some(&WalIndexLock::Shared));
}

#[test]
fn wal_index_locks_may_be_denied() {
    let mut setup = setup(Vec::new());
    let mut file = open_file(&mut setup);
    shm_map(&mut file, 0, 32768);
    taken(&setup.log);
    setup.faults.busy.set(true);
    assert_eq!(shm_lock(&mut file, 0, 2, 2 | 8), Reply::code(5));
    assert!(file.wal_index_locks.is_empty());
    assert_eq!(taken(&setup.log), vec!["pull 0", "wal lock 0..2 Exclusive"]);

    assert_eq!(shm_lock(&mut file, 0, 256, 2 | 8).code, 5130);
    assert_eq!(shm_lock(&mut file, -1, 1, 2 | 8).code, 5130);
    assert_eq!(file.last_errno, 5130);
    assert!(taken(&setup.log).is_empty());

    // a failing pull ends the request
    setup.faults.file.set(Some(ErrorKind::Other));
    assert_eq!(shm_lock(&mut file, 0, 1, 2 | 4), failed(5130));
    assert_eq!(taken(&setup.log), vec!["pull 0"]);
    // so does a failing push
    file.wal_index_locks.insert(0, WalIndexLock::Exclusive);
    assert_eq!(shm_lock(&mut file, 0, 1, 1), failed(5130));
    assert_eq!(taken(&setup.log), vec!["push 0"]);
    // and a failing lock
    assert_eq!(shm_lock(&mut file, 4, 1, 1), failed(5130));
    assert_eq!(taken(&setup.log), vec!["wal lock 4..5 Unlocked"]);
    assert_eq!(file.wal_index_locks.len(), 1);
}

#[test]
fn the_barrier_pushes_or_pulls() {
    let mut setup = setup(Vec::new());
    let mut file = open_file(&mut setup);
    shm_map(&mut file, 4, 32768);
    shm_map(&mut file, 5, 32768);
    taken(&setup.log);

    shm_barrier(&mut file);
    assert_eq!(taken(&setup.log), vec!["pull 4", "pull 5"]);
    file.wal_index_locks.insert(9, WalIndexLock::Exclusive);
    shm_barrier(&mut file);
    assert!(taken(&setup.log).is_empty());
    file.has_exclusive_lock = true;
    shm_barrier(&mut file);
    assert_eq!(taken(&setup.log), vec!["push 4", "push 5"]);
    // failures are passed over, and every region has its turn
    setup.faults.file.set(Some(ErrorKind::Other));
    shm_barrier(&mut file);
    assert_eq!(taken(&setup.log), vec!["push 4", "push 5"]);
    file.has_exclusive_lock = false;
    file.wal_index_locks.clear();
    shm_barrier(&mut file);
    assert_eq!(taken(&setup.log), vec!["pull 4", "pull 5"]);
    assert_eq!(file.last_errno, 0);
}

#[test]
fn unmapping_forgets_regions_and_locks() {
    let mut setup = setup(Vec::new());
    let mut file = open_file(&mut setup);
    shm_map(&mut file, 0, 32768);
    shm_lock(&mut file, 0, 2, 2 | 4);
    taken(&setup.log);
    assert_eq!(shm_unmap(&mut file, 0), Reply::code(0));
    assert!(file.wal_index.is_empty());
    assert!(file.wal_index_locks.is_empty());
    assert!(taken(&setup.log).is_empty());

    shm_map(&mut file, 0, 32768);
    taken(&setup.log);
    assert_eq!(shm_unmap(&mut file, 1), Reply::code(0));
    assert_eq!(taken(&setup.log), vec!["wal delete"]);
    assert_eq!(shm_unmap(&mut file, 2), Reply::code(0));
    assert!(taken(&setup.log).is_empty());
    setup.faults.file.set(Some(ErrorKind::Other));
    assert_eq!(shm_unmap(&mut file, 1), failed(1));
    assert_eq!(file.last_errno, 1);
}

#[test]
fn errors_are_kept_with_their_number() {
    let mut setup = setup(Vec::new());
    let mut file = open_file(&mut setup);
    let reply = file.set_last_error(266, Error::other("boom"));
    assert_eq!(reply, Reply { code: 266, error: Some(Error::other("boom")) });
    assert_eq!(file.last_errno, 266);
    assert_eq!(Reply::code(5), Reply { code: 5, error: None });
    let options = OpenOptions {
        kind: OpenKind::MainDb,
        access: OpenAccess::Read,
        delete_on_close: false,
    };
    assert_eq!(options.to_flags(), 0x101);
}

#[test]
fn what_the_backend_answers_to_an_open_request() {
    let mut state = register("plain", PlainVfs).unwrap();
    state.next_id = 41;
    let options =
        OpenOptions { kind: OpenKind::Wal, access: OpenAccess::Write, delete_on_close: true };
    let r = opened(&mut state, "a.wal".to_string(), options, Ok(PlainFile));
    assert_eq!(r.reply, Reply::code(0));
    assert_eq!(r.out_flags, 0x80000 | 0x2 | 0x8);
    let file = r.file.unwrap();
    assert_eq!(file.id, 41);
    assert_eq!(file.db_name, "a.wal");
    assert_eq!(file.vfs_name, "plain");
    assert!(file.delete_on_close);
    assert_eq!(state.next_id, 42);
    // the file shares the backend with the file system
    assert!(std::sync::Arc::ptr_eq(&file.vfs, &state.vfs));

    let denied: Result<PlainFile, Error> = Err(fail(ErrorKind::PermissionDenied));
    let r = opened(&mut state, "a".to_string(), options, denied);
    assert_eq!(r.reply, Reply::fail(14, fail(ErrorKind::PermissionDenied)));
    assert!(r.file.is_none());
    let broken: Result<PlainFile, Error> = Err(fail(ErrorKind::UnexpectedEof));
    let r = opened(&mut state, "a".to_string(), options, broken);
    assert_eq!(r.reply, Reply::fail(10, fail(ErrorKind::UnexpectedEof)));
    assert_eq!(state.next_id, 42);
}

#[test]
fn what_the_backend_answers_to_the_file_system() {
    assert_eq!(delete_reply(Ok(())), Reply::code(0));
    assert_eq!(delete_reply(Err(fail(ErrorKind::NotFound))), Reply::code(5898));
    assert_eq!(delete_reply(Err(fail(ErrorKind::Other))), failed(9));
    assert_eq!(access_reply(Ok(true), true), (Reply::code(0), 1));
    assert_eq!(access_reply(Ok(false), true), (Reply::code(0), 0));
    assert_eq!(access_reply(Ok(true), false), (Reply::fail(3338, null_ptr_error()), 0));
    assert_eq!(access_reply(Err(fail(ErrorKind::Other)), true), (failed(3338), 0));
    assert_eq!(
        full_pathname_reply(Ok("/a".to_string()), 3),
        (Reply::code(0), b"/a\0".to_vec())
    );
    assert_eq!(full_pathname_reply(Ok("/a".to_string()), 2).0.code, 14);
    assert_eq!(full_pathname_reply(Ok("/\0a".to_string()), 9).0.code, 1);
    assert_eq!(full_pathname_reply(Err(fail(ErrorKind::Other)), 9), (failed(1), Vec::new()));
}

#[test]
fn what_the_backend_answers_to_a_file() {
    let mut file = plain_file();
    assert_eq!(reply_or(&mut file, Ok(()), 1034), Reply::code(0));
    assert_eq!(file.last_errno, 0);
    assert_eq!(reply_or(&mut file, Err(fail(ErrorKind::Other)), 1034), failed(1034));
    assert_eq!(file.last_errno, 1034);

    let mut file = plain_file();
    assert_eq!(read_reply(&mut file, Ok(())), Reply::code(0));
    assert_eq!(read_reply(&mut file, Err(fail(ErrorKind::UnexpectedEof))), Reply::code(522));
    assert_eq!(file.last_errno, 0);
    assert_eq!(read_reply(&mut file, Err(fail(ErrorKind::NotFound))).code, 266);
    assert_eq!(file.last_errno, 266);

    let mut file = plain_file();
    assert_eq!(write_reply(&mut file, Ok(())), Reply::code(0));
    assert_eq!(write_reply(&mut file, Err(fail(ErrorKind::WriteZero))), Reply::code(13));
    assert_eq!(file.last_errno, 0);
    assert_eq!(write_reply(&mut file, Err(fail(ErrorKind::Other))), failed(778));
    assert_eq!(file.last_errno, 778);

    let mut file = plain_file();
    assert_eq!(file_size_reply(&mut file, Ok(5), true), (Reply::code(0), 5));
    assert_eq!(file_size_reply(&mut file, Ok(i64::MAX as u64), true), (Reply::code(0), i64::MAX));
    assert_eq!(
        file_size_reply(&mut file, Ok(i64::MAX as u64 + 1), true),
        (Reply::code(0), i64::MAX)
    );
    assert_eq!(file_size_reply(&mut file, Ok(5), false).0.code, 1802);
    assert_eq!(file_size_reply(&mut file, Err(fail(ErrorKind::Other)), true), (failed(1802), 0));

    let mut file = plain_file();
    assert_eq!(check_reserved_lock_reply(&mut file, Ok(true), true), (Reply::code(0), 1));
    assert_eq!(check_reserved_lock_reply(&mut file, Ok(false), true), (Reply::code(0), 0));
    assert_eq!(check_reserved_lock_reply(&mut file, Ok(false), false).0.code, 2058);
    assert_eq!(
        check_reserved_lock_reply(&mut file, Err(fail(ErrorKind::Other)), true),
        (failed(2058), 0)
    );
}

#[test]
fn what_the_backend_answers_to_a_lock_request() {
    let mut file = plain_file();
    assert_eq!(lock_reply(&mut file, Lock::Exclusive, Ok(true), 3850), Reply::code(0));
    assert!(file.has_exclusive_lock);
    assert_eq!(lock_reply(&mut file, Lock::Shared, Ok(false), 3850), Reply::code(5));
    assert!(file.has_exclusive_lock);
    assert_eq!(lock_reply(&mut file, Lock::Shared, Err(fail(ErrorKind::Other)), 3850), failed(3850));
    assert!(file.has_exclusive_lock);
    assert_eq!(file.last_errno, 3850);
    assert_eq!(lock_reply(&mut file, Lock::Shared, Ok(true), 2058), Reply::code(0));
    assert!(!file.has_exclusive_lock);
    assert_eq!(lock_reply(&mut file, Lock::Unlocked, Err(fail(ErrorKind::Other)), 2058), failed(2058));
    assert_eq!(file.last_errno, 2058);

    for (i, l) in [Lock::Unlocked, Lock::Shared, Lock::Reserved, Lock::Pending, Lock::Exclusive]
        .into_iter()
        .enumerate()
    {
        assert_eq!(lock_state_control(&mut file, Ok(l)), Control::LockState(i as i32));
    }
    assert_eq!(
        lock_state_control(&mut file, Err(fail(ErrorKind::Other))),
        Control::Reply(failed(1))
    );
    assert_eq!(file.last_errno, 1);
    // the backend of the plain file always reports the pending lock
    assert_eq!(file_control(&mut file, 1, None), Control::LockState(3));

    assert_eq!(chunk_size_reply(&mut file, 512, Ok(())), Reply::code(0));
    assert_eq!(file.chunk_size, Some(512));
    assert_eq!(chunk_size_reply(&mut file, 1024, Err(fail(ErrorKind::Other))), failed(1));
    assert_eq!(file.chunk_size, Some(512));
    // the default of the trait takes every chunk size
    assert_eq!(file_control(&mut file, 6, Some(64)), Control::Reply(Reply::code(0)));
    assert_eq!(file.chunk_size, Some(64));
}

#[test]
fn what_the_backend_answers_about_the_wal_index() {
    let mut setup = setup(Vec::new());
    let mut file = open_file(&mut setup);
    let mut block = [0u8; 32768];
    block[5] = 5;
    assert_eq!(shm_map_reply(&mut file, 7, Ok(block)), Reply::code(0));
    assert_eq!(file.find_region(7), Some(0));
    assert_eq!(file.region_mut(0).unwrap()[..], block[..]);
    assert_eq!(shm_map_reply(&mut file, 8, Err(fail(ErrorKind::Other))), failed(5386));
    assert_eq!(file.find_region(8), None);
    assert_eq!(file.last_errno, 5386);
    assert_eq!(file.wal_index.len(), 1);

    assert_eq!(shm_lock_reply(&mut file, 2, 4, WalIndexLock::Exclusive, Ok(false)), Reply::code(5));
    assert!(file.wal_index_locks.is_empty());
    assert_eq!(
        shm_lock_reply(&mut file, 2, 4, WalIndexLock::Exclusive, Err(fail(ErrorKind::Other))),
        failed(5130)
    );
    assert!(file.wal_index_locks.is_empty());
    assert_eq!(shm_lock_reply(&mut file, 2, 4, WalIndexLock::Exclusive, Ok(true)), Reply::code(0));
    assert_eq!(file.wal_index_locks.get(&1), None);
    assert_eq!(file.wal_index_locks.get(&2), Some(&WalIndexLock::Exclusive));
    assert_eq!(file.wal_index_locks.get(&3), Some(&WalIndexLock::Exclusive));
    assert_eq!(file.wal_index_locks.get(&4), None);
    assert_eq!(shm_lock_reply(&mut file, 3, 3, WalIndexLock::Unlocked, Ok(true)), Reply::code(0));
    assert_eq!(file.wal_index_locks.len(), 2);
}

#[test]
fn when_the_wal_index_is_pulled_and_pushed() {
    let mut setup = setup(Vec::new());
    let mut file = open_file(&mut setup);
    // without an exclusive lock on a region
    assert_eq!(file.sync_before_shm_lock(0, 2, true), WalSync::Pull);
    assert_eq!(file.sync_before_shm_lock(0, 2, false), WalSync::Nothing);
    assert_eq!(file.sync_at_barrier(), WalSync::Pull);
    assert_eq!(file.sync_after_lock(0), WalSync::Nothing);
    file.has_exclusive_lock = true;
    assert_eq!(file.sync_at_barrier(), WalSync::Push);
    assert_eq!(file.sync_after_lock(0), WalSync::Pull);
    assert_eq!(file.sync_after_lock(5), WalSync::Nothing);
    assert_eq!(file.sync_after_lock(3850), WalSync::Nothing);
    // with a shared lock only
    file.wal_index_locks.insert(1, WalIndexLock::Shared);
    assert_eq!(file.sync_before_shm_lock(0, 2, true), WalSync::Pull);
    assert_eq!(file.sync_before_shm_lock(0, 2, false), WalSync::Nothing);
    assert_eq!(file.sync_after_lock(0), WalSync::Pull);
    // with an exclusive lock on region 4
    file.wal_index_locks.insert(4, WalIndexLock::Exclusive);
    assert_eq!(file.sync_before_shm_lock(0, 2, true), WalSync::Nothing);
    assert_eq!(file.sync_before_shm_lock(9, 9, true), WalSync::Nothing);
    assert_eq!(file.sync_before_shm_lock(0, 4, false), WalSync::Nothing);
    assert_eq!(file.sync_before_shm_lock(0, 5, false), WalSync::Push);
    assert_eq!(file.sync_before_shm_lock(4, 5, false), WalSync::Push);
    assert_eq!(file.sync_before_shm_lock(5, 8, false), WalSync::Nothing);
    assert_eq!(file.sync_after_lock(0), WalSync::Pull);
    assert_eq!(file.sync_at_barrier(), WalSync::Push);
    file.has_exclusive_lock = false;
    assert_eq!(file.sync_at_barrier(), WalSync::Nothing);

    shm_map(&mut file, 1, 32768);
    shm_map(&mut file, 2, 32768);
    taken(&setup.log);
    assert_eq!(sync_mapped(&mut file, WalSync::Nothing, true), None);
    assert!(taken(&setup.log).is_empty());
    assert_eq!(sync_mapped(&mut file, WalSync::Pull, true), None);
    assert_eq!(taken(&setup.log), vec!["pull 1", "pull 2"]);
    assert_eq!(sync_mapped(&mut file, WalSync::Push, false), None);
    assert_eq!(taken(&setup.log), vec!["push 1", "push 2"]);
    setup.faults.file.set(Some(ErrorKind::Other));
    assert_eq!(pull_mapped(&mut file, true), Some(fail(ErrorKind::Other)));
    assert_eq!(taken(&setup.log), vec!["pull 1"]);
    assert_eq!(pull_mapped(&mut file, false), Some(fail(ErrorKind::Other)));
    assert_eq!(taken(&setup.log), vec!["pull 1", "pull 2"]);
    assert_eq!(push_mapped(&mut file, true), Some(fail(ErrorKind::Other)));
    assert_eq!(taken(&setup.log), vec!["push 1"]);
    assert_eq!(push_mapped(&mut file, false), Some(fail(ErrorKind::Other)));
    assert_eq!(taken(&setup.log), vec!["push 1", "push 2"]);
}

/// A WAL index that relies on the defaults of the trait.
struct QuietWal;

impl WalIndex<PlainFile> for QuietWal {
    fn map(_handle: &mut PlainFile, _region: u32) -> Result<[u8; 32768], Error> {
        Ok([1; 32768])
    }

    fn lock(
        _handle: &mut PlainFile,
        _locks: Range<u8>,
        _lock: WalIndexLock,
    ) -> Result<bool, Error> {
        Ok(true)
    }

    fn delete(_handle: &mut PlainFile) -> Result<(), Error> {
        Ok(())
    }
}

#[test]
fn what_the_traits_do_by_default() {
    let disabled = Error::new(ErrorKind::Other, "wal is disabled");
    let mut file = PlainFile;
    assert!(!<WalDisabled as WalIndex<PlainFile>>::enabled());
    assert_eq!(
        <WalDisabled as WalIndex<PlainFile>>::map(&mut file, 0).err(),
        Some(disabled.clone())
    );
    assert_eq!(
        <WalDisabled as WalIndex<PlainFile>>::lock(&mut file, 0..1, WalIndexLock::Shared),
        Err(disabled)
    );
    assert_eq!(<WalDisabled as WalIndex<PlainFile>>::delete(&mut file), Ok(()));

    assert!(<QuietWal as WalIndex<PlainFile>>::enabled());
    let mut block = [7u8; 32768];
    assert_eq!(<QuietWal as WalIndex<PlainFile>>::pull(&mut file, 3, &mut block), Ok(()));
    assert_eq!(block[..], [7u8; 32768][..]);
    assert_eq!(<QuietWal as WalIndex<PlainFile>>::push(&mut file, 3, &block), Ok(()));

    assert_eq!(PlainVfs.access("a", true), Ok(true));
    assert_eq!(PlainVfs.access("a", false), Ok(true));
    assert_eq!(PlainVfs.full_pathname("a/../b"), Ok("a/../b".to_string()));
    assert_eq!(PlainVfs.full_pathname(""), Ok(String::new()));
    assert_eq!(file.set_chunk_size(0), Ok(()));
    assert_eq!(file.set_chunk_size(4096), Ok(()));
    // unlocking asks for the lock
    assert_eq!(file.unlock(Lock::Shared), Ok(true));
    assert_eq!(file.unlock(Lock::Exclusive), Ok(false));
}

#[test]
fn mapping_is_planned() {
    let mut setup = setup(Vec::new());
    let mut file = open_file(&mut setup);
    assert_eq!(map_plan(&file, false, 2, 32768), MapPlan::Disabled);
    assert_eq!(map_plan(&file, false, 2, 1), MapPlan::Disabled);
    assert_eq!(map_plan(&file, true, 2, 32767), MapPlan::BadRegion);
    assert_eq!(map_plan(&file, true, -1, 32768), MapPlan::BadRegion);
    assert_eq!(map_plan(&file, true, 2, 32768), MapPlan::Ask(2));
    assert_eq!(map_plan(&file, true, 0, 32768), MapPlan::Ask(0));
    assert_eq!(shm_map(&mut file, 2, 32768), Reply::code(0));
    assert_eq!(map_plan(&file, true, 2, 32768), MapPlan::Mapped);
    assert_eq!(map_plan(&file, true, 3, 32768), MapPlan::Ask(3));
    assert_eq!(map_plan(&file, true, 2, 4096), MapPlan::BadRegion);
    // nothing was asked of the backend but the one block
    assert_eq!(taken(&setup.log), vec!["map 2"]);
}
