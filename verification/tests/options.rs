use sqlite_vfs::open_options::{OpenAccess, OpenKind, OpenOptions};

const KINDS: [(OpenKind, i32); 8] = [
    (OpenKind::MainDb, 0x100),
    (OpenKind::TempDb, 0x200),
    (OpenKind::TransientDb, 0x400),
    (OpenKind::MainJournal, 0x800),
    (OpenKind::TempJournal, 0x1000),
    (OpenKind::SubJournal, 0x2000),
    (OpenKind::SuperJournal, 0x4000),
    (OpenKind::Wal, 0x80000),
];

const ACCESSES: [(OpenAccess, i32); 4] = [
    (OpenAccess::Read, 0x1),
    (OpenAccess::Write, 0x2),
    (OpenAccess::Create, 0x6),
    (OpenAccess::CreateNew, 0x16),
];

#[test]
fn kinds_have_their_flags() {
    for (kind, flag) in KINDS {
        assert_eq!(kind.to_flags(), flag);
        assert_eq!(OpenKind::from_flags(flag), Some(kind));
        assert_eq!(OpenKind::from_flags(flag | 0x1f), Some(kind));
    }
    assert_eq!(OpenKind::from_flags(0), None);
    assert_eq!(OpenKind::from_flags(0x1f), None);
    assert_eq!(OpenKind::from_flags(0x10000), None);
    // the first kind in the order of the checks wins
    assert_eq!(OpenKind::from_flags(0x100 | 0x80000), Some(OpenKind::MainDb));
    assert_eq!(OpenKind::from_flags(0x800 | 0x200), Some(OpenKind::MainJournal));
    assert_eq!(OpenKind::from_flags(0x200 | 0x1000), Some(OpenKind::TempDb));
    assert_eq!(OpenKind::from_flags(0x1000 | 0x400), Some(OpenKind::TempJournal));
    assert_eq!(OpenKind::from_flags(0x4000 | 0x2000), Some(OpenKind::SubJournal));
}

#[test]
fn accesses_have_their_flags() {
    for (access, flags) in ACCESSES {
        assert_eq!(access.to_flags(), flags);
        assert_eq!(OpenAccess::from_flags(flags), Some(access));
        assert_eq!(OpenAccess::from_flags(flags | 0x100 | 0x8), Some(access));
    }
    assert_eq!(OpenAccess::from_flags(0), None);
    assert_eq!(OpenAccess::from_flags(0x10), None);
    assert_eq!(OpenAccess::from_flags(0x100), None);
    assert_eq!(OpenAccess::from_flags(0x4), Some(OpenAccess::Create));
    assert_eq!(OpenAccess::from_flags(0x14), Some(OpenAccess::CreateNew));
    assert_eq!(OpenAccess::from_flags(0x3), Some(OpenAccess::Write));
    assert_eq!(OpenAccess::from_flags(0x11), Some(OpenAccess::Read));
}

#[test]
fn accesses_have_their_numbers() {
    assert_eq!(OpenAccess::Read.to_u16(), 1);
    assert_eq!(OpenAccess::Write.to_u16(), 2);
    assert_eq!(OpenAccess::Create.to_u16(), 3);
    assert_eq!(OpenAccess::CreateNew.to_u16(), 4);
    assert_eq!(OpenAccess::from_u16(0), None);
    assert_eq!(OpenAccess::from_u16(1), Some(OpenAccess::Read));
    assert_eq!(OpenAccess::from_u16(4), Some(OpenAccess::CreateNew));
    assert_eq!(OpenAccess::from_u16(5), None);
    assert!(!OpenAccess::Read.creates());
    assert!(!OpenAccess::Write.creates());
    assert!(OpenAccess::Create.creates());
    assert!(OpenAccess::CreateNew.creates());
}

#[test]
fn options_survive_their_flags() {
    for (kind, kind_flag) in KINDS {
        for (access, access_flags) in ACCESSES {
            for delete_on_close in [false, true] {
                let options = OpenOptions { kind, access, delete_on_close };
                let flags = options.to_flags();
                assert_eq!(flags, kind_flag | access_flags | if delete_on_close { 8 } else { 0 });
                assert_eq!(OpenOptions::from_flags(flags), Some(options));
            }
        }
    }
}

#[test]
fn options_need_a_kind_and_an_access() {
    assert_eq!(OpenOptions::from_flags(0), None);
    assert_eq!(OpenOptions::from_flags(0x100), None);
    assert_eq!(OpenOptions::from_flags(0x6), None);
    assert_eq!(OpenOptions::from_flags(0x8), None);
    assert_eq!(
        OpenOptions::from_flags(0x100 | 0x2 | 0x4 | 0x40),
        Some(OpenOptions {
            kind: OpenKind::MainDb,
            access: OpenAccess::Create,
            delete_on_close: false
        })
    );
    assert_eq!(
        OpenOptions::from_flags(0x200 | 0x2 | 0x4 | 0x10 | 0x8),
        Some(OpenOptions {
            kind: OpenKind::TempDb,
            access: OpenAccess::CreateNew,
            delete_on_close: true
        })
    );
}
