//! How an object is opened: what it is, and with which access.

use vstd::prelude::*;

use crate::codes::{
    SQLITE_OPEN_CREATE, SQLITE_OPEN_DELETEONCLOSE, SQLITE_OPEN_EXCLUSIVE, SQLITE_OPEN_MAIN_DB,
    SQLITE_OPEN_MAIN_JOURNAL, SQLITE_OPEN_READONLY, SQLITE_OPEN_READWRITE, SQLITE_OPEN_SUBJOURNAL,
    SQLITE_OPEN_SUPER_JOURNAL, SQLITE_OPEN_TEMP_DB, SQLITE_OPEN_TEMP_JOURNAL,
    SQLITE_OPEN_TRANSIENT_DB, SQLITE_OPEN_WAL,
};

verus! {

/// The object type that is being opened.
#[derive(Debug, Clone, Copy, PartialEq, Eq, Structural)]
pub enum OpenKind {
    MainDb,
    MainJournal,
    TempDb,
    TempJournal,
    TransientDb,
    SubJournal,
    SuperJournal,
    Wal,
}

/// The access an object is opened with.
#[derive(Debug, Clone, Copy, PartialEq, Eq, Structural)]
pub enum OpenAccess {
    /// Read access.
    Read,
    /// Write access (includes read access).
    Write,
    /// Create the file if it does not exist (includes write and read access).
    Create,
    /// Create the file, but fail if it already exists (includes write and read
    /// access).
    CreateNew,
}

/// The options an object is opened with.
#[derive(Debug, Clone, Copy, PartialEq, Eq, Structural)]
pub struct OpenOptions {
    /// The object type that is being opened.
    pub kind: OpenKind,
    /// The access an object is opened with.
    pub access: OpenAccess,
    /// The file should be deleted when it is closed.
    pub delete_on_close: bool,
}

impl OpenKind {
    /// The object type that the flags of an open request name: the first, in
    /// the order of the cases below, whose bit is set.
    pub open spec fn spec_from_flags(flags: i32) -> Option<OpenKind> {
        if flags & SQLITE_OPEN_MAIN_DB > 0 {
            Some(OpenKind::MainDb)
        } else if flags & SQLITE_OPEN_MAIN_JOURNAL > 0 {
            Some(OpenKind::MainJournal)
        } else if flags & SQLITE_OPEN_TEMP_DB > 0 {
            Some(OpenKind::TempDb)
        } else if flags & SQLITE_OPEN_TEMP_JOURNAL > 0 {
            Some(OpenKind::TempJournal)
        } else if flags & SQLITE_OPEN_TRANSIENT_DB > 0 {
            Some(OpenKind::TransientDb)
        } else if flags & SQLITE_OPEN_SUBJOURNAL > 0 {
            Some(OpenKind::SubJournal)
        } else if flags & SQLITE_OPEN_SUPER_JOURNAL > 0 {
            Some(OpenKind::SuperJournal)
        } else if flags & SQLITE_OPEN_WAL > 0 {
            Some(OpenKind::Wal)
        } else {
            None
        }
    }

    /// The flag that stands for the object type.
    pub open spec fn spec_to_flags(self) -> i32 {
        match self {
            OpenKind::MainDb => SQLITE_OPEN_MAIN_DB,
            OpenKind::MainJournal => SQLITE_OPEN_MAIN_JOURNAL,
            OpenKind::TempDb => SQLITE_OPEN_TEMP_DB,
            OpenKind::TempJournal => SQLITE_OPEN_TEMP_JOURNAL,
            OpenKind::TransientDb => SQLITE_OPEN_TRANSIENT_DB,
            OpenKind::SubJournal => SQLITE_OPEN_SUBJOURNAL,
            OpenKind::SuperJournal => SQLITE_OPEN_SUPER_JOURNAL,
            OpenKind::Wal => SQLITE_OPEN_WAL,
        }
    }

    /// Read the object type off the flags of an open request.
    pub fn from_flags(flags: i32) -> (r: Option<OpenKind>)
        ensures
            r == OpenKind::spec_from_flags(flags),
    {
        if flags & SQLITE_OPEN_MAIN_DB > 0 {
            Some(OpenKind::MainDb)
        } else if flags & SQLITE_OPEN_MAIN_JOURNAL > 0 {
            Some(OpenKind::MainJournal)
        } else if flags & SQLITE_OPEN_TEMP_DB > 0 {
            Some(OpenKind::TempDb)
        } else if flags & SQLITE_OPEN_TEMP_JOURNAL > 0 {
            Some(OpenKind::TempJournal)
        } else if flags & SQLITE_OPEN_TRANSIENT_DB > 0 {
            Some(OpenKind::TransientDb)
        } else if flags & SQLITE_OPEN_SUBJOURNAL > 0 {
            Some(OpenKind::SubJournal)
        } else if flags & SQLITE_OPEN_SUPER_JOURNAL > 0 {
            Some(OpenKind::SuperJournal)
        } else if flags & SQLITE_OPEN_WAL > 0 {
            Some(OpenKind::Wal)
        } else {
            None
        }
    }

    /// The flag that stands for the object type.
    pub fn to_flags(self) -> (r: i32)
        ensures
            r == self.spec_to_flags(),
    {
        match self {
            OpenKind::MainDb => SQLITE_OPEN_MAIN_DB,
            OpenKind::MainJournal => SQLITE_OPEN_MAIN_JOURNAL,
            OpenKind::TempDb => SQLITE_OPEN_TEMP_DB,
            OpenKind::TempJournal => SQLITE_OPEN_TEMP_JOURNAL,
            OpenKind::TransientDb => SQLITE_OPEN_TRANSIENT_DB,
            OpenKind::SubJournal => SQLITE_OPEN_SUBJOURNAL,
            OpenKind::SuperJournal => SQLITE_OPEN_SUPER_JOURNAL,
            OpenKind::Wal => SQLITE_OPEN_WAL,
        }
    }
}

impl OpenAccess {
    /// The access that the flags of an open request ask for: create-new if
    /// both the create and the exclusive bit are set, else create, else
    /// write, else read; none if no access bit is set.
    pub open spec fn spec_from_flags(flags: i32) -> Option<OpenAccess> {
        if (flags & SQLITE_OPEN_CREATE > 0) && (flags & SQLITE_OPEN_EXCLUSIVE > 0) {
            Some(OpenAccess::CreateNew)
        } else if flags & SQLITE_OPEN_CREATE > 0 {
            Some(OpenAccess::Create)
        } else if flags & SQLITE_OPEN_READWRITE > 0 {
            Some(OpenAccess::Write)
        } else if flags & SQLITE_OPEN_READONLY > 0 {
            Some(OpenAccess::Read)
        } else {
            None
        }
    }

    /// The flags that stand for the access.
    pub open spec fn spec_to_flags(self) -> i32 {
        match self {
            OpenAccess::Read => SQLITE_OPEN_READONLY,
            OpenAccess::Write => SQLITE_OPEN_READWRITE,
            OpenAccess::Create => SQLITE_OPEN_READWRITE | SQLITE_OPEN_CREATE,
            OpenAccess::CreateNew => SQLITE_OPEN_READWRITE | SQLITE_OPEN_CREATE
                | SQLITE_OPEN_EXCLUSIVE,
        }
    }

    /// The access that `code` stands for in a message, if it stands for one.
    pub open spec fn spec_from_u16(code: u16) -> Option<OpenAccess> {
        if code == 1 {
            Some(OpenAccess::Read)
        } else if code == 2 {
            Some(OpenAccess::Write)
        } else if code == 3 {
            Some(OpenAccess::Create)
        } else if code == 4 {
            Some(OpenAccess::CreateNew)
        } else {
            None
        }
    }

    /// The number that stands for the access in a message.
    pub open spec fn spec_to_u16(self) -> u16 {
        match self {
            OpenAccess::Read => 1,
            OpenAccess::Write => 2,
            OpenAccess::Create => 3,
            OpenAccess::CreateNew => 4,
        }
    }

    /// Read the access off the flags of an open request.
    pub fn from_flags(flags: i32) -> (r: Option<OpenAccess>)
        ensures
            r == OpenAccess::spec_from_flags(flags),
    {
        if (flags & SQLITE_OPEN_CREATE > 0) && (flags & SQLITE_OPEN_EXCLUSIVE > 0) {
            Some(OpenAccess::CreateNew)
        } else if flags & SQLITE_OPEN_CREATE > 0 {
            Some(OpenAccess::Create)
        } else if flags & SQLITE_OPEN_READWRITE > 0 {
            Some(OpenAccess::Write)
        } else if flags & SQLITE_OPEN_READONLY > 0 {
            Some(OpenAccess::Read)
        } else {
            None
        }
    }

    /// The flags that stand for the access.
    pub fn to_flags(self) -> (r: i32)
        ensures
            r == self.spec_to_flags(),
    {
        match self {
            OpenAccess::Read => SQLITE_OPEN_READONLY,
            OpenAccess::Write => SQLITE_OPEN_READWRITE,
            OpenAccess::Create => SQLITE_OPEN_READWRITE | SQLITE_OPEN_CREATE,
            OpenAccess::CreateNew => SQLITE_OPEN_READWRITE | SQLITE_OPEN_CREATE
                | SQLITE_OPEN_EXCLUSIVE,
        }
    }

    /// The access that `code` stands for in a message.
    pub fn from_u16(code: u16) -> (r: Option<OpenAccess>)
        ensures
            r == OpenAccess::spec_from_u16(code),
    {
        if code == 1 {
            Some(OpenAccess::Read)
        } else if code == 2 {
            Some(OpenAccess::Write)
        } else if code == 3 {
            Some(OpenAccess::Create)
        } else if code == 4 {
            Some(OpenAccess::CreateNew)
        } else {
            None
        }
    }

    /// The number that stands for the access in a message.
    pub fn to_u16(self) -> (r: u16)
        ensures
            r == self.spec_to_u16(),
            OpenAccess::spec_from_u16(r) == Some(self),
    {
        match self {
            OpenAccess::Read => 1,
            OpenAccess::Write => 2,
            OpenAccess::Create => 3,
            OpenAccess::CreateNew => 4,
        }
    }

    /// Whether the access creates the file where it is missing.
    pub fn creates(self) -> (r: bool)
        ensures
            r == (self == OpenAccess::Create || self == OpenAccess::CreateNew),
    {
        match self {
            OpenAccess::Create | OpenAccess::CreateNew => true,
            _ => false,
        }
    }
}

impl OpenOptions {
    /// The options that the flags of an open request stand for, if they name
    /// both an object type and an access.
    pub open spec fn spec_from_flags(flags: i32) -> Option<OpenOptions> {
        match (OpenKind::spec_from_flags(flags), OpenAccess::spec_from_flags(flags)) {
            (Some(kind), Some(access)) => Some(
                OpenOptions {
                    kind,
                    access,
                    delete_on_close: flags & SQLITE_OPEN_DELETEONCLOSE > 0,
                },
            ),
            _ => None,
        }
    }

    /// The flags that stand for the options.
    pub open spec fn spec_to_flags(self) -> i32 {
        self.kind.spec_to_flags() | self.access.spec_to_flags() | if self.delete_on_close {
            SQLITE_OPEN_DELETEONCLOSE
        } else {
            0
        }
    }

    /// Read the options off the flags of an open request.
    pub fn from_flags(flags: i32) -> (r: Option<OpenOptions>)
        ensures
            r == OpenOptions::spec_from_flags(flags),
    {
        let kind = match OpenKind::from_flags(flags) {
            Some(kind) => kind,
            None => {
                return None;
            },
        };
        let access = match OpenAccess::from_flags(flags) {
            Some(access) => access,
            None => {
                return None;
            },
        };
        Some(OpenOptions { kind, access, delete_on_close: flags & SQLITE_OPEN_DELETEONCLOSE > 0 })
    }

    /// The flags that stand for the options.
    pub fn to_flags(&self) -> (r: i32)
        ensures
            r == self.spec_to_flags(),
    {
        self.kind.to_flags() | self.access.to_flags() | if self.delete_on_close {
            SQLITE_OPEN_DELETEONCLOSE
        } else {
            0
        }
    }
}

/// The bits of an access and of the delete-on-close flag lie below the bits
/// of the object types.
proof fn lemma_low_flags(options: OpenOptions) -> (low: i32)
    ensures
        low == options.access.spec_to_flags() | if options.delete_on_close {
            SQLITE_OPEN_DELETEONCLOSE
        } else {
            0
        },
        0 <= low < 32,
        options.spec_to_flags() == options.kind.spec_to_flags() | low,
{
    let a = options.access.spec_to_flags();
    let d = if options.delete_on_close {
        SQLITE_OPEN_DELETEONCLOSE
    } else {
        0
    };
    let k = options.kind.spec_to_flags();
    assert(0 <= a < 32 && 0 <= d < 32 ==> 0 <= (a | d) < 32 && (k | a | d) == (k | (a | d)))
        by (bit_vector);
    assert(2i32 | 4i32 == 6i32 && 2i32 | 4i32 | 16i32 == 22i32) by (bit_vector);
    a | d
}

/// The flags of options stand for these very options.
pub proof fn lemma_flags_roundtrip(options: OpenOptions)
    ensures
        OpenOptions::spec_from_flags(options.spec_to_flags()) == Some(options),
{
    let low = lemma_low_flags(options);
    let k = options.kind.spec_to_flags();
    lemma_kind_roundtrip(options.kind, low);
    lemma_access_roundtrip(options, k);
}

/// Whatever lies below the bits of the object types does not change which
/// object type the flags name.
proof fn lemma_kind_roundtrip(kind: OpenKind, low: i32)
    requires
        0 <= low < 32,
    ensures
        OpenKind::spec_from_flags(kind.spec_to_flags() | low) == Some(kind),
{
    assert(0 <= low < 32 ==> ((0x100i32 | low) & 0x100i32 > 0)) by (bit_vector);
    assert(0 <= low < 32 ==> ((0x800i32 | low) & 0x800i32 > 0) && !((0x800i32 | low) & 0x100i32
        > 0)) by (bit_vector);
    assert(0 <= low < 32 ==> ((0x200i32 | low) & 0x200i32 > 0) && !((0x200i32 | low) & 0x100i32
        > 0) && !((0x200i32 | low) & 0x800i32 > 0)) by (bit_vector);
    assert(0 <= low < 32 ==> ((0x1000i32 | low) & 0x1000i32 > 0) && !((0x1000i32 | low)
        & 0x100i32 > 0) && !((0x1000i32 | low) & 0x800i32 > 0) && !((0x1000i32 | low) & 0x200i32
        > 0)) by (bit_vector);
    assert(0 <= low < 32 ==> ((0x400i32 | low) & 0x400i32 > 0) && !((0x400i32 | low) & 0x100i32
        > 0) && !((0x400i32 | low) & 0x800i32 > 0) && !((0x400i32 | low) & 0x200i32 > 0) && !((
    0x400i32 | low) & 0x1000i32 > 0)) by (bit_vector);
    assert(0 <= low < 32 ==> ((0x2000i32 | low) & 0x2000i32 > 0) && !((0x2000i32 | low)
        & 0x100i32 > 0) && !((0x2000i32 | low) & 0x800i32 > 0) && !((0x2000i32 | low) & 0x200i32
        > 0) && !((0x2000i32 | low) & 0x1000i32 > 0) && !((0x2000i32 | low) & 0x400i32 > 0))
        by (bit_vector);
    assert(0 <= low < 32 ==> ((0x4000i32 | low) & 0x4000i32 > 0) && !((0x4000i32 | low)
        & 0x100i32 > 0) && !((0x4000i32 | low) & 0x800i32 > 0) && !((0x4000i32 | low) & 0x200i32
        > 0) && !((0x4000i32 | low) & 0x1000i32 > 0) && !((0x4000i32 | low) & 0x400i32 > 0) && !((
    0x4000i32 | low) & 0x2000i32 > 0)) by (bit_vector);
    assert(0 <= low < 32 ==> ((0x80000i32 | low) & 0x80000i32 > 0) && !((0x80000i32 | low)
        & 0x100i32 > 0) && !((0x80000i32 | low) & 0x800i32 > 0) && !((0x80000i32 | low)
        & 0x200i32 > 0) && !((0x80000i32 | low) & 0x1000i32 > 0) && !((0x80000i32 | low)
        & 0x400i32 > 0) && !((0x80000i32 | low) & 0x2000i32 > 0) && !((0x80000i32 | low)
        & 0x4000i32 > 0)) by (bit_vector);
}

/// The bit of an object type does not change which access the flags ask
/// for, nor whether the file is deleted on close.
proof fn lemma_access_roundtrip(options: OpenOptions, k: i32)
    requires
        k == options.kind.spec_to_flags(),
    ensures
        OpenAccess::spec_from_flags(options.spec_to_flags()) == Some(options.access),
        (options.spec_to_flags() & SQLITE_OPEN_DELETEONCLOSE > 0) == options.delete_on_close,
{
    let a = options.access.spec_to_flags();
    let d = if options.delete_on_close {
        SQLITE_OPEN_DELETEONCLOSE
    } else {
        0
    };
    let f = options.spec_to_flags();
    assert(f == (k | a | d));
    assert((k & 0x1fi32 == 0) && (d == 0 || d == 8) ==> ((k | a | d) & 0x4i32) == (a & 0x4i32) && ((k
        | a | d) & 0x10i32) == (a & 0x10i32) && ((k | a | d) & 0x2i32) == (a & 0x2i32) && ((k | a
        | d) & 0x1i32) == (a & 0x1i32) && (((k | a | d) & 0x8i32) == d || a & 0x8i32 != 0))
        by (bit_vector);
    assert(0x100i32 & 0x1fi32 == 0 && 0x800i32 & 0x1fi32 == 0 && 0x200i32 & 0x1fi32 == 0
        && 0x1000i32 & 0x1fi32 == 0 && 0x400i32 & 0x1fi32 == 0 && 0x2000i32 & 0x1fi32 == 0
        && 0x4000i32 & 0x1fi32 == 0 && 0x80000i32 & 0x1fi32 == 0) by (bit_vector);
    assert(1i32 & 4i32 == 0 && 1i32 & 2i32 == 0 && 1i32 & 1i32 == 1 && 1i32 & 8i32 == 0 && 1i32
        & 16i32 == 0) by (bit_vector);
    assert(2i32 & 4i32 == 0 && 2i32 & 2i32 == 2 && 2i32 & 8i32 == 0 && 2i32 & 16i32 == 0)
        by (bit_vector);
    assert((2i32 | 4i32) & 4i32 == 4 && (2i32 | 4i32) & 16i32 == 0 && (2i32 | 4i32) & 8i32 == 0)
        by (bit_vector);
    assert((2i32 | 4i32 | 16i32) & 4i32 == 4 && (2i32 | 4i32 | 16i32) & 16i32 == 16 && (2i32
        | 4i32 | 16i32) & 8i32 == 0) by (bit_vector);
}

} // verus!
