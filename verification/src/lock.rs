//! The five-level lock hierarchy of a database file.

use std::cmp::Ordering;
use vstd::prelude::*;

use crate::codes::{
    SQLITE_LOCK_EXCLUSIVE, SQLITE_LOCK_NONE, SQLITE_LOCK_PENDING, SQLITE_LOCK_RESERVED,
    SQLITE_LOCK_SHARED,
};

verus! {

/// The lock a connection holds on a database file.
#[derive(Debug, Clone, Copy, PartialEq, Eq, Structural)]
pub enum Lock {
    /// No locks are held. The database may be neither read nor written.
    Unlocked,
    /// The database may be read but not written. Any number of connections can
    /// hold a shared lock at the same time.
    Shared,
    /// The holder plans to write at some point in the future, but is currently
    /// just reading. Only a single reserved lock may be active at one time,
    /// though it can coexist with shared locks.
    Reserved,
    /// The holder wants to write as soon as possible and is waiting for all
    /// shared locks to clear. No new shared locks are permitted meanwhile.
    Pending,
    /// Needed in order to write to the database file. No other lock of any
    /// kind can coexist with it.
    Exclusive,
}

impl Lock {
    /// The position of the lock in the hierarchy, `0` for [`Lock::Unlocked`] up to
    /// `4` for [`Lock::Exclusive`].
    pub open spec fn level(self) -> int {
        match self {
            Lock::Unlocked => 0,
            Lock::Shared => 1,
            Lock::Reserved => 2,
            Lock::Pending => 3,
            Lock::Exclusive => 4,
        }
    }

    /// The lock with the given position in the hierarchy, if there is one.
    pub open spec fn from_level(level: int) -> Option<Lock> {
        if level == 0 {
            Some(Lock::Unlocked)
        } else if level == 1 {
            Some(Lock::Shared)
        } else if level == 2 {
            Some(Lock::Reserved)
        } else if level == 3 {
            Some(Lock::Pending)
        } else if level == 4 {
            Some(Lock::Exclusive)
        } else {
            None
        }
    }

    /// Whether the lock announces or grants write access, that is, whether it
    /// is above [`Lock::Shared`].
    pub open spec fn is_writer(self) -> bool {
        self.level() > 1
    }

    /// The lock that `code` stands for in a message, if it stands for one.
    /// In a message the locks are numbered from one.
    pub open spec fn spec_from_u16(code: u16) -> Option<Lock> {
        if code >= 1 {
            Lock::from_level(code - 1)
        } else {
            None
        }
    }

    /// The number that stands for the lock in a message.
    pub open spec fn spec_to_u16(self) -> u16 {
        (self.level() + 1) as u16
    }

    /// The lock that `code` stands for in a message.
    pub fn from_u16(code: u16) -> (r: Option<Lock>)
        ensures
            r == Lock::spec_from_u16(code),
    {
        if code == 1 {
            Some(Lock::Unlocked)
        } else if code == 2 {
            Some(Lock::Shared)
        } else if code == 3 {
            Some(Lock::Reserved)
        } else if code == 4 {
            Some(Lock::Pending)
        } else if code == 5 {
            Some(Lock::Exclusive)
        } else {
            None
        }
    }

    /// The number that stands for the lock in a message.
    pub fn to_u16(self) -> (r: u16)
        ensures
            r == self.spec_to_u16(),
            Lock::spec_from_u16(r) == Some(self),
    {
        match self {
            Lock::Unlocked => 1,
            Lock::Shared => 2,
            Lock::Reserved => 3,
            Lock::Pending => 4,
            Lock::Exclusive => 5,
        }
    }

    /// Translate the integer the database engine uses for a lock.
    pub fn from_i32(lock: i32) -> (r: Option<Lock>)
        ensures
            r == Lock::from_level(lock as int),
    {
        if lock == SQLITE_LOCK_NONE {
            Some(Lock::Unlocked)
        } else if lock == SQLITE_LOCK_SHARED {
            Some(Lock::Shared)
        } else if lock == SQLITE_LOCK_RESERVED {
            Some(Lock::Reserved)
        } else if lock == SQLITE_LOCK_PENDING {
            Some(Lock::Pending)
        } else if lock == SQLITE_LOCK_EXCLUSIVE {
            Some(Lock::Exclusive)
        } else {
            None
        }
    }

    /// The integer the database engine uses for this lock.
    pub fn to_i32(self) -> (r: i32)
        ensures
            r == self.level(),
    {
        match self {
            Lock::Unlocked => SQLITE_LOCK_NONE,
            Lock::Shared => SQLITE_LOCK_SHARED,
            Lock::Reserved => SQLITE_LOCK_RESERVED,
            Lock::Pending => SQLITE_LOCK_PENDING,
            Lock::Exclusive => SQLITE_LOCK_EXCLUSIVE,
        }
    }
}

impl PartialOrd for Lock {
    fn partial_cmp(&self, other: &Self) -> (r: Option<Ordering>) {
        let a: i32 = self.to_i32();
        let b: i32 = other.to_i32();
        if a < b {
            Some(Ordering::Less)
        } else if a == b {
            Some(Ordering::Equal)
        } else {
            Some(Ordering::Greater)
        }
    }
}

impl vstd::std_specs::cmp::PartialOrdSpecImpl for Lock {
    open spec fn obeys_partial_cmp_spec() -> bool {
        true
    }

    open spec fn partial_cmp_spec(&self, other: &Self) -> Option<Ordering> {
        if self.level() < other.level() {
            Some(Ordering::Less)
        } else if self.level() == other.level() {
            Some(Ordering::Equal)
        } else {
            Some(Ordering::Greater)
        }
    }
}

impl Default for Lock {
    fn default() -> (r: Lock)
        ensures
            r == Lock::Unlocked,
    {
        Lock::Unlocked
    }
}

/// The hierarchy is a total order: two locks are equal exactly if they are on
/// the same level, and every level belongs to exactly one lock.
pub proof fn lemma_lock_level_injective(a: Lock, b: Lock)
    ensures
        0 <= a.level() <= 4,
        a.level() == b.level() <==> a == b,
        Lock::from_level(a.level()) == Some(a),
{
}

} // verus!
