//! The WAL index of one database path, as the coordinator keeps it: the
//! blocks of its regions, and the locks on them.

use std::collections::HashMap;
use vstd::prelude::*;
use vstd::slice::slice_to_vec;

use crate::request::WAL_INDEX_REGION_SIZE;
use crate::wal_lock::{band_moved, lock_band, WalIndexLock, WalIndexLockState};

verus! {

broadcast use vstd::std_specs::hash::group_hash_axioms;

/// A block of `len` zero bytes.
pub open spec fn zeros(len: nat) -> Seq<u8> {
    Seq::new(len, |i: int| 0u8)
}

/// A block of `len` zero bytes.
pub fn zeroed(len: usize) -> (block: Vec<u8>)
    ensures
        block@ == zeros(len as nat),
{
    let mut block: Vec<u8> = Vec::new();
    while block.len() < len
        invariant
            block@.len() <= len,
            forall|i: int| 0 <= i < block@.len() ==> block@[i] == 0,
        decreases len - block.len(),
    {
        block.push(0);
    }
    assert(block@ =~= zeros(len as nat));
    block
}

/// The length of the file that holds the regions up to `region`.
pub open spec fn spec_region_end(region: u32) -> u64 {
    ((region + 1) * WAL_INDEX_REGION_SIZE) as u64
}

/// The length of the file that holds the regions up to `region`.
pub fn region_end(region: u32) -> (end: u64)
    ensures
        end == spec_region_end(region),
{
    let size: u64 = WAL_INDEX_REGION_SIZE as u64;
    assert(size == 32768);
    (region as u64 + 1) * size
}

/// The offset of `region` in the file that holds the regions.
pub fn region_offset(region: u32) -> (offset: u64)
    ensures
        offset == region * WAL_INDEX_REGION_SIZE,
{
    let size: u64 = WAL_INDEX_REGION_SIZE as u64;
    assert(size == 32768);
    (region as u64) * size
}

/// Whether `top` is the greatest of `regions`: `None` if there are none.
pub open spec fn is_top(regions: Set<u32>, top: Option<u32>) -> bool {
    match top {
        None => forall|k: u32| !regions.contains(k),
        Some(m) => regions.contains(m) && forall|k: u32| regions.contains(k) ==> k <= m,
    }
}

/// The WAL index of a path.
pub struct WalIndexStore {
    /// The blocks of the regions that were read or written so far.
    pub data: HashMap<u32, Vec<u8>>,
    /// The locks of the regions that were locked so far.
    pub locks: HashMap<u8, WalIndexLockState>,
    /// The greatest region that has a block.
    pub top: Option<u32>,
}

impl WalIndexStore {
    /// The blocks of the regions.
    pub open spec fn blocks(&self) -> Map<u32, Seq<u8>> {
        Map::new(|k: u32| self.data@.contains_key(k), |k: u32| self.data@[k]@)
    }

    /// Every block has the size of a region, and the greatest region is
    /// known.
    pub open spec fn wf(&self) -> bool {
        &&& forall|k: u32| #[trigger]
            self.data@.contains_key(k) ==> self.data@[k]@.len() == WAL_INDEX_REGION_SIZE
        &&& is_top(self.data@.dom(), self.top)
    }

    /// Whether the index holds neither a block nor a lock.
    pub open spec fn is_fresh(&self) -> bool {
        &&& self.data@ == Map::<u32, Vec<u8>>::empty()
        &&& self.locks@ == Map::<u8, WalIndexLockState>::empty()
        &&& self.top is None
    }

    /// An index without blocks and locks.
    pub fn new() -> (r: WalIndexStore)
        ensures
            r.wf(),
            r.is_fresh(),
    {
        WalIndexStore { data: HashMap::new(), locks: HashMap::new(), top: None }
    }

    /// Forget all blocks and all locks.
    pub fn clear(&mut self)
        ensures
            final(self).wf(),
            final(self).is_fresh(),
    {
        self.data.clear();
        self.locks.clear();
        self.top = None;
    }

    /// A copy of the block of `region`. A region that has no block yet gets
    /// one of zero bytes.
    pub fn get(&mut self, region: u32) -> (block: Vec<u8>)
        ensures
            old(self).wf() ==> final(self).wf(),
            block@ == if old(self).blocks().contains_key(region) {
                old(self).blocks()[region]
            } else {
                zeros(WAL_INDEX_REGION_SIZE as nat)
            },
            final(self).blocks() == old(self).blocks().insert(region, block@),
            final(self).locks@ == old(self).locks@,
    {
        let found = match self.data.get(&region) {
            Some(block) => Some(slice_to_vec(block.as_slice())),
            None => None,
        };
        match found {
            Some(block) => {
                assert(self.blocks() =~= old(self).blocks().insert(region, block@));
                block
            },
            None => {
                let block = zeroed(WAL_INDEX_REGION_SIZE);
                let stored = zeroed(WAL_INDEX_REGION_SIZE);
                self.data.insert(region, stored);
                self.raise_top(region);
                assert(self.blocks() =~= old(self).blocks().insert(region, block@));
                block
            },
        }
    }

    /// Store `data` as the block of `region`. A block that has not the size
    /// of a region is not stored.
    pub fn put(&mut self, region: u32, data: Vec<u8>) -> (stored: bool)
        ensures
            old(self).wf() ==> final(self).wf(),
            stored == (data@.len() == WAL_INDEX_REGION_SIZE),
            stored ==> final(self).blocks() == old(self).blocks().insert(region, data@),
            stored ==> final(self).top is Some,
            !stored ==> final(self).blocks() == old(self).blocks() && final(self).top == old(
                self,
            ).top,
            final(self).locks@ == old(self).locks@,
    {
        if data.len() != WAL_INDEX_REGION_SIZE {
            assert(self.blocks() =~= old(self).blocks());
            return false;
        }
        self.data.insert(region, data);
        self.raise_top(region);
        assert(self.blocks() =~= old(self).blocks().insert(region, data@));
        true
    }

    /// Note that `region` has a block now.
    fn raise_top(&mut self, region: u32)
        requires
            old(self).data@.contains_key(region),
        ensures
            final(self).data == old(self).data,
            final(self).locks == old(self).locks,
            final(self).top is Some,
            (forall|k: u32| #[trigger]
                old(self).data@.contains_key(k) ==> old(self).data@[k]@.len()
                    == WAL_INDEX_REGION_SIZE) && (is_top(
                old(self).data@.dom().remove(region),
                old(self).top,
            ) || is_top(old(self).data@.dom(), old(self).top)) ==> final(self).wf(),
    {
        let raise = match self.top {
            None => true,
            Some(top) => top < region,
        };
        if raise {
            self.top = Some(region);
        }
        proof {
            let regions = self.data@.dom();
            if is_top(regions.remove(region), old(self).top) || is_top(regions, old(self).top) {
                assert forall|k: u32| regions.contains(k) implies k <= self.top->Some_0 by {
                    if k != region {
                        assert(regions.remove(region).contains(k));
                    }
                }
            }
        }
    }

    /// The length that the file of the regions should have: it ends with
    /// the greatest region that has a block.
    pub fn file_len(&self) -> (len: u64)
        ensures
            match self.top {
                None => len == 0,
                Some(top) => len == spec_region_end(top),
            },
    {
        match self.top {
            None => 0,
            Some(top) => region_end(top),
        }
    }

    /// Move the connection with the view `view` to `to` on every region of
    /// the band `start..end`, or on none of them.
    pub fn lock(
        &mut self,
        view: &mut HashMap<u8, WalIndexLock>,
        start: u8,
        end: u8,
        to: WalIndexLock,
    ) -> (granted: bool)
        ensures
            old(self).wf() ==> final(self).wf(),
            final(self).data == old(self).data,
            final(self).top == old(self).top,
            band_moved(
                old(self).locks@,
                old(view)@,
                start,
                end,
                to,
                final(self).locks@,
                final(view)@,
                granted,
            ),
    {
        lock_band(&mut self.locks, view, start, end, to)
    }
}

} // verus!
