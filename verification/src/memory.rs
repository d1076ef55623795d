//! The allocator for the module's side of the boundary.
//!
//! The boundary calling convention passes buffers as raw
//! (address, length) pairs into a flat address space. Here that
//! address space is modeled explicitly: the allocator owns a table
//! from region start address to region contents, and every boundary
//! operation that touches memory goes through it. Exactly one side
//! owns a region at any instant; ownership moves only through the
//! operations below.

use std::collections::HashMap;
use vstd::prelude::*;

verus! {

broadcast use vstd::std_specs::hash::group_hash_axioms;

/// Owns every live region of the module's address space.
///
/// Addresses are opaque nonzero handles, handed out in increasing
/// order so that a freed address is never reissued to a later
/// allocation.
pub struct Allocator {
    regions: HashMap<u32, Vec<u8>>,
    next: u32,
}

impl View for Allocator {
    type V = Map<u32, Seq<u8>>;

    /// The live regions: start address to contents.
    closed spec fn view(&self) -> Map<u32, Seq<u8>> {
        Map::new(
            |a: u32| self.regions@.contains_key(a),
            |a: u32| self.regions@[a]@,
        )
    }
}

impl Allocator {
    /// Internal consistency: address 0 is never handed out, and every
    /// live address lies below the next one to be issued.
    pub closed spec fn wf(&self) -> bool {
        &&& self.next >= 1
        &&& forall|a: u32| #[trigger] self.regions@.contains_key(a) ==> a < self.next
    }

    /// How many addresses can still be issued.
    pub closed spec fn addresses_left(&self) -> int {
        u32::MAX - self.next
    }

    /// Whether another address can still be issued.
    pub open spec fn has_room(&self) -> bool {
        self.addresses_left() > 0
    }

    /// A fresh allocator with no live regions.
    pub fn new() -> (r: Allocator)
        ensures
            r.wf(),
            r@ == Map::<u32, Seq<u8>>::empty(),
            r.addresses_left() == u32::MAX - 1,
    {
        let r = Allocator { regions: HashMap::new(), next: 1 };
        proof {
            assert(r@ =~= Map::<u32, Seq<u8>>::empty());
        }
        r
    }

    /// Runtime check for [`Self::has_room`], so that an unverified
    /// caller can test it before allocating and abort on exhaustion.
    pub fn can_allocate(&self) -> (r: bool)
        ensures
            r == self.has_room(),
    {
        self.next < u32::MAX
    }

    /// Reserves `size` bytes and transfers ownership of the region to
    /// the caller: the returned address is fresh, nonzero, and stays
    /// valid until a matching [`Self::deallocate`]. The new region is
    /// zero-filled; callers must treat its initial contents as
    /// unspecified.
    pub fn allocate(&mut self, size: u32) -> (r: u32)
        requires
            old(self).wf(),
            old(self).has_room(),
        ensures
            final(self).wf(),
            r != 0,
            !old(self)@.contains_key(r),
            final(self)@ == old(self)@.insert(r, Seq::new(size as nat, |i: int| 0u8)),
            final(self).addresses_left() == old(self).addresses_left() - 1,
    {
        let address = self.next;
        self.next = self.next + 1;
        let mut contents: Vec<u8> = Vec::new();
        let mut i: u32 = 0;
        while i < size
            invariant
                i <= size,
                contents@ =~= Seq::new(i as nat, |j: int| 0u8),
            decreases size - i,
        {
            contents.push(0u8);
            i = i + 1;
        }
        self.regions.insert(address, contents);
        proof {
            assert(self@ =~= old(self)@.insert(address, Seq::new(size as nat, |i: int| 0u8)));
        }
        address
    }

    /// Reclaims a region. `size` must be the exact length associated
    /// with `address`; a zero `size` is accepted as a no-op when no
    /// empty region lives at `address`, which is what freeing a
    /// zero-length failure result amounts to.
    pub fn deallocate(&mut self, address: u32, size: u32)
        requires
            old(self).wf(),
            size != 0 ==> old(self)@.contains_key(address) && old(self)@[address].len()
                == size as nat,
        ensures
            final(self).wf(),
            final(self)@ == if old(self)@.contains_key(address) && old(self)@[address].len()
                == size as nat {
                old(self)@.remove(address)
            } else {
                old(self)@
            },
            final(self).addresses_left() == old(self).addresses_left(),
    {
        let matches_size = match self.regions.get(&address) {
            Some(region) => region.len() == size as usize,
            None => false,
        };
        if matches_size {
            self.regions.remove(&address);
            proof {
                assert(self@ =~= old(self)@.remove(address));
            }
        }
    }

    /// Stores `data` into the region at `address`, which must already
    /// be allocated with exactly `data`'s length. This is how the
    /// caller's writes into a region it owns are reflected in the
    /// table.
    pub fn write_region(&mut self, address: u32, data: Vec<u8>)
        requires
            old(self).wf(),
            old(self)@.contains_key(address),
            old(self)@[address].len() == data@.len(),
        ensures
            final(self).wf(),
            final(self)@ == old(self)@.insert(address, data@),
            final(self).addresses_left() == old(self).addresses_left(),
    {
        self.regions.insert(address, data);
        proof {
            assert(self@ =~= old(self)@.insert(address, data@));
        }
    }

    /// Copies `length` bytes starting at `address` out of the address
    /// space into a freshly owned buffer. The source region is only
    /// borrowed: ownership does not move. A zero `length` yields an
    /// empty buffer without touching the table at all.
    pub fn copy_in(&self, address: u32, length: u32) -> (r: Vec<u8>)
        requires
            length != 0 ==> self@.contains_key(address) && self@[address].len() == length as nat,
        ensures
            r@ == if length == 0 {
                Seq::<u8>::empty()
            } else {
                self@[address]
            },
    {
        let mut out: Vec<u8> = Vec::new();
        if length == 0 {
            return out;
        }
        proof {
            assert(self.regions@.contains_key(address));
        }
        let region = match self.regions.get(&address) {
            Some(region) => region,
            None => {
                proof {
                    assert(false);
                }
                return out;
            },
        };
        let mut i: usize = 0;
        while i < region.len()
            invariant
                i <= region.len(),
                out@ =~= region@.subrange(0, i as int),
            decreases region.len() - i,
        {
            out.push(region[i]);
            i = i + 1;
        }
        proof {
            assert(out@ =~= region@);
        }
        out
    }

    /// Surrenders ownership of `buffer` to the caller: the buffer
    /// becomes a live region at a fresh address, and the recipient is
    /// solely responsible for eventually calling [`Self::deallocate`]
    /// with exactly the returned (address, length) pair.
    pub fn leak_out(&mut self, buffer: Vec<u8>) -> (r: (u32, u32))
        requires
            old(self).wf(),
            old(self).has_room(),
            buffer@.len() <= u32::MAX,
        ensures
            final(self).wf(),
            r.0 != 0,
            !old(self)@.contains_key(r.0),
            r.1 == buffer@.len(),
            final(self)@ == old(self)@.insert(r.0, buffer@),
            final(self).addresses_left() == old(self).addresses_left() - 1,
    {
        let address = self.next;
        self.next = self.next + 1;
        let length = buffer.len() as u32;
        let ghost contents = buffer@;
        self.regions.insert(address, buffer);
        proof {
            assert(self@ =~= old(self)@.insert(address, contents));
        }
        (address, length)
    }
}

/// Allocator pairing: releasing a freshly issued region restores the
/// region table exactly, so an allocation followed by a matching
/// deallocation neither corrupts another region nor leaks one. This is
/// stated over the views that [`Allocator::allocate`] and
/// [`Allocator::deallocate`] relate.
pub proof fn lemma_allocate_deallocate_pairing(
    regions: Map<u32, Seq<u8>>,
    address: u32,
    contents: Seq<u8>,
)
    requires
        !regions.contains_key(address),
    ensures
        regions.insert(address, contents).remove(address) == regions,
{
    assert(regions.insert(address, contents).remove(address) =~= regions);
}

} // verus!
