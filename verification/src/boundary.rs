//! Packing of (address, length) pairs into the single scalar return
//! value of the boundary calling convention, and the complete
//! transform transaction built on it.

use crate::memory::Allocator;
use crate::pipeline::{thumbnail, thumbnail_result_spec};
use vstd::prelude::*;

verus! {

/// Packs an (address, length) pair into one 64-bit scalar:
/// high 32 bits hold the address, low 32 bits the length.
pub open spec fn pack_spec(address: u32, length: u32) -> u64 {
    ((address as u64) << 32) | (length as u64)
}

/// The address component of a packed scalar.
pub open spec fn unpack_address_spec(packed: u64) -> u32 {
    (packed >> 32) as u32
}

/// The length component of a packed scalar.
pub open spec fn unpack_length_spec(packed: u64) -> u32 {
    (packed & 0xFFFF_FFFF) as u32
}

/// Packs an (address, length) pair into a single scalar return value.
pub fn pack(address: u32, length: u32) -> (r: u64)
    ensures
        r == pack_spec(address, length),
{
    ((address as u64) << 32) | (length as u64)
}

/// Splits a packed scalar back into its (address, length) pair.
pub fn unpack(packed: u64) -> (r: (u32, u32))
    ensures
        r.0 == unpack_address_spec(packed),
        r.1 == unpack_length_spec(packed),
{
    ((packed >> 32) as u32, (packed & 0xFFFF_FFFF) as u32)
}

/// Packing is lossless: unpacking a packed pair gives the pair back,
/// for every address and length below 2^32.
pub proof fn lemma_pack_unpack_roundtrip(address: u32, length: u32)
    ensures
        unpack_address_spec(pack_spec(address, length)) == address,
        unpack_length_spec(pack_spec(address, length)) == length,
{
    assert(((((address as u64) << 32) | (length as u64)) >> 32) as u32 == address) by (bit_vector);
    assert(((((address as u64) << 32) | (length as u64)) & 0xFFFF_FFFF) as u32 == length)
        by (bit_vector);
}

/// The source bytes that a (address, length) call argument denotes: a
/// zero length means an empty source whatever the address says.
pub open spec fn source_bytes_spec(regions: Map<u32, Seq<u8>>, address: u32, length: u32) -> Seq<
    u8,
> {
    if length == 0 {
        Seq::<u8>::empty()
    } else {
        regions[address]
    }
}

/// One complete transform transaction over the boundary convention:
/// copy the source region in, run the thumbnail transform, move the
/// result out as a fresh region owned by the caller, and pack its
/// (address, length) pair into one scalar.
///
/// A zero unpacked length signals failure; the packed address is then
/// 0, no region was added, and the caller must not read through it. A
/// result too long for the 32-bit length field is reported the same
/// way, since the convention cannot carry it.
pub fn thumbnail_packed(
    alloc: &mut Allocator,
    address: u32,
    length: u32,
    width: u32,
    height: u32,
) -> (r: u64)
    requires
        old(alloc).wf(),
        old(alloc).has_room(),
        length != 0 ==> old(alloc)@.contains_key(address) && old(alloc)@[address].len()
            == length as nat,
    ensures
        final(alloc).wf(),
        ({
            let out = thumbnail_result_spec(
                source_bytes_spec(old(alloc)@, address, length),
                width,
                height,
            );
            if out.len() == 0 || out.len() > u32::MAX {
                r == pack_spec(0, 0) && final(alloc)@ == old(alloc)@
            } else {
                &&& unpack_length_spec(r) == out.len()
                &&& unpack_address_spec(r) != 0
                &&& !old(alloc)@.contains_key(unpack_address_spec(r))
                &&& final(alloc)@ == old(alloc)@.insert(unpack_address_spec(r), out)
            }
        }),
{
    let source = alloc.copy_in(address, length);
    let result = thumbnail(source.as_slice(), width, height);
    if result.len() == 0 || result.len() > u32::MAX as usize {
        proof {
            lemma_pack_unpack_roundtrip(0, 0);
        }
        return pack(0, 0);
    }
    let (result_address, result_length) = alloc.leak_out(result);
    proof {
        lemma_pack_unpack_roundtrip(result_address, result_length);
    }
    pack(result_address, result_length)
}

} // verus!
