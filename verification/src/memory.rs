//! The sparse byte map: what is known of a region of memory.

use std::collections::BTreeMap;
use vstd::prelude::*;

verus! {

broadcast use vstd::laws_cmp::group_laws_cmp;

/// Bytes by absolute address. An address without an entry is unresolved:
/// nothing is known of the byte that lives there.
pub type SparseByteMap = BTreeMap<u64, u8>;

/// The byte known at `addr`, if the map resolves that address.
pub open spec fn byte_at(data: Map<u64, u8>, addr: u64) -> Option<u8> {
    if data.contains_key(addr) {
        Some(data[addr])
    } else {
        None
    }
}

/// Looks `addr` up in the map.
pub fn lookup(data: &SparseByteMap, addr: u64) -> (byte: Option<u8>)
    ensures
        byte == byte_at(data@, addr),
{
    match data.get(&addr) {
        Some(b) => Some(*b),
        None => None,
    }
}

} // verus!
