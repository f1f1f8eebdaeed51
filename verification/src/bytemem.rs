//! A plain byte buffer as guest memory.
//!
//! A `Vec<u8>` implements [`Memory`] directly: it serves every access kind
//! inside its bounds, little-endian, with base address 0. A host typically
//! wraps it in its own `Memory` implementation that translates addresses and
//! applies access policy.

use vstd::prelude::*;

use vstd::bytes::{
    spec_u16_from_le_bytes, spec_u16_to_le_bytes, spec_u32_from_le_bytes, spec_u32_to_le_bytes,
    spec_u64_from_le_bytes, spec_u64_to_le_bytes, u16_from_le_bytes, u16_to_le_bytes,
    u32_from_le_bytes, u32_to_le_bytes, u64_from_le_bytes, u64_to_le_bytes,
};
use vstd::slice::slice_subrange;

use crate::types::{Memory, MemoryAccess};

verus! {

/// The widths a byte-buffer access can carry.
pub open spec fn spec_width_ok(w: u32) -> bool {
    w == 1 || w == 2 || w == 4 || w == 8
}

/// An access fits when its whole span lies inside the buffer.
pub open spec fn spec_fits(len: int, addr: u32, w: u32) -> bool {
    &&& spec_width_ok(w)
    &&& addr + w <= len
}

/// The little-endian value of the `w` bytes at `addr`.
pub open spec fn spec_load_le(bytes: Seq<u8>, addr: int, w: u32) -> u64 {
    if w == 1 {
        bytes[addr] as u64
    } else if w == 2 {
        spec_u16_from_le_bytes(bytes.subrange(addr, addr + 2)) as u64
    } else if w == 4 {
        spec_u32_from_le_bytes(bytes.subrange(addr, addr + 4)) as u64
    } else {
        spec_u64_from_le_bytes(bytes.subrange(addr, addr + 8))
    }
}

/// The little-endian image of the low `w` bytes of `v`.
pub open spec fn spec_le_bytes(w: u32, v: u64) -> Seq<u8> {
    if w == 1 {
        seq![v as u8]
    } else if w == 2 {
        spec_u16_to_le_bytes(v as u16)
    } else if w == 4 {
        spec_u32_to_le_bytes(v as u32)
    } else {
        spec_u64_to_le_bytes(v)
    }
}

/// The buffer after the `w` bytes at `addr` are replaced by the
/// little-endian image of `v`.
pub open spec fn spec_store_le(bytes: Seq<u8>, addr: int, w: u32, v: u64) -> Seq<u8> {
    bytes.subrange(0, addr) + spec_le_bytes(w, v) + bytes.subrange(addr + w, bytes.len() as int)
}

/// Serve one access against a byte buffer: loads and instruction fetches
/// read the little-endian value in bounds, stores replace the addressed
/// bytes; anything out of bounds, and any unknown width, is refused.
pub fn byte_access(ram: &mut Vec<u8>, addr: u32, access: MemoryAccess) -> (r: Option<u64>)
    ensures
        (r is Some) == spec_fits(old(ram)@.len() as int, addr, access.width()),
        match access {
            MemoryAccess::Load(w) => final(ram)@ == old(ram)@ && (r matches Some(v) ==> v
                == spec_load_le(old(ram)@, addr as int, w)),
            MemoryAccess::Exec(w) => final(ram)@ == old(ram)@ && (r matches Some(v) ==> v
                == spec_load_le(old(ram)@, addr as int, w)),
            MemoryAccess::Store(w, v) => if r is Some {
                final(ram)@ == spec_store_le(old(ram)@, addr as int, w, v)
            } else {
                final(ram)@ == old(ram)@
            },
        },
{
    let w = match access {
        MemoryAccess::Load(w) => w,
        MemoryAccess::Store(w, _) => w,
        MemoryAccess::Exec(w) => w,
    };
    if !(w == 1 || w == 2 || w == 4 || w == 8) {
        return None;
    }
    let a = addr as usize;
    let len = ram.len();
    if a >= len || (w as usize) > len - a {
        return None;
    }
    match access {
        MemoryAccess::Load(_) | MemoryAccess::Exec(_) => Some(load_le(ram, a, w)),
        MemoryAccess::Store(_, v) => {
            store_le(ram, a, w, v);
            Some(0)
        },
    }
}

/// Read the little-endian value of the `w` bytes at `a`.
fn load_le(ram: &Vec<u8>, a: usize, w: u32) -> (r: u64)
    requires
        spec_width_ok(w),
        a + w <= ram@.len(),
    ensures
        r == spec_load_le(ram@, a as int, w),
{
    let len = ram.len();
    if w == 1 {
        ram[a] as u64
    } else if w == 2 {
        u16_from_le_bytes(slice_subrange(ram.as_slice(), a, a + 2)) as u64
    } else if w == 4 {
        u32_from_le_bytes(slice_subrange(ram.as_slice(), a, a + 4)) as u64
    } else {
        u64_from_le_bytes(slice_subrange(ram.as_slice(), a, a + 8))
    }
}

/// Replace the `w` bytes at `a` with the little-endian image of `v`.
fn store_le(ram: &mut Vec<u8>, a: usize, w: u32, v: u64)
    requires
        spec_width_ok(w),
        a + w <= old(ram)@.len(),
    ensures
        final(ram)@ == spec_store_le(old(ram)@, a as int, w, v),
{
    let bs: Vec<u8> = if w == 1 {
        let mut one: Vec<u8> = Vec::new();
        #[verifier::truncate]
        let b = v as u8;
        one.push(b);
        proof {
            assert(one@ =~= spec_le_bytes(1, v));
        }
        one
    } else if w == 2 {
        #[verifier::truncate]
        let h = v as u16;
        u16_to_le_bytes(h)
    } else if w == 4 {
        #[verifier::truncate]
        let q = v as u32;
        u32_to_le_bytes(q)
    } else {
        u64_to_le_bytes(v)
    };
    let len = ram.len();
    let mut i: usize = 0;
    while i < bs.len()
        invariant
            bs@ == spec_le_bytes(w, v),
            bs@.len() == w,
            a + w <= ram@.len(),
            ram@.len() <= usize::MAX,
            ram@.len() == old(ram)@.len(),
            i <= bs@.len(),
            forall|j: int| 0 <= j < i ==> ram@[a + j] == bs@[j],
            forall|j: int| 0 <= j < ram@.len() && !(a <= j < a + i) ==> ram@[j] == old(ram)@[j],
        decreases bs@.len() - i,
    {
        let b = bs[i];
        ram[a + i] = b;
        i = i + 1;
    }
    proof {
        assert(ram@ =~= spec_store_le(old(ram)@, a as int, w, v));
    }
}

impl Memory for Vec<u8> {
    fn access(&mut self, addr: u32, access: MemoryAccess) -> Option<u64> {
        byte_access(self, addr, access)
    }
}

} // verus!
