//! Suspending a CPU state to a neutral byte format.
//!
//! The format is fixed and little-endian: the thirty-two integer registers,
//! the thirty-two floating-point register patterns, `pc`, `fcsr`, then the
//! reservation as a presence byte followed by its address (zero when
//! absent). Encoding and decoding are proved to agree, so a state survives a
//! suspend/resume round trip bitwise.

use vstd::prelude::*;

use vstd::bytes::{
    spec_u32_from_le_bytes, spec_u32_to_le_bytes, spec_u64_from_le_bytes, spec_u64_to_le_bytes,
    u32_from_le_bytes, u32_to_le_bytes, u64_from_le_bytes, u64_to_le_bytes,
    lemma_auto_spec_u32_to_from_le_bytes, lemma_auto_spec_u64_to_from_le_bytes,
};
use vstd::slice::{slice_index_get, slice_subrange};

use crate::types::CpuState;

verus! {

/// The size of a serialized state: 32 integer registers, 32 floating-point
/// registers, `pc`, `fcsr`, the reservation presence byte and the
/// reservation address.
pub const STATE_BYTES: usize = 397;

/// A byte image is decodable when it has the exact length and a boolean
/// presence byte for the reservation.
pub open spec fn spec_ser_wf(bytes: Seq<u8>) -> bool {
    &&& bytes.len() == 397
    &&& (bytes[392] == 0u8 || bytes[392] == 1u8)
}

/// The byte image describes exactly this state.
pub open spec fn spec_state_matches(bytes: Seq<u8>, s: CpuState) -> bool {
    &&& bytes.len() == 397
    &&& forall|i: int|
        0 <= i < 32 ==> s.x@[i] == spec_u32_from_le_bytes(
            #[trigger] bytes.subrange(4 * i, 4 * i + 4),
        )
    &&& forall|i: int|
        0 <= i < 32 ==> s.f@[i] == spec_u64_from_le_bytes(
            #[trigger] bytes.subrange(128 + 8 * i, 128 + 8 * i + 8),
        )
    &&& s.pc == spec_u32_from_le_bytes(bytes.subrange(384, 388))
    &&& s.fcsr == spec_u32_from_le_bytes(bytes.subrange(388, 392))
    &&& match s.reservation {
        Some(a) => bytes[392] == 1u8 && a == spec_u32_from_le_bytes(bytes.subrange(393, 397)),
        None => bytes[392] == 0u8,
    }
}

/// Serialization is lossless: a byte image describes at most one state, so
/// decoding what the encoder wrote always yields the original state back.
pub proof fn lemma_state_bytes_unique(bytes: Seq<u8>, s: CpuState, t: CpuState)
    requires
        spec_state_matches(bytes, s),
        spec_state_matches(bytes, t),
        s.x@.len() == 32,
        t.x@.len() == 32,
        s.f@.len() == 32,
        t.f@.len() == 32,
    ensures
        s == t,
{
    broadcast use vstd::array::group_array_axioms;

    assert forall|i: int| 0 <= i < 32 implies s.x@[i] == t.x@[i] by {
        assert(s.x@[i] == spec_u32_from_le_bytes(bytes.subrange(4 * i, 4 * i + 4)));
    }
    assert forall|i: int| 0 <= i < 32 implies s.f@[i] == t.f@[i] by {
        assert(s.f@[i] == spec_u64_from_le_bytes(bytes.subrange(128 + 8 * i, 128 + 8 * i + 8)));
    }
    assert(s.x@ =~= t.x@);
    assert(s.f@ =~= t.f@);
    assert(s.x =~= t.x);
    assert(s.f =~= t.f);
    assert(s.reservation == t.reservation);
}

impl CpuState {
    /// Encode the state into its byte image.
    pub fn to_bytes(&self) -> (out: Vec<u8>)
        ensures
            out@.len() == 397,
            spec_state_matches(out@, *self),
            spec_ser_wf(out@),
    {
        proof {
            lemma_auto_spec_u32_to_from_le_bytes();
            lemma_auto_spec_u64_to_from_le_bytes();
        }
        let mut out: Vec<u8> = Vec::new();
        let mut i: usize = 0;
        while i < 32
            invariant
                i <= 32,
                out@.len() == 4 * i,
                forall|j: int|
                    0 <= j < i ==> #[trigger] out@.subrange(4 * j, 4 * j + 4)
                        == spec_u32_to_le_bytes(self.x@[j]),
            decreases 32 - i,
        {
            let ghost out0 = out@;
            let mut bs = u32_to_le_bytes(self.x[i]);
            out.append(&mut bs);
            proof {
                assert forall|j: int| 0 <= j < i + 1 implies #[trigger] out@.subrange(
                    4 * j,
                    4 * j + 4,
                ) == spec_u32_to_le_bytes(self.x@[j]) by {
                    if j < i {
                        assert(out@.subrange(4 * j, 4 * j + 4) =~= out0.subrange(4 * j, 4 * j + 4));
                    } else {
                        assert(out@.subrange(4 * j, 4 * j + 4) =~= spec_u32_to_le_bytes(
                            self.x@[j],
                        ));
                    }
                }
            }
            i = i + 1;
        }
        let mut i: usize = 0;
        while i < 32
            invariant
                i <= 32,
                out@.len() == 128 + 8 * i,
                forall|j: int|
                    0 <= j < 32 ==> #[trigger] out@.subrange(4 * j, 4 * j + 4)
                        == spec_u32_to_le_bytes(self.x@[j]),
                forall|j: int|
                    0 <= j < i ==> #[trigger] out@.subrange(128 + 8 * j, 128 + 8 * j + 8)
                        == spec_u64_to_le_bytes(self.f@[j]),
            decreases 32 - i,
        {
            let ghost out0 = out@;
            let mut bs = u64_to_le_bytes(self.f[i]);
            out.append(&mut bs);
            proof {
                assert forall|j: int| 0 <= j < 32 implies #[trigger] out@.subrange(
                    4 * j,
                    4 * j + 4,
                ) == spec_u32_to_le_bytes(self.x@[j]) by {
                    assert(out@.subrange(4 * j, 4 * j + 4) =~= out0.subrange(4 * j, 4 * j + 4));
                }
                assert forall|j: int| 0 <= j < i + 1 implies #[trigger] out@.subrange(
                    128 + 8 * j,
                    128 + 8 * j + 8,
                ) == spec_u64_to_le_bytes(self.f@[j]) by {
                    if j < i {
                        assert(out@.subrange(128 + 8 * j, 128 + 8 * j + 8) =~= out0.subrange(
                            128 + 8 * j,
                            128 + 8 * j + 8,
                        ));
                    } else {
                        assert(out@.subrange(128 + 8 * j, 128 + 8 * j + 8) =~= spec_u64_to_le_bytes(
                            self.f@[j],
                        ));
                    }
                }
            }
            i = i + 1;
        }
        let ghost out_regs = out@;
        let mut bs = u32_to_le_bytes(self.pc);
        out.append(&mut bs);
        let mut bs = u32_to_le_bytes(self.fcsr);
        out.append(&mut bs);
        let (tag, resval) = match self.reservation {
            Some(a) => (1u8, a),
            None => (0u8, 0u32),
        };
        out.push(tag);
        let mut bs = u32_to_le_bytes(resval);
        out.append(&mut bs);
        proof {
            assert forall|j: int| 0 <= j < 32 implies #[trigger] out@.subrange(4 * j, 4 * j + 4)
                == spec_u32_to_le_bytes(self.x@[j]) by {
                assert(out@.subrange(4 * j, 4 * j + 4) =~= out_regs.subrange(4 * j, 4 * j + 4));
            }
            assert forall|j: int| 0 <= j < 32 implies #[trigger] out@.subrange(
                128 + 8 * j,
                128 + 8 * j + 8,
            ) == spec_u64_to_le_bytes(self.f@[j]) by {
                assert(out@.subrange(128 + 8 * j, 128 + 8 * j + 8) =~= out_regs.subrange(
                    128 + 8 * j,
                    128 + 8 * j + 8,
                ));
            }
            assert(out@.subrange(384, 388) =~= spec_u32_to_le_bytes(self.pc));
            assert(out@.subrange(388, 392) =~= spec_u32_to_le_bytes(self.fcsr));
            assert(out@.subrange(393, 397) =~= spec_u32_to_le_bytes(
                match self.reservation {
                    Some(a) => a,
                    None => 0u32,
                },
            ));
            assert forall|i: int| 0 <= i < 32 implies self.x@[i] == spec_u32_from_le_bytes(
                #[trigger] out@.subrange(4 * i, 4 * i + 4),
            ) by {
                assert(spec_u32_to_le_bytes(self.x@[i]).len() == 4);
            }
            assert forall|i: int| 0 <= i < 32 implies self.f@[i] == spec_u64_from_le_bytes(
                #[trigger] out@.subrange(128 + 8 * i, 128 + 8 * i + 8),
            ) by {
                assert(spec_u64_to_le_bytes(self.f@[i]).len() == 8);
            }
            assert(spec_u32_to_le_bytes(self.pc).len() == 4);
            assert(spec_u32_to_le_bytes(self.fcsr).len() == 4);
            assert(spec_u32_to_le_bytes(
                match self.reservation {
                    Some(a) => a,
                    None => 0u32,
                },
            ).len() == 4);
        }
        out
    }

    /// Decode a byte image back into a state. `None` when the image has the
    /// wrong length or a presence byte that is neither 0 nor 1.
    pub fn from_bytes(bytes: &[u8]) -> (r: Option<CpuState>)
        ensures
            (r is Some) == spec_ser_wf(bytes@),
            r matches Some(s) ==> spec_state_matches(bytes@, s),
    {
        if bytes.len() != STATE_BYTES {
            return None;
        }
        let tag = *slice_index_get(bytes, 392);
        if tag != 0 && tag != 1 {
            return None;
        }
        let mut x: [u32; 32] = [0; 32];
        let mut i: usize = 0;
        while i < 32
            invariant
                i <= 32,
                bytes@.len() == 397,
                forall|j: int|
                    0 <= j < i ==> x@[j] == spec_u32_from_le_bytes(
                        #[trigger] bytes@.subrange(4 * j, 4 * j + 4),
                    ),
            decreases 32 - i,
        {
            let v = u32_from_le_bytes(slice_subrange(bytes, 4 * i, 4 * i + 4));
            x[i] = v;
            i = i + 1;
        }
        let mut f: [u64; 32] = [0; 32];
        let mut i: usize = 0;
        while i < 32
            invariant
                i <= 32,
                bytes@.len() == 397,
                forall|j: int|
                    0 <= j < i ==> f@[j] == spec_u64_from_le_bytes(
                        #[trigger] bytes@.subrange(128 + 8 * j, 128 + 8 * j + 8),
                    ),
            decreases 32 - i,
        {
            let v = u64_from_le_bytes(slice_subrange(bytes, 128 + 8 * i, 128 + 8 * i + 8));
            f[i] = v;
            i = i + 1;
        }
        let pc = u32_from_le_bytes(slice_subrange(bytes, 384, 388));
        let fcsr = u32_from_le_bytes(slice_subrange(bytes, 388, 392));
        let reservation = if tag == 1 {
            Some(u32_from_le_bytes(slice_subrange(bytes, 393, 397)))
        } else {
            None
        };
        Some(CpuState { x, f, pc, fcsr, reservation })
    }
}

} // verus!
