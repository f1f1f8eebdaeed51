//! The control-status register plane.
//!
//! The interpreter recognizes the three floating-point control aliases
//! (`fflags`, `frm`, `fcsr`) and the six read-only performance counters
//! split into low/high halves. Writes to counters are silently ignored;
//! any other index fails and the CSR instruction stops with
//! `IllegalInstruction`, leaving the state untouched.

use vstd::prelude::*;

use crate::fp::Fpu;
use crate::interp::{spec_wx, Interp};
use crate::types::{Clock, CpuError, CpuState, Memory};

verus! {

/// The CSR indices this interpreter serves.
pub open spec fn spec_csr_supported(id: u32) -> bool {
    ||| id == 0x001
    ||| id == 0x002
    ||| id == 0x003
    ||| id == 0xC00
    ||| id == 0xC80
    ||| id == 0xC01
    ||| id == 0xC81
    ||| id == 0xC02
    ||| id == 0xC82
}

/// The three floating-point control aliases, whose reads are a pure
/// function of `fcsr`.
pub open spec fn spec_csr_is_fp(id: u32) -> bool {
    id == 0x001 || id == 0x002 || id == 0x003
}

/// What a read of a floating-point control alias returns.
pub open spec fn spec_csr_read_fp(fcsr: u32, id: u32) -> u32 {
    if id == 0x001 {
        fcsr & 0x1f
    } else if id == 0x002 {
        (fcsr & 0xe0) >> 5
    } else {
        fcsr & 0xff
    }
}

/// The `fcsr` value after a CSR write: the floating-point aliases replace
/// their slice of `fcsr`, every other supported index ignores the write.
pub open spec fn spec_csr_write(fcsr: u32, id: u32, v: u32) -> u32 {
    if id == 0x001 {
        (fcsr & 0xffff_ffe0) | (v & 0x1f)
    } else if id == 0x002 {
        (fcsr & 0xffff_ff1f) | ((v & 0x7) << 5)
    } else if id == 0x003 {
        (fcsr & 0xffff_ff00) | (v & 0xff)
    } else {
        fcsr
    }
}

/// A CSR write keeps `fcsr` inside its architectural eight bits.
pub proof fn lemma_csr_write_wf(fcsr: u32, v: u32)
    ensures
        fcsr < 0x100 ==> (fcsr & 0xffff_ffe0) | (v & 0x1f) < 0x100,
        fcsr < 0x100 ==> (fcsr & 0xffff_ff1f) | ((v & 0x7) << 5) < 0x100,
        fcsr < 0x100 ==> (fcsr & 0xffff_ff00) | (v & 0xff) < 0x100,
{
    assert((fcsr < 0x100 ==> (fcsr & 0xffff_ffe0) | (v & 0x1f) < 0x100) && (fcsr < 0x100 ==> (fcsr
        & 0xffff_ff1f) | ((v & 0x7) << 5) < 0x100) && (fcsr < 0x100 ==> (fcsr & 0xffff_ff00) | (v
        & 0xff) < 0x100)) by (bit_vector);
}

/// Reading `fcsr` and writing the value straight back leaves `fcsr`
/// unchanged; the same holds for the `fflags` alias.
pub proof fn lemma_csr_read_write_identity(fcsr: u32)
    requires
        fcsr < 0x100,
    ensures
        spec_csr_write(fcsr, 0x003, spec_csr_read_fp(fcsr, 0x003)) == fcsr,
        spec_csr_write(fcsr, 0x001, spec_csr_read_fp(fcsr, 0x001)) == fcsr,
{
    assert(fcsr < 0x100 ==> ((fcsr & 0xffff_ff00) | ((fcsr & 0xff) & 0xff) == fcsr && (fcsr
        & 0xffff_ffe0) | ((fcsr & 0x1f) & 0x1f) == fcsr)) by (bit_vector);
}

impl<M: Memory, C: Clock, F: Fpu> Interp<M, C, F> {
    /// Read a CSR. `None` means the index is not recognized. Reads of the
    /// floating-point aliases are a pure function of `fcsr`; counter reads
    /// come from the clock.
    pub(crate) fn read_csr(&self, id: u32) -> (r: Option<u32>)
        ensures
            (r is Some) == spec_csr_supported(id),
            spec_csr_is_fp(id) ==> r == Some(spec_csr_read_fp(self.state.fcsr, id)),
    {
        match id {
            0x001 => Some(self.state.fcsr & 0x1f),
            0x002 => Some((self.state.fcsr & 0xe0) >> 5),
            0x003 => Some(self.state.fcsr & 0xff),
            0xC00 => Some(#[verifier::truncate] (self.clock.read_cycle() as u32)),
            0xC80 => Some(#[verifier::truncate] ((self.clock.read_cycle() >> 32u32) as u32)),
            0xC01 => Some(#[verifier::truncate] (self.clock.read_time() as u32)),
            0xC81 => Some(#[verifier::truncate] ((self.clock.read_time() >> 32u32) as u32)),
            0xC02 => Some(#[verifier::truncate] (self.clock.read_instret() as u32)),
            0xC82 => Some(#[verifier::truncate] ((self.clock.read_instret() >> 32u32) as u32)),
            _ => None,
        }
    }

    /// Write a CSR. `false` means the index is not recognized and nothing
    /// was written; counter writes succeed without effect.
    pub(crate) fn write_csr(&mut self, id: u32, v: u32) -> (ok: bool)
        ensures
            ok == spec_csr_supported(id),
            *final(self) == (Self {
                state: CpuState {
                    fcsr: spec_csr_write(old(self).state.fcsr, id, v),
                    ..old(self).state
                },
                ..*old(self)
            }),
            old(self).state.fcsr < 0x100 ==> final(self).state.fcsr < 0x100,
    {
        proof {
            lemma_csr_write_wf(self.state.fcsr, v);
        }
        match id {
            0x001 => {
                self.state.fcsr = (self.state.fcsr & 0xffff_ffe0) | (v & 0x1f);
                true
            },
            0x002 => {
                self.state.fcsr = (self.state.fcsr & 0xffff_ff1f) | ((v & 0x7) << 5u32);
                true
            },
            0x003 => {
                self.state.fcsr = (self.state.fcsr & 0xffff_ff00) | (v & 0xff);
                true
            },
            0xC00 | 0xC80 | 0xC01 | 0xC81 | 0xC02 | 0xC82 => true,
            _ => false,
        }
    }

    /// The shape shared by the register-operand CSR instructions: an
    /// unrecognized index stops with `IllegalInstruction` and no effect;
    /// otherwise `rd` takes the old CSR value (exactly `read_fp` for the
    /// floating-point aliases), and when `wrote` holds, the CSR takes
    /// `wv_of(old value)`.
    pub open spec fn csr_done(
        pre: Self,
        post: Self,
        r: Result<(), CpuError>,
        id: u32,
        rd: int,
        wrote: bool,
        wv_of: spec_fn(u32) -> u32,
    ) -> bool {
        &&& post.env_unchanged(pre)
        &&& post.state.f == pre.state.f
        &&& post.state.reservation == pre.state.reservation
        &&& (pre.state.fcsr < 0x100 ==> post.state.fcsr < 0x100)
        &&& if !spec_csr_supported(id) {
            r == Err::<(), CpuError>(CpuError::IllegalInstruction) && post == pre
        } else {
            &&& r is Ok
            &&& post.state.pc == pre.state.pc.wrapping_add(pre.instsz)
            &&& exists|oldv: u32|
                {
                    &&& #[trigger] spec_wx(pre.state.x@, rd, oldv) == post.state.x@
                    &&& (spec_csr_is_fp(id) ==> oldv == spec_csr_read_fp(pre.state.fcsr, id))
                    &&& post.state.fcsr == if wrote {
                        spec_csr_write(pre.state.fcsr, id, wv_of(oldv))
                    } else {
                        pre.state.fcsr
                    }
                }
        }
    }

    /// CSR read-and-write. The read is skipped (and its value not written)
    /// when `rd` is register zero.
    pub fn csrrw(&mut self, rd: usize, rs1: usize, csr: u32) -> (r: Result<(), CpuError>)
        requires
            rd < 32,
            rs1 < 32,
        ensures
            Self::csr_done(
                *old(self),
                *final(self),
                r,
                csr,
                rd as int,
                true,
                |oldv: u32| old(self).state.x@[rs1 as int],
            ),
    {
        let new = self.state.x[rs1];
        let ghost pre = *self;
        if rd != 0 {
            let oldv = match self.read_csr(csr) {
                Some(v) => v,
                None => {
                    return Err(CpuError::IllegalInstruction);
                },
            };
            self.write_rd(rd, oldv);
            let _ = self.write_csr(csr, new);
            proof {
                assert(spec_wx(pre.state.x@, rd as int, oldv) == self.state.x@);
            }
            self.advance_pc();
            Ok(())
        } else {
            if !self.write_csr(csr, new) {
                return Err(CpuError::IllegalInstruction);
            }
            proof {
                assert(spec_wx(pre.state.x@, rd as int, 0u32) == self.state.x@);
                assert(spec_wx(pre.state.x@, rd as int, spec_csr_read_fp(pre.state.fcsr, csr))
                    == self.state.x@);
            }
            self.advance_pc();
            Ok(())
        }
    }

    /// CSR read-and-set. The write is skipped when the mask source is
    /// register zero, preserving read-only semantics for the counters.
    pub fn csrrs(&mut self, rd: usize, rs1: usize, csr: u32) -> (r: Result<(), CpuError>)
        requires
            rd < 32,
            rs1 < 32,
        ensures
            Self::csr_done(
                *old(self),
                *final(self),
                r,
                csr,
                rd as int,
                rs1 != 0,
                |oldv: u32| oldv | old(self).state.x@[rs1 as int],
            ),
    {
        let mask = self.state.x[rs1];
        let ghost pre = *self;
        let oldv = match self.read_csr(csr) {
            Some(v) => v,
            None => {
                return Err(CpuError::IllegalInstruction);
            },
        };
        self.write_rd(rd, oldv);
        if rs1 != 0 {
            let _ = self.write_csr(csr, oldv | mask);
        }
        proof {
            assert(spec_wx(pre.state.x@, rd as int, oldv) == self.state.x@);
        }
        self.advance_pc();
        Ok(())
    }

    /// CSR read-and-clear. The write is skipped when the mask source is
    /// register zero.
    pub fn csrrc(&mut self, rd: usize, rs1: usize, csr: u32) -> (r: Result<(), CpuError>)
        requires
            rd < 32,
            rs1 < 32,
        ensures
            Self::csr_done(
                *old(self),
                *final(self),
                r,
                csr,
                rd as int,
                rs1 != 0,
                |oldv: u32| oldv & !old(self).state.x@[rs1 as int],
            ),
    {
        let mask = self.state.x[rs1];
        let ghost pre = *self;
        let oldv = match self.read_csr(csr) {
            Some(v) => v,
            None => {
                return Err(CpuError::IllegalInstruction);
            },
        };
        self.write_rd(rd, oldv);
        if rs1 != 0 {
            let _ = self.write_csr(csr, oldv & !mask);
        }
        proof {
            assert(spec_wx(pre.state.x@, rd as int, oldv) == self.state.x@);
        }
        self.advance_pc();
        Ok(())
    }

    /// CSR read-and-write with an immediate mask. The read is skipped when
    /// `rd` is register zero.
    pub fn csrrwi(&mut self, rd: usize, zimm: u32, csr: u32) -> (r: Result<(), CpuError>)
        requires
            rd < 32,
        ensures
            Self::csr_done(*old(self), *final(self), r, csr, rd as int, true, |oldv: u32| zimm),
    {
        let ghost pre = *self;
        if rd != 0 {
            let oldv = match self.read_csr(csr) {
                Some(v) => v,
                None => {
                    return Err(CpuError::IllegalInstruction);
                },
            };
            self.write_rd(rd, oldv);
            let _ = self.write_csr(csr, zimm);
            proof {
                assert(spec_wx(pre.state.x@, rd as int, oldv) == self.state.x@);
            }
            self.advance_pc();
            Ok(())
        } else {
            if !self.write_csr(csr, zimm) {
                return Err(CpuError::IllegalInstruction);
            }
            proof {
                assert(spec_wx(pre.state.x@, rd as int, spec_csr_read_fp(pre.state.fcsr, csr))
                    == self.state.x@);
            }
            self.advance_pc();
            Ok(())
        }
    }

    /// CSR read-and-set with an immediate mask. The write is skipped when
    /// the immediate is zero.
    pub fn csrrsi(&mut self, rd: usize, zimm: u32, csr: u32) -> (r: Result<(), CpuError>)
        requires
            rd < 32,
        ensures
            Self::csr_done(
                *old(self),
                *final(self),
                r,
                csr,
                rd as int,
                zimm != 0,
                |oldv: u32| oldv | zimm,
            ),
    {
        let ghost pre = *self;
        let oldv = match self.read_csr(csr) {
            Some(v) => v,
            None => {
                return Err(CpuError::IllegalInstruction);
            },
        };
        self.write_rd(rd, oldv);
        if zimm != 0 {
            let _ = self.write_csr(csr, oldv | zimm);
        }
        proof {
            assert(spec_wx(pre.state.x@, rd as int, oldv) == self.state.x@);
        }
        self.advance_pc();
        Ok(())
    }

    /// CSR read-and-clear with an immediate mask. The write is skipped when
    /// the immediate is zero.
    pub fn csrrci(&mut self, rd: usize, zimm: u32, csr: u32) -> (r: Result<(), CpuError>)
        requires
            rd < 32,
        ensures
            Self::csr_done(
                *old(self),
                *final(self),
                r,
                csr,
                rd as int,
                zimm != 0,
                |oldv: u32| oldv & !zimm,
            ),
    {
        let ghost pre = *self;
        let oldv = match self.read_csr(csr) {
            Some(v) => v,
            None => {
                return Err(CpuError::IllegalInstruction);
            },
        };
        self.write_rd(rd, oldv);
        if zimm != 0 {
            let _ = self.write_csr(csr, oldv & !zimm);
        }
        proof {
            assert(spec_wx(pre.state.x@, rd as int, oldv) == self.state.x@);
        }
        self.advance_pc();
        Ok(())
    }
}

} // verus!
