//! Execution handlers for the "F" single-precision floating-point
//! extension, and the rounding-mode and exception-flag plumbing shared with
//! the double-precision handlers.
//!
//! Around every rounding computation the interpreter resolves the rounding
//! mode (the reserved encodings stop with `IllegalInstruction` before
//! anything is computed; the dynamic encoding reads `fcsr[7:5]`), hands the
//! operand patterns to the [`Fpu`], and accrues the returned exception flags
//! into `fcsr[4:0]`. Everything that needs no rounding — loads, stores,
//! moves, sign injection, comparison, classification, min/max — is computed
//! here, bit-exactly.

use vstd::prelude::*;

use crate::fp::{
    classify32, feq32, fle32, flt32, fminmax32, is_nan32, is_snan32, nan_box, spec_classify32,
    spec_feq32, spec_fle32, spec_flt32, spec_fminmax32, spec_is_nan32, spec_is_snan32,
    is_nan64, spec_is_nan64, spec_nan_box, spec_unbox32, unbox32, Fpu, CANONICAL_NAN32,
    CANONICAL_NAN64, FLAG_INVALID,
};
use crate::interp::{spec_wx, Interp};
use crate::types::{Clock, CpuError, CpuState, Memory, MemoryAccess};

verus! {

/// The accrued exception flags after an operation raised `flags`: the five
/// flag bits are ORed into `fcsr[4:0]`.
pub open spec fn spec_accrue(fcsr: u32, flags: u32) -> u32 {
    fcsr | (flags & 0x1f)
}

/// The rounding mode a computation runs under: the instruction's own field,
/// unless it names the dynamic mode, which reads `fcsr[7:5]`; the two
/// reserved encodings resolve to nothing and trap.
pub open spec fn spec_resolve_rm(fcsr: u32, rm: u32) -> Option<u32> {
    if rm == 5 || rm == 6 {
        None
    } else if rm == 7 {
        Some((fcsr & 0xe0) >> 5)
    } else {
        Some(rm)
    }
}

/// Accruing flags keeps `fcsr` inside its architectural eight bits.
pub proof fn lemma_accrue_wf(fcsr: u32, flags: u32)
    ensures
        fcsr < 0x100 ==> spec_accrue(fcsr, flags) < 0x100,
{
    assert(fcsr < 0x100 ==> (fcsr | (flags & 0x1f)) < 0x100) by (bit_vector);
}

/// Accruing no flags leaves `fcsr` as it was.
pub proof fn lemma_accrue_zero(fcsr: u32)
    ensures
        spec_accrue(fcsr, 0) == fcsr,
{
    assert(fcsr | (0u32 & 0x1f) == fcsr) by (bit_vector);
}

impl<M: Memory, C: Clock, F: Fpu> Interp<M, C, F> {
    /// The shape shared by the rounding computations that land in an `f`
    /// register, single precision: either the instruction stops with
    /// `IllegalInstruction` and no effect (always, for a reserved rounding
    /// mode, or when the unit lacks the operation), or `rd` takes a boxed
    /// result and the flags accrue.
    pub open spec fn fp_round_f32(
        pre: Self,
        post: Self,
        r: Result<(), CpuError>,
        rd: int,
        rm: u32,
    ) -> bool {
        &&& post.env_unchanged_but_fpu(pre)
        &&& post.state.x == pre.state.x
        &&& post.state.reservation == pre.state.reservation
        &&& (pre.state.fcsr < 0x100 ==> post.state.fcsr < 0x100)
        &&& ((rm == 5 || rm == 6) ==> r is Err)
        &&& match r {
            Ok(_) => {
                &&& spec_resolve_rm(pre.state.fcsr, rm) is Some
                &&& post.state.pc == pre.state.pc.wrapping_add(pre.instsz)
                &&& exists|bits: u32|
                    post.state.f@ == pre.state.f@.update(rd, #[trigger] spec_nan_box(bits))
                &&& exists|fl: u32| post.state.fcsr == #[trigger] spec_accrue(pre.state.fcsr, fl)
            },
            Err(e) => {
                &&& e == CpuError::IllegalInstruction
                &&& post.state == pre.state
            },
        }
    }

    /// As `fp_round_f32`, for results landing in an `f` register raw
    /// (double precision).
    pub open spec fn fp_round_f64(
        pre: Self,
        post: Self,
        r: Result<(), CpuError>,
        rd: int,
        rm: u32,
    ) -> bool {
        &&& post.env_unchanged_but_fpu(pre)
        &&& post.state.x == pre.state.x
        &&& post.state.reservation == pre.state.reservation
        &&& (pre.state.fcsr < 0x100 ==> post.state.fcsr < 0x100)
        &&& ((rm == 5 || rm == 6) ==> r is Err)
        &&& match r {
            Ok(_) => {
                &&& spec_resolve_rm(pre.state.fcsr, rm) is Some
                &&& post.state.pc == pre.state.pc.wrapping_add(pre.instsz)
                &&& exists|bits: u64| post.state.f@ == #[trigger] pre.state.f@.update(rd, bits)
                &&& exists|fl: u32| post.state.fcsr == #[trigger] spec_accrue(pre.state.fcsr, fl)
            },
            Err(e) => {
                &&& e == CpuError::IllegalInstruction
                &&& post.state == pre.state
            },
        }
    }

    /// As `fp_round_f32`, for results landing in an integer register (the
    /// float-to-integer conversions).
    pub open spec fn fp_round_x(
        pre: Self,
        post: Self,
        r: Result<(), CpuError>,
        rd: int,
        rm: u32,
    ) -> bool {
        &&& post.env_unchanged_but_fpu(pre)
        &&& post.state.f == pre.state.f
        &&& post.state.reservation == pre.state.reservation
        &&& (pre.state.fcsr < 0x100 ==> post.state.fcsr < 0x100)
        &&& ((rm == 5 || rm == 6) ==> r is Err)
        &&& match r {
            Ok(_) => {
                &&& spec_resolve_rm(pre.state.fcsr, rm) is Some
                &&& post.state.pc == pre.state.pc.wrapping_add(pre.instsz)
                &&& exists|v: u32| post.state.x@ == #[trigger] spec_wx(pre.state.x@, rd, v)
                &&& exists|fl: u32| post.state.fcsr == #[trigger] spec_accrue(pre.state.fcsr, fl)
            },
            Err(e) => {
                &&& e == CpuError::IllegalInstruction
                &&& post.state == pre.state
            },
        }
    }

    /// The shape shared by the floating-point loads: as an integer load, but
    /// landing in an `f` register.
    pub open spec fn loaded_f(pre: Self, post: Self, r: Result<(), CpuError>, rd: int) -> bool {
        &&& post.env_unchanged_but_mem(pre)
        &&& post.state.x == pre.state.x
        &&& post.state.fcsr == pre.state.fcsr
        &&& post.state.reservation == pre.state.reservation
        &&& post.state.pc == pre.state.pc.wrapping_add(pre.instsz)
        &&& match r {
            Ok(_) => exists|v: u64| post.state.f@ == #[trigger] pre.state.f@.update(rd, v),
            Err(e) => e == CpuError::IllegalAccess && post.state.f == pre.state.f,
        }
    }

    /// Resolve the rounding mode field against the dynamic mode in `fcsr`.
    pub(crate) fn resolve_rm(&self, rm: u32) -> (r: Option<u32>)
        ensures
            r == spec_resolve_rm(self.state.fcsr, rm),
    {
        if rm == 5 || rm == 6 {
            None
        } else if rm == 7 {
            Some((self.state.fcsr & 0xe0) >> 5)
        } else {
            Some(rm)
        }
    }

    /// Accrue exception flags into `fcsr[4:0]`.
    pub(crate) fn accrue_flags(&mut self, flags: u32)
        ensures
            final(self).state.fcsr == spec_accrue(old(self).state.fcsr, flags),
            *final(self) == (Self {
                state: CpuState { fcsr: final(self).state.fcsr, ..old(self).state },
                ..*old(self)
            }),
            old(self).state.fcsr < 0x100 ==> final(self).state.fcsr < 0x100,
    {
        proof {
            lemma_accrue_wf(self.state.fcsr, flags);
        }
        self.state.fcsr = self.state.fcsr | (flags & 0x1f);
    }

    /// Commit a boxed single-precision result: write `f[rd]`, accrue the
    /// flags, advance.
    pub(crate) fn commit_f32(&mut self, rd: usize, bits: u32, flags: u32)
        requires
            rd < 32,
        ensures
            final(self).state.f@ == old(self).state.f@.update(rd as int, spec_nan_box(bits)),
            final(self).state.fcsr == spec_accrue(old(self).state.fcsr, flags),
            final(self).state.pc == old(self).state.pc.wrapping_add(old(self).instsz),
            *final(self) == (Self {
                state: CpuState {
                    f: final(self).state.f,
                    fcsr: final(self).state.fcsr,
                    pc: final(self).state.pc,
                    ..old(self).state
                },
                ..*old(self)
            }),
            old(self).state.fcsr < 0x100 ==> final(self).state.fcsr < 0x100,
    {
        let boxed = nan_box(bits);
        self.state.f[rd] = boxed;
        self.accrue_flags(flags);
        self.advance_pc();
    }

    /// Commit a raw double-precision result: write `f[rd]`, accrue the
    /// flags, advance.
    pub(crate) fn commit_f64(&mut self, rd: usize, bits: u64, flags: u32)
        requires
            rd < 32,
        ensures
            final(self).state.f@ == old(self).state.f@.update(rd as int, bits),
            final(self).state.fcsr == spec_accrue(old(self).state.fcsr, flags),
            final(self).state.pc == old(self).state.pc.wrapping_add(old(self).instsz),
            *final(self) == (Self {
                state: CpuState {
                    f: final(self).state.f,
                    fcsr: final(self).state.fcsr,
                    pc: final(self).state.pc,
                    ..old(self).state
                },
                ..*old(self)
            }),
            old(self).state.fcsr < 0x100 ==> final(self).state.fcsr < 0x100,
    {
        self.state.f[rd] = bits;
        self.accrue_flags(flags);
        self.advance_pc();
    }

    /// Commit an integer result with flags: write `rd`, accrue, advance.
    pub(crate) fn commit_x32(&mut self, rd: usize, v: u32, flags: u32)
        requires
            rd < 32,
        ensures
            final(self).state.x@ == spec_wx(old(self).state.x@, rd as int, v),
            final(self).state.fcsr == spec_accrue(old(self).state.fcsr, flags),
            final(self).state.pc == old(self).state.pc.wrapping_add(old(self).instsz),
            *final(self) == (Self {
                state: CpuState {
                    x: final(self).state.x,
                    fcsr: final(self).state.fcsr,
                    pc: final(self).state.pc,
                    ..old(self).state
                },
                ..*old(self)
            }),
            old(self).state.fcsr < 0x100 ==> final(self).state.fcsr < 0x100,
    {
        self.write_rd(rd, v);
        self.accrue_flags(flags);
        self.advance_pc();
    }

    /// Load a single-precision value, NaN-boxing it into `f[rd]`.
    pub fn flw(&mut self, rd: usize, rs1: usize, i_imm: i32) -> (r: Result<(), CpuError>)
        requires
            rd < 32,
            rs1 < 32,
        ensures
            Self::loaded_f(*old(self), *final(self), r, rd as int),
            r is Ok ==> exists|w: u32|
                final(self).state.f@ == old(self).state.f@.update(
                    rd as int,
                    #[trigger] spec_nan_box(w),
                ),
    {
        let addr = self.state.x[rs1].wrapping_add(i_imm as u32);
        match self.mem.access(addr, MemoryAccess::Load(4)) {
            Some(v) => {
                #[verifier::truncate]
                let w = v as u32;
                let boxed = nan_box(w);
                self.state.f[rd] = boxed;
                proof {
                    assert(self.state.f@ == old(self).state.f@.update(
                        rd as int,
                        spec_nan_box(w),
                    ));
                }
                self.advance_pc();
                Ok(())
            },
            None => {
                self.advance_pc();
                Err(CpuError::IllegalAccess)
            },
        }
    }

    /// Store the single-precision value in `f[rs2]`.
    pub fn fsw(&mut self, rs1: usize, rs2: usize, s_imm: i32) -> (r: Result<(), CpuError>)
        requires
            rs1 < 32,
            rs2 < 32,
        ensures
            Self::stored(*old(self), *final(self), r),
    {
        let addr = self.state.x[rs1].wrapping_add(s_imm as u32);
        let value = unbox32(self.state.f[rs2]);
        let ok = self.mem.access(addr, MemoryAccess::Store(4, value as u64));
        self.advance_pc();
        match ok {
            Some(_) => Ok(()),
            None => Err(CpuError::IllegalAccess),
        }
    }

    /// Fused multiply-add, single precision.
    pub fn fmadd_s(&mut self, rd: usize, rs1: usize, rs2: usize, rs3: usize, rm: u32) -> (r:
        Result<(), CpuError>)
        requires
            rd < 32,
            rs1 < 32,
            rs2 < 32,
            rs3 < 32,
        ensures
            Self::fp_round_f32(*old(self), *final(self), r, rd as int, rm),
    {
        let rmv = match self.resolve_rm(rm) {
            Some(v) => v,
            None => {
                return Err(CpuError::IllegalInstruction);
            },
        };
        let a = unbox32(self.state.f[rs1]);
        let b = unbox32(self.state.f[rs2]);
        let c = unbox32(self.state.f[rs3]);
        match self.fpu.f32_mul_add(rmv, a, b, c) {
            Some((bits, fl)) => {
                self.commit_f32(rd, bits, fl);
                Ok(())
            },
            None => Err(CpuError::IllegalInstruction),
        }
    }

    /// Fused multiply-subtract, single precision.
    pub fn fmsub_s(&mut self, rd: usize, rs1: usize, rs2: usize, rs3: usize, rm: u32) -> (r:
        Result<(), CpuError>)
        requires
            rd < 32,
            rs1 < 32,
            rs2 < 32,
            rs3 < 32,
        ensures
            Self::fp_round_f32(*old(self), *final(self), r, rd as int, rm),
    {
        let rmv = match self.resolve_rm(rm) {
            Some(v) => v,
            None => {
                return Err(CpuError::IllegalInstruction);
            },
        };
        let a = unbox32(self.state.f[rs1]);
        let b = unbox32(self.state.f[rs2]);
        let c = unbox32(self.state.f[rs3]) ^ 0x8000_0000;
        match self.fpu.f32_mul_add(rmv, a, b, c) {
            Some((bits, fl)) => {
                self.commit_f32(rd, bits, fl);
                Ok(())
            },
            None => Err(CpuError::IllegalInstruction),
        }
    }

    /// Negated fused multiply-subtract, single precision.
    pub fn fnmsub_s(&mut self, rd: usize, rs1: usize, rs2: usize, rs3: usize, rm: u32) -> (r:
        Result<(), CpuError>)
        requires
            rd < 32,
            rs1 < 32,
            rs2 < 32,
            rs3 < 32,
        ensures
            Self::fp_round_f32(*old(self), *final(self), r, rd as int, rm),
    {
        let rmv = match self.resolve_rm(rm) {
            Some(v) => v,
            None => {
                return Err(CpuError::IllegalInstruction);
            },
        };
        let a = unbox32(self.state.f[rs1]) ^ 0x8000_0000;
        let b = unbox32(self.state.f[rs2]);
        let c = unbox32(self.state.f[rs3]);
        match self.fpu.f32_mul_add(rmv, a, b, c) {
            Some((bits, fl)) => {
                self.commit_f32(rd, bits, fl);
                Ok(())
            },
            None => Err(CpuError::IllegalInstruction),
        }
    }

    /// Negated fused multiply-add, single precision.
    pub fn fnmadd_s(&mut self, rd: usize, rs1: usize, rs2: usize, rs3: usize, rm: u32) -> (r:
        Result<(), CpuError>)
        requires
            rd < 32,
            rs1 < 32,
            rs2 < 32,
            rs3 < 32,
        ensures
            Self::fp_round_f32(*old(self), *final(self), r, rd as int, rm),
    {
        let rmv = match self.resolve_rm(rm) {
            Some(v) => v,
            None => {
                return Err(CpuError::IllegalInstruction);
            },
        };
        let a = unbox32(self.state.f[rs1]) ^ 0x8000_0000;
        let b = unbox32(self.state.f[rs2]);
        let c = unbox32(self.state.f[rs3]) ^ 0x8000_0000;
        match self.fpu.f32_mul_add(rmv, a, b, c) {
            Some((bits, fl)) => {
                self.commit_f32(rd, bits, fl);
                Ok(())
            },
            None => Err(CpuError::IllegalInstruction),
        }
    }

    /// Add, single precision.
    pub fn fadd_s(&mut self, rd: usize, rs1: usize, rs2: usize, rm: u32) -> (r: Result<
        (),
        CpuError,
    >)
        requires
            rd < 32,
            rs1 < 32,
            rs2 < 32,
        ensures
            Self::fp_round_f32(*old(self), *final(self), r, rd as int, rm),
    {
        let rmv = match self.resolve_rm(rm) {
            Some(v) => v,
            None => {
                return Err(CpuError::IllegalInstruction);
            },
        };
        let a = unbox32(self.state.f[rs1]);
        let b = unbox32(self.state.f[rs2]);
        match self.fpu.f32_add(rmv, a, b) {
            Some((bits, fl)) => {
                self.commit_f32(rd, bits, fl);
                Ok(())
            },
            None => Err(CpuError::IllegalInstruction),
        }
    }

    /// Subtract, single precision.
    pub fn fsub_s(&mut self, rd: usize, rs1: usize, rs2: usize, rm: u32) -> (r: Result<
        (),
        CpuError,
    >)
        requires
            rd < 32,
            rs1 < 32,
            rs2 < 32,
        ensures
            Self::fp_round_f32(*old(self), *final(self), r, rd as int, rm),
    {
        let rmv = match self.resolve_rm(rm) {
            Some(v) => v,
            None => {
                return Err(CpuError::IllegalInstruction);
            },
        };
        let a = unbox32(self.state.f[rs1]);
        let b = unbox32(self.state.f[rs2]);
        match self.fpu.f32_sub(rmv, a, b) {
            Some((bits, fl)) => {
                self.commit_f32(rd, bits, fl);
                Ok(())
            },
            None => Err(CpuError::IllegalInstruction),
        }
    }

    /// Multiply, single precision.
    pub fn fmul_s(&mut self, rd: usize, rs1: usize, rs2: usize, rm: u32) -> (r: Result<
        (),
        CpuError,
    >)
        requires
            rd < 32,
            rs1 < 32,
            rs2 < 32,
        ensures
            Self::fp_round_f32(*old(self), *final(self), r, rd as int, rm),
    {
        let rmv = match self.resolve_rm(rm) {
            Some(v) => v,
            None => {
                return Err(CpuError::IllegalInstruction);
            },
        };
        let a = unbox32(self.state.f[rs1]);
        let b = unbox32(self.state.f[rs2]);
        match self.fpu.f32_mul(rmv, a, b) {
            Some((bits, fl)) => {
                self.commit_f32(rd, bits, fl);
                Ok(())
            },
            None => Err(CpuError::IllegalInstruction),
        }
    }

    /// Divide, single precision.
    pub fn fdiv_s(&mut self, rd: usize, rs1: usize, rs2: usize, rm: u32) -> (r: Result<
        (),
        CpuError,
    >)
        requires
            rd < 32,
            rs1 < 32,
            rs2 < 32,
        ensures
            Self::fp_round_f32(*old(self), *final(self), r, rd as int, rm),
    {
        let rmv = match self.resolve_rm(rm) {
            Some(v) => v,
            None => {
                return Err(CpuError::IllegalInstruction);
            },
        };
        let a = unbox32(self.state.f[rs1]);
        let b = unbox32(self.state.f[rs2]);
        match self.fpu.f32_div(rmv, a, b) {
            Some((bits, fl)) => {
                self.commit_f32(rd, bits, fl);
                Ok(())
            },
            None => Err(CpuError::IllegalInstruction),
        }
    }

    /// Square root, single precision.
    pub fn fsqrt_s(&mut self, rd: usize, rs1: usize, rm: u32) -> (r: Result<(), CpuError>)
        requires
            rd < 32,
            rs1 < 32,
        ensures
            Self::fp_round_f32(*old(self), *final(self), r, rd as int, rm),
    {
        let rmv = match self.resolve_rm(rm) {
            Some(v) => v,
            None => {
                return Err(CpuError::IllegalInstruction);
            },
        };
        let a = unbox32(self.state.f[rs1]);
        match self.fpu.f32_sqrt(rmv, a) {
            Some((bits, fl)) => {
                self.commit_f32(rd, bits, fl);
                Ok(())
            },
            None => Err(CpuError::IllegalInstruction),
        }
    }

    /// Sign injection, single precision: magnitude of `rs1`, sign of `rs2`.
    pub fn fsgnj_s(&mut self, rd: usize, rs1: usize, rs2: usize) -> (r: Result<(), CpuError>)
        requires
            rd < 32,
            rs1 < 32,
            rs2 < 32,
        ensures
            r is Ok,
            final(self).state.f@ == old(self).state.f@.update(
                rd as int,
                spec_nan_box(
                    (spec_unbox32(old(self).state.f@[rs1 as int]) & 0x7fff_ffff) | (spec_unbox32(
                        old(self).state.f@[rs2 as int],
                    ) & 0x8000_0000),
                ),
            ),
            *final(self) == (Self {
                state: CpuState {
                    f: final(self).state.f,
                    pc: old(self).state.pc.wrapping_add(old(self).instsz),
                    ..old(self).state
                },
                ..*old(self)
            }),
    {
        let a = unbox32(self.state.f[rs1]);
        let b = unbox32(self.state.f[rs2]);
        let boxed = nan_box((a & 0x7fff_ffff) | (b & 0x8000_0000));
        self.state.f[rd] = boxed;
        self.advance_pc();
        Ok(())
    }

    /// Sign injection, single precision: magnitude of `rs1`, negated sign of
    /// `rs2`.
    pub fn fsgnjn_s(&mut self, rd: usize, rs1: usize, rs2: usize) -> (r: Result<(), CpuError>)
        requires
            rd < 32,
            rs1 < 32,
            rs2 < 32,
        ensures
            r is Ok,
            final(self).state.f@ == old(self).state.f@.update(
                rd as int,
                spec_nan_box(
                    (spec_unbox32(old(self).state.f@[rs1 as int]) & 0x7fff_ffff) | (!spec_unbox32(
                        old(self).state.f@[rs2 as int],
                    ) & 0x8000_0000),
                ),
            ),
            *final(self) == (Self {
                state: CpuState {
                    f: final(self).state.f,
                    pc: old(self).state.pc.wrapping_add(old(self).instsz),
                    ..old(self).state
                },
                ..*old(self)
            }),
    {
        let a = unbox32(self.state.f[rs1]);
        let b = unbox32(self.state.f[rs2]);
        let boxed = nan_box((a & 0x7fff_ffff) | (!b & 0x8000_0000));
        self.state.f[rd] = boxed;
        self.advance_pc();
        Ok(())
    }

    /// Sign injection, single precision: magnitude of `rs1`, sign xored with
    /// `rs2`.
    pub fn fsgnjx_s(&mut self, rd: usize, rs1: usize, rs2: usize) -> (r: Result<(), CpuError>)
        requires
            rd < 32,
            rs1 < 32,
            rs2 < 32,
        ensures
            r is Ok,
            final(self).state.f@ == old(self).state.f@.update(
                rd as int,
                spec_nan_box(
                    spec_unbox32(old(self).state.f@[rs1 as int]) ^ (spec_unbox32(
                        old(self).state.f@[rs2 as int],
                    ) & 0x8000_0000),
                ),
            ),
            *final(self) == (Self {
                state: CpuState {
                    f: final(self).state.f,
                    pc: old(self).state.pc.wrapping_add(old(self).instsz),
                    ..old(self).state
                },
                ..*old(self)
            }),
    {
        let a = unbox32(self.state.f[rs1]);
        let b = unbox32(self.state.f[rs2]);
        let boxed = nan_box(a ^ (b & 0x8000_0000));
        self.state.f[rd] = boxed;
        self.advance_pc();
        Ok(())
    }

    /// Minimum, single precision: signaling NaNs raise invalid, NaNs lose to
    /// numbers, opposite zeros pick the negative one.
    pub fn fmin_s(&mut self, rd: usize, rs1: usize, rs2: usize) -> (r: Result<(), CpuError>)
        requires
            rd < 32,
            rs1 < 32,
            rs2 < 32,
        ensures
            r is Ok,
            ({
                let a = spec_unbox32(old(self).state.f@[rs1 as int]);
                let b = spec_unbox32(old(self).state.f@[rs2 as int]);
                &&& final(self).state.f@ == old(self).state.f@.update(
                    rd as int,
                    spec_nan_box(spec_fminmax32(a, b, false)),
                )
                &&& final(self).state.fcsr == spec_accrue(
                    old(self).state.fcsr,
                    if spec_is_snan32(a) || spec_is_snan32(b) {
                        FLAG_INVALID
                    } else {
                        0u32
                    },
                )
                &&& *final(self) == (Self {
                    state: CpuState {
                        f: final(self).state.f,
                        fcsr: final(self).state.fcsr,
                        pc: old(self).state.pc.wrapping_add(old(self).instsz),
                        ..old(self).state
                    },
                    ..*old(self)
                })
                &&& (old(self).state.fcsr < 0x100 ==> final(self).state.fcsr < 0x100)
            }),
    {
        let a = unbox32(self.state.f[rs1]);
        let b = unbox32(self.state.f[rs2]);
        let flags = if is_snan32(a) || is_snan32(b) {
            FLAG_INVALID
        } else {
            0
        };
        let v = fminmax32(a, b, false);
        self.commit_f32(rd, v, flags);
        Ok(())
    }

    /// Maximum, single precision.
    pub fn fmax_s(&mut self, rd: usize, rs1: usize, rs2: usize) -> (r: Result<(), CpuError>)
        requires
            rd < 32,
            rs1 < 32,
            rs2 < 32,
        ensures
            r is Ok,
            ({
                let a = spec_unbox32(old(self).state.f@[rs1 as int]);
                let b = spec_unbox32(old(self).state.f@[rs2 as int]);
                &&& final(self).state.f@ == old(self).state.f@.update(
                    rd as int,
                    spec_nan_box(spec_fminmax32(a, b, true)),
                )
                &&& final(self).state.fcsr == spec_accrue(
                    old(self).state.fcsr,
                    if spec_is_snan32(a) || spec_is_snan32(b) {
                        FLAG_INVALID
                    } else {
                        0u32
                    },
                )
                &&& *final(self) == (Self {
                    state: CpuState {
                        f: final(self).state.f,
                        fcsr: final(self).state.fcsr,
                        pc: old(self).state.pc.wrapping_add(old(self).instsz),
                        ..old(self).state
                    },
                    ..*old(self)
                })
                &&& (old(self).state.fcsr < 0x100 ==> final(self).state.fcsr < 0x100)
            }),
    {
        let a = unbox32(self.state.f[rs1]);
        let b = unbox32(self.state.f[rs2]);
        let flags = if is_snan32(a) || is_snan32(b) {
            FLAG_INVALID
        } else {
            0
        };
        let v = fminmax32(a, b, true);
        self.commit_f32(rd, v, flags);
        Ok(())
    }

    /// Convert single precision to signed 32-bit integer.
    pub fn fcvt_w_s(&mut self, rd: usize, rs1: usize, rm: u32) -> (r: Result<(), CpuError>)
        requires
            rd < 32,
            rs1 < 32,
        ensures
            Self::fp_round_x(*old(self), *final(self), r, rd as int, rm),
    {
        let rmv = match self.resolve_rm(rm) {
            Some(v) => v,
            None => {
                return Err(CpuError::IllegalInstruction);
            },
        };
        let a = unbox32(self.state.f[rs1]);
        match self.fpu.f32_to_i32(rmv, a) {
            Some((v, fl)) => {
                self.commit_x32(rd, v, fl);
                Ok(())
            },
            None => Err(CpuError::IllegalInstruction),
        }
    }

    /// Convert single precision to unsigned 32-bit integer.
    pub fn fcvt_wu_s(&mut self, rd: usize, rs1: usize, rm: u32) -> (r: Result<(), CpuError>)
        requires
            rd < 32,
            rs1 < 32,
        ensures
            Self::fp_round_x(*old(self), *final(self), r, rd as int, rm),
    {
        let rmv = match self.resolve_rm(rm) {
            Some(v) => v,
            None => {
                return Err(CpuError::IllegalInstruction);
            },
        };
        let a = unbox32(self.state.f[rs1]);
        match self.fpu.f32_to_u32(rmv, a) {
            Some((v, fl)) => {
                self.commit_x32(rd, v, fl);
                Ok(())
            },
            None => Err(CpuError::IllegalInstruction),
        }
    }

    /// Move the single-precision pattern to an integer register.
    pub fn fmv_x_w(&mut self, rd: usize, rs1: usize) -> (r: Result<(), CpuError>)
        requires
            rd < 32,
            rs1 < 32,
        ensures
            r is Ok,
            Self::only_xw(
                *old(self),
                *final(self),
                rd as int,
                spec_unbox32(old(self).state.f@[rs1 as int]),
            ),
    {
        let v = unbox32(self.state.f[rs1]);
        self.write_rd(rd, v);
        self.advance_pc();
        Ok(())
    }

    /// Compare equal, single precision: quiet, but signaling NaNs raise
    /// invalid.
    pub fn feq_s(&mut self, rd: usize, rs1: usize, rs2: usize) -> (r: Result<(), CpuError>)
        requires
            rd < 32,
            rs1 < 32,
            rs2 < 32,
        ensures
            r is Ok,
            ({
                let a = spec_unbox32(old(self).state.f@[rs1 as int]);
                let b = spec_unbox32(old(self).state.f@[rs2 as int]);
                &&& final(self).state.x@ == spec_wx(
                    old(self).state.x@,
                    rd as int,
                    if spec_feq32(a, b) {
                        1u32
                    } else {
                        0u32
                    },
                )
                &&& final(self).state.fcsr == spec_accrue(
                    old(self).state.fcsr,
                    if spec_is_snan32(a) || spec_is_snan32(b) {
                        FLAG_INVALID
                    } else {
                        0u32
                    },
                )
                &&& *final(self) == (Self {
                    state: CpuState {
                        x: final(self).state.x,
                        fcsr: final(self).state.fcsr,
                        pc: old(self).state.pc.wrapping_add(old(self).instsz),
                        ..old(self).state
                    },
                    ..*old(self)
                })
                &&& (old(self).state.fcsr < 0x100 ==> final(self).state.fcsr < 0x100)
            }),
    {
        let a = unbox32(self.state.f[rs1]);
        let b = unbox32(self.state.f[rs2]);
        let flags = if is_snan32(a) || is_snan32(b) {
            FLAG_INVALID
        } else {
            0
        };
        let v: u32 = if feq32(a, b) {
            1
        } else {
            0
        };
        self.commit_x32(rd, v, flags);
        Ok(())
    }

    /// Compare less-than, single precision: any NaN raises invalid.
    pub fn flt_s(&mut self, rd: usize, rs1: usize, rs2: usize) -> (r: Result<(), CpuError>)
        requires
            rd < 32,
            rs1 < 32,
            rs2 < 32,
        ensures
            r is Ok,
            ({
                let a = spec_unbox32(old(self).state.f@[rs1 as int]);
                let b = spec_unbox32(old(self).state.f@[rs2 as int]);
                &&& final(self).state.x@ == spec_wx(
                    old(self).state.x@,
                    rd as int,
                    if spec_flt32(a, b) {
                        1u32
                    } else {
                        0u32
                    },
                )
                &&& final(self).state.fcsr == spec_accrue(
                    old(self).state.fcsr,
                    if spec_is_nan32(a) || spec_is_nan32(b) {
                        FLAG_INVALID
                    } else {
                        0u32
                    },
                )
                &&& *final(self) == (Self {
                    state: CpuState {
                        x: final(self).state.x,
                        fcsr: final(self).state.fcsr,
                        pc: old(self).state.pc.wrapping_add(old(self).instsz),
                        ..old(self).state
                    },
                    ..*old(self)
                })
                &&& (old(self).state.fcsr < 0x100 ==> final(self).state.fcsr < 0x100)
            }),
    {
        let a = unbox32(self.state.f[rs1]);
        let b = unbox32(self.state.f[rs2]);
        let flags = if is_nan32(a) || is_nan32(b) {
            FLAG_INVALID
        } else {
            0
        };
        let v: u32 = if flt32(a, b) {
            1
        } else {
            0
        };
        self.commit_x32(rd, v, flags);
        Ok(())
    }

    /// Compare less-or-equal, single precision: any NaN raises invalid.
    pub fn fle_s(&mut self, rd: usize, rs1: usize, rs2: usize) -> (r: Result<(), CpuError>)
        requires
            rd < 32,
            rs1 < 32,
            rs2 < 32,
        ensures
            r is Ok,
            ({
                let a = spec_unbox32(old(self).state.f@[rs1 as int]);
                let b = spec_unbox32(old(self).state.f@[rs2 as int]);
                &&& final(self).state.x@ == spec_wx(
                    old(self).state.x@,
                    rd as int,
                    if spec_fle32(a, b) {
                        1u32
                    } else {
                        0u32
                    },
                )
                &&& final(self).state.fcsr == spec_accrue(
                    old(self).state.fcsr,
                    if spec_is_nan32(a) || spec_is_nan32(b) {
                        FLAG_INVALID
                    } else {
                        0u32
                    },
                )
                &&& *final(self) == (Self {
                    state: CpuState {
                        x: final(self).state.x,
                        fcsr: final(self).state.fcsr,
                        pc: old(self).state.pc.wrapping_add(old(self).instsz),
                        ..old(self).state
                    },
                    ..*old(self)
                })
                &&& (old(self).state.fcsr < 0x100 ==> final(self).state.fcsr < 0x100)
            }),
    {
        let a = unbox32(self.state.f[rs1]);
        let b = unbox32(self.state.f[rs2]);
        let flags = if is_nan32(a) || is_nan32(b) {
            FLAG_INVALID
        } else {
            0
        };
        let v: u32 = if fle32(a, b) {
            1
        } else {
            0
        };
        self.commit_x32(rd, v, flags);
        Ok(())
    }

    /// Classify the single-precision pattern into its one-hot category mask.
    pub fn fclass_s(&mut self, rd: usize, rs1: usize) -> (r: Result<(), CpuError>)
        requires
            rd < 32,
            rs1 < 32,
        ensures
            r is Ok,
            Self::only_xw(
                *old(self),
                *final(self),
                rd as int,
                spec_classify32(spec_unbox32(old(self).state.f@[rs1 as int])),
            ),
    {
        let v = classify32(unbox32(self.state.f[rs1]));
        self.write_rd(rd, v);
        self.advance_pc();
        Ok(())
    }

    /// Convert signed 32-bit integer to single precision.
    pub fn fcvt_s_w(&mut self, rd: usize, rs1: usize, rm: u32) -> (r: Result<(), CpuError>)
        requires
            rd < 32,
            rs1 < 32,
        ensures
            Self::fp_round_f32(*old(self), *final(self), r, rd as int, rm),
    {
        let rmv = match self.resolve_rm(rm) {
            Some(v) => v,
            None => {
                return Err(CpuError::IllegalInstruction);
            },
        };
        let x = self.state.x[rs1];
        match self.fpu.f32_from_i32(rmv, x) {
            Some((bits, fl)) => {
                self.commit_f32(rd, bits, fl);
                Ok(())
            },
            None => Err(CpuError::IllegalInstruction),
        }
    }

    /// Convert unsigned 32-bit integer to single precision.
    pub fn fcvt_s_wu(&mut self, rd: usize, rs1: usize, rm: u32) -> (r: Result<(), CpuError>)
        requires
            rd < 32,
            rs1 < 32,
        ensures
            Self::fp_round_f32(*old(self), *final(self), r, rd as int, rm),
    {
        let rmv = match self.resolve_rm(rm) {
            Some(v) => v,
            None => {
                return Err(CpuError::IllegalInstruction);
            },
        };
        let x = self.state.x[rs1];
        match self.fpu.f32_from_u32(rmv, x) {
            Some((bits, fl)) => {
                self.commit_f32(rd, bits, fl);
                Ok(())
            },
            None => Err(CpuError::IllegalInstruction),
        }
    }

    /// Move an integer register pattern into `f[rd]`, NaN-boxed.
    pub fn fmv_w_x(&mut self, rd: usize, rs1: usize) -> (r: Result<(), CpuError>)
        requires
            rd < 32,
            rs1 < 32,
        ensures
            r is Ok,
            final(self).state.f@ == old(self).state.f@.update(
                rd as int,
                spec_nan_box(old(self).state.x@[rs1 as int]),
            ),
            *final(self) == (Self {
                state: CpuState {
                    f: final(self).state.f,
                    pc: old(self).state.pc.wrapping_add(old(self).instsz),
                    ..old(self).state
                },
                ..*old(self)
            }),
    {
        let boxed = nan_box(self.state.x[rs1]);
        self.state.f[rd] = boxed;
        self.advance_pc();
        Ok(())
    }

    /// Narrow double to single precision. A NaN input canonicalizes without
    /// flags; anything else rounds in the unit.
    pub fn fcvt_s_d(&mut self, rd: usize, rs1: usize, rm: u32) -> (r: Result<(), CpuError>)
        requires
            rd < 32,
            rs1 < 32,
        ensures
            Self::fp_round_f32(*old(self), *final(self), r, rd as int, rm),
            (spec_is_nan64(old(self).state.f@[rs1 as int]) && spec_resolve_rm(
                old(self).state.fcsr,
                rm,
            ) is Some) ==> {
                &&& r is Ok
                &&& final(self).state.f@ == old(self).state.f@.update(
                    rd as int,
                    spec_nan_box(CANONICAL_NAN32),
                )
                &&& final(self).state.fcsr == old(self).state.fcsr
            },
    {
        let rmv = match self.resolve_rm(rm) {
            Some(v) => v,
            None => {
                return Err(CpuError::IllegalInstruction);
            },
        };
        let v = self.state.f[rs1];
        if is_nan64(v) {
            self.commit_f32(rd, CANONICAL_NAN32, 0);
            proof {
                lemma_accrue_zero(old(self).state.fcsr);
            }
            Ok(())
        } else {
            match self.fpu.f64_to_f32(rmv, v) {
                Some((bits, fl)) => {
                    self.commit_f32(rd, bits, fl);
                    Ok(())
                },
                None => Err(CpuError::IllegalInstruction),
            }
        }
    }

    /// Widen single to double precision. A NaN input canonicalizes without
    /// flags; the widening itself is exact.
    pub fn fcvt_d_s(&mut self, rd: usize, rs1: usize, rm: u32) -> (r: Result<(), CpuError>)
        requires
            rd < 32,
            rs1 < 32,
        ensures
            Self::fp_round_f64(*old(self), *final(self), r, rd as int, rm),
            (spec_is_nan32(spec_unbox32(old(self).state.f@[rs1 as int])) && spec_resolve_rm(
                old(self).state.fcsr,
                rm,
            ) is Some) ==> {
                &&& r is Ok
                &&& final(self).state.f@ == old(self).state.f@.update(rd as int, CANONICAL_NAN64)
                &&& final(self).state.fcsr == old(self).state.fcsr
            },
    {
        let rmv = match self.resolve_rm(rm) {
            Some(v) => v,
            None => {
                return Err(CpuError::IllegalInstruction);
            },
        };
        let v = unbox32(self.state.f[rs1]);
        if is_nan32(v) {
            self.commit_f64(rd, CANONICAL_NAN64, 0);
            proof {
                lemma_accrue_zero(old(self).state.fcsr);
            }
            Ok(())
        } else {
            match self.fpu.f32_to_f64(v) {
                Some((bits, fl)) => {
                    self.commit_f64(rd, bits, fl);
                    Ok(())
                },
                None => Err(CpuError::IllegalInstruction),
            }
        }
    }
}

} // verus!
