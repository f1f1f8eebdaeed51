//! Execution handlers for the "D" double-precision floating-point
//! extension. Double-precision values occupy the whole 64-bit register
//! slot, so no NaN boxing is involved; everything else mirrors the
//! single-precision handlers.

use vstd::prelude::*;

use crate::exec_f::spec_accrue;
use crate::fp::{
    classify64, feq64, fle64, flt64, fminmax64, is_nan64, is_snan64, spec_classify64, spec_feq64,
    spec_fle64, spec_flt64, spec_fminmax64, spec_is_nan64, spec_is_snan64, Fpu, FLAG_INVALID,
};
use crate::interp::{spec_wx, Interp};
use crate::types::{Clock, CpuError, CpuState, Memory, MemoryAccess};

verus! {

impl<M: Memory, C: Clock, F: Fpu> Interp<M, C, F> {
    /// Load a double-precision value into `f[rd]`.
    pub fn fld(&mut self, rd: usize, rs1: usize, i_imm: i32) -> (r: Result<(), CpuError>)
        requires
            rd < 32,
            rs1 < 32,
        ensures
            Self::loaded_f(*old(self), *final(self), r, rd as int),
    {
        let addr = self.state.x[rs1].wrapping_add(i_imm as u32);
        match self.mem.access(addr, MemoryAccess::Load(8)) {
            Some(v) => {
                self.state.f[rd] = v;
                proof {
                    assert(self.state.f@ == old(self).state.f@.update(rd as int, v));
                }
                self.advance_pc();
                Ok(())
            },
            None => {
                self.advance_pc();
                Err(CpuError::IllegalAccess)
            },
        }
    }

    /// Store the double-precision value in `f[rs2]`.
    pub fn fsd(&mut self, rs1: usize, rs2: usize, s_imm: i32) -> (r: Result<(), CpuError>)
        requires
            rs1 < 32,
            rs2 < 32,
        ensures
            Self::stored(*old(self), *final(self), r),
    {
        let addr = self.state.x[rs1].wrapping_add(s_imm as u32);
        let value = self.state.f[rs2];
        let ok = self.mem.access(addr, MemoryAccess::Store(8, value));
        self.advance_pc();
        match ok {
            Some(_) => Ok(()),
            None => Err(CpuError::IllegalAccess),
        }
    }

    /// Fused multiply-add, double precision.
    pub fn fmadd_d(&mut self, rd: usize, rs1: usize, rs2: usize, rs3: usize, rm: u32) -> (r:
        Result<(), CpuError>)
        requires
            rd < 32,
            rs1 < 32,
            rs2 < 32,
            rs3 < 32,
        ensures
            Self::fp_round_f64(*old(self), *final(self), r, rd as int, rm),
    {
        let rmv = match self.resolve_rm(rm) {
            Some(v) => v,
            None => {
                return Err(CpuError::IllegalInstruction);
            },
        };
        let a = self.state.f[rs1];
        let b = self.state.f[rs2];
        let c = self.state.f[rs3];
        match self.fpu.f64_mul_add(rmv, a, b, c) {
            Some((bits, fl)) => {
                self.commit_f64(rd, bits, fl);
                Ok(())
            },
            None => Err(CpuError::IllegalInstruction),
        }
    }

    /// Fused multiply-subtract, double precision.
    pub fn fmsub_d(&mut self, rd: usize, rs1: usize, rs2: usize, rs3: usize, rm: u32) -> (r:
        Result<(), CpuError>)
        requires
            rd < 32,
            rs1 < 32,
            rs2 < 32,
            rs3 < 32,
        ensures
            Self::fp_round_f64(*old(self), *final(self), r, rd as int, rm),
    {
        let rmv = match self.resolve_rm(rm) {
            Some(v) => v,
            None => {
                return Err(CpuError::IllegalInstruction);
            },
        };
        let a = self.state.f[rs1];
        let b = self.state.f[rs2];
        let c = self.state.f[rs3] ^ 0x8000_0000_0000_0000;
        match self.fpu.f64_mul_add(rmv, a, b, c) {
            Some((bits, fl)) => {
                self.commit_f64(rd, bits, fl);
                Ok(())
            },
            None => Err(CpuError::IllegalInstruction),
        }
    }

    /// Negated fused multiply-subtract, double precision.
    pub fn fnmsub_d(&mut self, rd: usize, rs1: usize, rs2: usize, rs3: usize, rm: u32) -> (r:
        Result<(), CpuError>)
        requires
            rd < 32,
            rs1 < 32,
            rs2 < 32,
            rs3 < 32,
        ensures
            Self::fp_round_f64(*old(self), *final(self), r, rd as int, rm),
    {
        let rmv = match self.resolve_rm(rm) {
            Some(v) => v,
            None => {
                return Err(CpuError::IllegalInstruction);
            },
        };
        let a = self.state.f[rs1] ^ 0x8000_0000_0000_0000;
        let b = self.state.f[rs2];
        let c = self.state.f[rs3];
        match self.fpu.f64_mul_add(rmv, a, b, c) {
            Some((bits, fl)) => {
                self.commit_f64(rd, bits, fl);
                Ok(())
            },
            None => Err(CpuError::IllegalInstruction),
        }
    }

    /// Negated fused multiply-add, double precision.
    pub fn fnmadd_d(&mut self, rd: usize, rs1: usize, rs2: usize, rs3: usize, rm: u32) -> (r:
        Result<(), CpuError>)
        requires
            rd < 32,
            rs1 < 32,
            rs2 < 32,
            rs3 < 32,
        ensures
            Self::fp_round_f64(*old(self), *final(self), r, rd as int, rm),
    {
        let rmv = match self.resolve_rm(rm) {
            Some(v) => v,
            None => {
                return Err(CpuError::IllegalInstruction);
            },
        };
        let a = self.state.f[rs1] ^ 0x8000_0000_0000_0000;
        let b = self.state.f[rs2];
        let c = self.state.f[rs3] ^ 0x8000_0000_0000_0000;
        match self.fpu.f64_mul_add(rmv, a, b, c) {
            Some((bits, fl)) => {
                self.commit_f64(rd, bits, fl);
                Ok(())
            },
            None => Err(CpuError::IllegalInstruction),
        }
    }

    /// Add, double precision.
    pub fn fadd_d(&mut self, rd: usize, rs1: usize, rs2: usize, rm: u32) -> (r: Result<
        (),
        CpuError,
    >)
        requires
            rd < 32,
            rs1 < 32,
            rs2 < 32,
        ensures
            Self::fp_round_f64(*old(self), *final(self), r, rd as int, rm),
    {
        let rmv = match self.resolve_rm(rm) {
            Some(v) => v,
            None => {
                return Err(CpuError::IllegalInstruction);
            },
        };
        let a = self.state.f[rs1];
        let b = self.state.f[rs2];
        match self.fpu.f64_add(rmv, a, b) {
            Some((bits, fl)) => {
                self.commit_f64(rd, bits, fl);
                Ok(())
            },
            None => Err(CpuError::IllegalInstruction),
        }
    }

    /// Subtract, double precision.
    pub fn fsub_d(&mut self, rd: usize, rs1: usize, rs2: usize, rm: u32) -> (r: Result<
        (),
        CpuError,
    >)
        requires
            rd < 32,
            rs1 < 32,
            rs2 < 32,
        ensures
            Self::fp_round_f64(*old(self), *final(self), r, rd as int, rm),
    {
        let rmv = match self.resolve_rm(rm) {
            Some(v) => v,
            None => {
                return Err(CpuError::IllegalInstruction);
            },
        };
        let a = self.state.f[rs1];
        let b = self.state.f[rs2];
        match self.fpu.f64_sub(rmv, a, b) {
            Some((bits, fl)) => {
                self.commit_f64(rd, bits, fl);
                Ok(())
            },
            None => Err(CpuError::IllegalInstruction),
        }
    }

    /// Multiply, double precision.
    pub fn fmul_d(&mut self, rd: usize, rs1: usize, rs2: usize, rm: u32) -> (r: Result<
        (),
        CpuError,
    >)
        requires
            rd < 32,
            rs1 < 32,
            rs2 < 32,
        ensures
            Self::fp_round_f64(*old(self), *final(self), r, rd as int, rm),
    {
        let rmv = match self.resolve_rm(rm) {
            Some(v) => v,
            None => {
                return Err(CpuError::IllegalInstruction);
            },
        };
        let a = self.state.f[rs1];
        let b = self.state.f[rs2];
        match self.fpu.f64_mul(rmv, a, b) {
            Some((bits, fl)) => {
                self.commit_f64(rd, bits, fl);
                Ok(())
            },
            None => Err(CpuError::IllegalInstruction),
        }
    }

    /// Divide, double precision.
    pub fn fdiv_d(&mut self, rd: usize, rs1: usize, rs2: usize, rm: u32) -> (r: Result<
        (),
        CpuError,
    >)
        requires
            rd < 32,
            rs1 < 32,
            rs2 < 32,
        ensures
            Self::fp_round_f64(*old(self), *final(self), r, rd as int, rm),
    {
        let rmv = match self.resolve_rm(rm) {
            Some(v) => v,
            None => {
                return Err(CpuError::IllegalInstruction);
            },
        };
        let a = self.state.f[rs1];
        let b = self.state.f[rs2];
        match self.fpu.f64_div(rmv, a, b) {
            Some((bits, fl)) => {
                self.commit_f64(rd, bits, fl);
                Ok(())
            },
            None => Err(CpuError::IllegalInstruction),
        }
    }

    /// Square root, double precision.
    pub fn fsqrt_d(&mut self, rd: usize, rs1: usize, rm: u32) -> (r: Result<(), CpuError>)
        requires
            rd < 32,
            rs1 < 32,
        ensures
            Self::fp_round_f64(*old(self), *final(self), r, rd as int, rm),
    {
        let rmv = match self.resolve_rm(rm) {
            Some(v) => v,
            None => {
                return Err(CpuError::IllegalInstruction);
            },
        };
        let a = self.state.f[rs1];
        match self.fpu.f64_sqrt(rmv, a) {
            Some((bits, fl)) => {
                self.commit_f64(rd, bits, fl);
                Ok(())
            },
            None => Err(CpuError::IllegalInstruction),
        }
    }

    /// Sign injection, double precision: magnitude of `rs1`, sign of `rs2`.
    pub fn fsgnj_d(&mut self, rd: usize, rs1: usize, rs2: usize) -> (r: Result<(), CpuError>)
        requires
            rd < 32,
            rs1 < 32,
            rs2 < 32,
        ensures
            r is Ok,
            final(self).state.f@ == old(self).state.f@.update(
                rd as int,
                (old(self).state.f@[rs1 as int] & 0x7fff_ffff_ffff_ffff) | (old(self).state.f@[rs2
                    as int] & 0x8000_0000_0000_0000),
            ),
            *final(self) == (Self {
                state: CpuState {
                    f: final(self).state.f,
                    pc: old(self).state.pc.wrapping_add(old(self).instsz),
                    ..old(self).state
                },
                ..*old(self)
            }),
    {
        let a = self.state.f[rs1];
        let b = self.state.f[rs2];
        let v = (a & 0x7fff_ffff_ffff_ffff) | (b & 0x8000_0000_0000_0000);
        self.state.f[rd] = v;
        self.advance_pc();
        Ok(())
    }

    /// Sign injection, double precision: magnitude of `rs1`, negated sign of
    /// `rs2`.
    pub fn fsgnjn_d(&mut self, rd: usize, rs1: usize, rs2: usize) -> (r: Result<(), CpuError>)
        requires
            rd < 32,
            rs1 < 32,
            rs2 < 32,
        ensures
            r is Ok,
            final(self).state.f@ == old(self).state.f@.update(
                rd as int,
                (old(self).state.f@[rs1 as int] & 0x7fff_ffff_ffff_ffff) | (!old(self).state.f@[rs2
                    as int] & 0x8000_0000_0000_0000),
            ),
            *final(self) == (Self {
                state: CpuState {
                    f: final(self).state.f,
                    pc: old(self).state.pc.wrapping_add(old(self).instsz),
                    ..old(self).state
                },
                ..*old(self)
            }),
    {
        let a = self.state.f[rs1];
        let b = self.state.f[rs2];
        let v = (a & 0x7fff_ffff_ffff_ffff) | (!b & 0x8000_0000_0000_0000);
        self.state.f[rd] = v;
        self.advance_pc();
        Ok(())
    }

    /// Sign injection, double precision: magnitude of `rs1`, sign xored with
    /// `rs2`.
    pub fn fsgnjx_d(&mut self, rd: usize, rs1: usize, rs2: usize) -> (r: Result<(), CpuError>)
        requires
            rd < 32,
            rs1 < 32,
            rs2 < 32,
        ensures
            r is Ok,
            final(self).state.f@ == old(self).state.f@.update(
                rd as int,
                old(self).state.f@[rs1 as int] ^ (old(self).state.f@[rs2 as int]
                    & 0x8000_0000_0000_0000),
            ),
            *final(self) == (Self {
                state: CpuState {
                    f: final(self).state.f,
                    pc: old(self).state.pc.wrapping_add(old(self).instsz),
                    ..old(self).state
                },
                ..*old(self)
            }),
    {
        let a = self.state.f[rs1];
        let b = self.state.f[rs2];
        let v = a ^ (b & 0x8000_0000_0000_0000);
        self.state.f[rd] = v;
        self.advance_pc();
        Ok(())
    }

    /// Minimum, double precision.
    pub fn fmin_d(&mut self, rd: usize, rs1: usize, rs2: usize) -> (r: Result<(), CpuError>)
        requires
            rd < 32,
            rs1 < 32,
            rs2 < 32,
        ensures
            r is Ok,
            ({
                let a = old(self).state.f@[rs1 as int];
                let b = old(self).state.f@[rs2 as int];
                &&& final(self).state.f@ == old(self).state.f@.update(
                    rd as int,
                    spec_fminmax64(a, b, false),
                )
                &&& final(self).state.fcsr == spec_accrue(
                    old(self).state.fcsr,
                    if spec_is_snan64(a) || spec_is_snan64(b) {
                        FLAG_INVALID
                    } else {
                        0u32
                    },
                )
                &&& *final(self) == (Self {
                    state: CpuState {
                        f: final(self).state.f,
                        fcsr: final(self).state.fcsr,
                        pc: old(self).state.pc.wrapping_add(old(self).instsz),
                        ..old(self).state
                    },
                    ..*old(self)
                })
                &&& (old(self).state.fcsr < 0x100 ==> final(self).state.fcsr < 0x100)
            }),
    {
        let a = self.state.f[rs1];
        let b = self.state.f[rs2];
        let flags = if is_snan64(a) || is_snan64(b) {
            FLAG_INVALID
        } else {
            0
        };
        let v = fminmax64(a, b, false);
        self.commit_f64(rd, v, flags);
        Ok(())
    }

    /// Maximum, double precision.
    pub fn fmax_d(&mut self, rd: usize, rs1: usize, rs2: usize) -> (r: Result<(), CpuError>)
        requires
            rd < 32,
            rs1 < 32,
            rs2 < 32,
        ensures
            r is Ok,
            ({
                let a = old(self).state.f@[rs1 as int];
                let b = old(self).state.f@[rs2 as int];
                &&& final(self).state.f@ == old(self).state.f@.update(
                    rd as int,
                    spec_fminmax64(a, b, true),
                )
                &&& final(self).state.fcsr == spec_accrue(
                    old(self).state.fcsr,
                    if spec_is_snan64(a) || spec_is_snan64(b) {
                        FLAG_INVALID
                    } else {
                        0u32
                    },
                )
                &&& *final(self) == (Self {
                    state: CpuState {
                        f: final(self).state.f,
                        fcsr: final(self).state.fcsr,
                        pc: old(self).state.pc.wrapping_add(old(self).instsz),
                        ..old(self).state
                    },
                    ..*old(self)
                })
                &&& (old(self).state.fcsr < 0x100 ==> final(self).state.fcsr < 0x100)
            }),
    {
        let a = self.state.f[rs1];
        let b = self.state.f[rs2];
        let flags = if is_snan64(a) || is_snan64(b) {
            FLAG_INVALID
        } else {
            0
        };
        let v = fminmax64(a, b, true);
        self.commit_f64(rd, v, flags);
        Ok(())
    }

    /// Convert double precision to signed 32-bit integer.
    pub fn fcvt_w_d(&mut self, rd: usize, rs1: usize, rm: u32) -> (r: Result<(), CpuError>)
        requires
            rd < 32,
            rs1 < 32,
        ensures
            Self::fp_round_x(*old(self), *final(self), r, rd as int, rm),
    {
        let rmv = match self.resolve_rm(rm) {
            Some(v) => v,
            None => {
                return Err(CpuError::IllegalInstruction);
            },
        };
        let a = self.state.f[rs1];
        match self.fpu.f64_to_i32(rmv, a) {
            Some((v, fl)) => {
                self.commit_x32(rd, v, fl);
                Ok(())
            },
            None => Err(CpuError::IllegalInstruction),
        }
    }

    /// Convert double precision to unsigned 32-bit integer.
    pub fn fcvt_wu_d(&mut self, rd: usize, rs1: usize, rm: u32) -> (r: Result<(), CpuError>)
        requires
            rd < 32,
            rs1 < 32,
        ensures
            Self::fp_round_x(*old(self), *final(self), r, rd as int, rm),
    {
        let rmv = match self.resolve_rm(rm) {
            Some(v) => v,
            None => {
                return Err(CpuError::IllegalInstruction);
            },
        };
        let a = self.state.f[rs1];
        match self.fpu.f64_to_u32(rmv, a) {
            Some((v, fl)) => {
                self.commit_x32(rd, v, fl);
                Ok(())
            },
            None => Err(CpuError::IllegalInstruction),
        }
    }

    /// Compare equal, double precision: quiet, but signaling NaNs raise
    /// invalid.
    pub fn feq_d(&mut self, rd: usize, rs1: usize, rs2: usize) -> (r: Result<(), CpuError>)
        requires
            rd < 32,
            rs1 < 32,
            rs2 < 32,
        ensures
            r is Ok,
            ({
                let a = old(self).state.f@[rs1 as int];
                let b = old(self).state.f@[rs2 as int];
                &&& final(self).state.x@ == spec_wx(
                    old(self).state.x@,
                    rd as int,
                    if spec_feq64(a, b) {
                        1u32
                    } else {
                        0u32
                    },
                )
                &&& final(self).state.fcsr == spec_accrue(
                    old(self).state.fcsr,
                    if spec_is_snan64(a) || spec_is_snan64(b) {
                        FLAG_INVALID
                    } else {
                        0u32
                    },
                )
                &&& *final(self) == (Self {
                    state: CpuState {
                        x: final(self).state.x,
                        fcsr: final(self).state.fcsr,
                        pc: old(self).state.pc.wrapping_add(old(self).instsz),
                        ..old(self).state
                    },
                    ..*old(self)
                })
                &&& (old(self).state.fcsr < 0x100 ==> final(self).state.fcsr < 0x100)
            }),
    {
        let a = self.state.f[rs1];
        let b = self.state.f[rs2];
        let flags = if is_snan64(a) || is_snan64(b) {
            FLAG_INVALID
        } else {
            0
        };
        let v: u32 = if feq64(a, b) {
            1
        } else {
            0
        };
        self.commit_x32(rd, v, flags);
        Ok(())
    }

    /// Compare less-than, double precision: any NaN raises invalid.
    pub fn flt_d(&mut self, rd: usize, rs1: usize, rs2: usize) -> (r: Result<(), CpuError>)
        requires
            rd < 32,
            rs1 < 32,
            rs2 < 32,
        ensures
            r is Ok,
            ({
                let a = old(self).state.f@[rs1 as int];
                let b = old(self).state.f@[rs2 as int];
                &&& final(self).state.x@ == spec_wx(
                    old(self).state.x@,
                    rd as int,
                    if spec_flt64(a, b) {
                        1u32
                    } else {
                        0u32
                    },
                )
                &&& final(self).state.fcsr == spec_accrue(
                    old(self).state.fcsr,
                    if spec_is_nan64(a) || spec_is_nan64(b) {
                        FLAG_INVALID
                    } else {
                        0u32
                    },
                )
                &&& *final(self) == (Self {
                    state: CpuState {
                        x: final(self).state.x,
                        fcsr: final(self).state.fcsr,
                        pc: old(self).state.pc.wrapping_add(old(self).instsz),
                        ..old(self).state
                    },
                    ..*old(self)
                })
                &&& (old(self).state.fcsr < 0x100 ==> final(self).state.fcsr < 0x100)
            }),
    {
        let a = self.state.f[rs1];
        let b = self.state.f[rs2];
        let flags = if is_nan64(a) || is_nan64(b) {
            FLAG_INVALID
        } else {
            0
        };
        let v: u32 = if flt64(a, b) {
            1
        } else {
            0
        };
        self.commit_x32(rd, v, flags);
        Ok(())
    }

    /// Compare less-or-equal, double precision: any NaN raises invalid.
    pub fn fle_d(&mut self, rd: usize, rs1: usize, rs2: usize) -> (r: Result<(), CpuError>)
        requires
            rd < 32,
            rs1 < 32,
            rs2 < 32,
        ensures
            r is Ok,
            ({
                let a = old(self).state.f@[rs1 as int];
                let b = old(self).state.f@[rs2 as int];
                &&& final(self).state.x@ == spec_wx(
                    old(self).state.x@,
                    rd as int,
                    if spec_fle64(a, b) {
                        1u32
                    } else {
                        0u32
                    },
                )
                &&& final(self).state.fcsr == spec_accrue(
                    old(self).state.fcsr,
                    if spec_is_nan64(a) || spec_is_nan64(b) {
                        FLAG_INVALID
                    } else {
                        0u32
                    },
                )
                &&& *final(self) == (Self {
                    state: CpuState {
                        x: final(self).state.x,
                        fcsr: final(self).state.fcsr,
                        pc: old(self).state.pc.wrapping_add(old(self).instsz),
                        ..old(self).state
                    },
                    ..*old(self)
                })
                &&& (old(self).state.fcsr < 0x100 ==> final(self).state.fcsr < 0x100)
            }),
    {
        let a = self.state.f[rs1];
        let b = self.state.f[rs2];
        let flags = if is_nan64(a) || is_nan64(b) {
            FLAG_INVALID
        } else {
            0
        };
        let v: u32 = if fle64(a, b) {
            1
        } else {
            0
        };
        self.commit_x32(rd, v, flags);
        Ok(())
    }

    /// Classify the double-precision pattern into its one-hot category mask.
    pub fn fclass_d(&mut self, rd: usize, rs1: usize) -> (r: Result<(), CpuError>)
        requires
            rd < 32,
            rs1 < 32,
        ensures
            r is Ok,
            Self::only_xw(
                *old(self),
                *final(self),
                rd as int,
                spec_classify64(old(self).state.f@[rs1 as int]),
            ),
    {
        let v = classify64(self.state.f[rs1]);
        self.write_rd(rd, v);
        self.advance_pc();
        Ok(())
    }

    /// Convert signed 32-bit integer to double precision.
    pub fn fcvt_d_w(&mut self, rd: usize, rs1: usize, rm: u32) -> (r: Result<(), CpuError>)
        requires
            rd < 32,
            rs1 < 32,
        ensures
            Self::fp_round_f64(*old(self), *final(self), r, rd as int, rm),
    {
        let rmv = match self.resolve_rm(rm) {
            Some(v) => v,
            None => {
                return Err(CpuError::IllegalInstruction);
            },
        };
        let x = self.state.x[rs1];
        match self.fpu.f64_from_i32(rmv, x) {
            Some((bits, fl)) => {
                self.commit_f64(rd, bits, fl);
                Ok(())
            },
            None => Err(CpuError::IllegalInstruction),
        }
    }

    /// Convert unsigned 32-bit integer to double precision.
    pub fn fcvt_d_wu(&mut self, rd: usize, rs1: usize, rm: u32) -> (r: Result<(), CpuError>)
        requires
            rd < 32,
            rs1 < 32,
        ensures
            Self::fp_round_f64(*old(self), *final(self), r, rd as int, rm),
    {
        let rmv = match self.resolve_rm(rm) {
            Some(v) => v,
            None => {
                return Err(CpuError::IllegalInstruction);
            },
        };
        let x = self.state.x[rs1];
        match self.fpu.f64_from_u32(rmv, x) {
            Some((bits, fl)) => {
                self.commit_f64(rd, bits, fl);
                Ok(())
            },
            None => Err(CpuError::IllegalInstruction),
        }
    }
}

} // verus!
