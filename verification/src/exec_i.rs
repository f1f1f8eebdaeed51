//! Execution handlers for the RV32I base integer instruction set.

use vstd::prelude::*;

use crate::fp::Fpu;
use crate::interp::{spec_target_ok, spec_wx, Interp};
use crate::types::{Clock, CpuError, CpuState, Memory, MemoryAccess};

verus! {

/// The low byte of a loaded value, sign-extended to 32 bits.
pub open spec fn spec_sext8(v: u64) -> u32 {
    ((v as u8) as i8) as u32
}

/// The low halfword of a loaded value, sign-extended to 32 bits.
pub open spec fn spec_sext16(v: u64) -> u32 {
    ((v as u16) as i16) as u32
}

/// The low byte of a loaded value, zero-extended to 32 bits.
pub open spec fn spec_zext8(v: u64) -> u32 {
    (v as u8) as u32
}

/// The low halfword of a loaded value, zero-extended to 32 bits.
pub open spec fn spec_zext16(v: u64) -> u32 {
    (v as u16) as u32
}

impl<M: Memory, C: Clock, F: Fpu> Interp<M, C, F> {
    /// The shape shared by every instruction that jumps: `rd` takes the link
    /// value, and the program counter moves to the (suitably aligned) target
    /// or the jump stops with `MisalignedFetch` leaving the counter alone.
    pub open spec fn jumped(
        pre: Self,
        post: Self,
        r: Result<(), CpuError>,
        rd: int,
        target: u32,
    ) -> bool {
        &&& post.only_x_pc(pre)
        &&& post.state.x@ == spec_wx(pre.state.x@, rd, pre.state.pc.wrapping_add(pre.instsz))
        &&& if spec_target_ok(target, pre.rvc) {
            r is Ok && post.state.pc == target
        } else {
            r == Err::<(), CpuError>(CpuError::MisalignedFetch) && post.state.pc == pre.state.pc
        }
    }

    /// The shape shared by every conditional branch: when the condition
    /// fails execution falls through, otherwise the program counter moves to
    /// the branch target or the branch stops with `MisalignedFetch`.
    pub open spec fn branched(
        pre: Self,
        post: Self,
        r: Result<(), CpuError>,
        taken: bool,
        b_imm: i32,
    ) -> bool {
        let target = pre.state.pc.wrapping_add(b_imm as u32);
        &&& post.only_x_pc(pre)
        &&& post.state.x == pre.state.x
        &&& if !taken {
            r is Ok && post.state.pc == pre.state.pc.wrapping_add(pre.instsz)
        } else if spec_target_ok(target, pre.rvc) {
            r is Ok && post.state.pc == target
        } else {
            r == Err::<(), CpuError>(CpuError::MisalignedFetch) && post.state.pc == pre.state.pc
        }
    }

    /// The shape shared by every integer load: the program counter advances
    /// past the instruction whether or not the memory cooperates, `rd` takes
    /// some loaded value on success, and a refused access stops with
    /// `IllegalAccess`.
    pub open spec fn loaded(pre: Self, post: Self, r: Result<(), CpuError>, rd: int) -> bool {
        &&& post.env_unchanged_but_mem(pre)
        &&& post.state.f == pre.state.f
        &&& post.state.fcsr == pre.state.fcsr
        &&& post.state.reservation == pre.state.reservation
        &&& post.state.pc == pre.state.pc.wrapping_add(pre.instsz)
        &&& match r {
            Ok(_) => exists|v: u32| post.state.x@ == spec_wx(pre.state.x@, rd, v),
            Err(e) => e == CpuError::IllegalAccess && post.state.x == pre.state.x,
        }
    }

    /// The shape shared by every store: no register moves, the program
    /// counter advances, and a refused access stops with `IllegalAccess`.
    pub open spec fn stored(pre: Self, post: Self, r: Result<(), CpuError>) -> bool {
        &&& post.env_unchanged_but_mem(pre)
        &&& post.state == (CpuState { pc: post.state.pc, ..pre.state })
        &&& post.state.pc == pre.state.pc.wrapping_add(pre.instsz)
        &&& match r {
            Ok(_) => true,
            Err(e) => e == CpuError::IllegalAccess,
        }
    }

    /// Move the program counter to an absolute jump target, enforcing the
    /// fetch alignment.
    pub(crate) fn end_jump(&mut self, target: u32) -> (r: Result<(), CpuError>)
        ensures
            if spec_target_ok(target, old(self).rvc) {
                &&& r is Ok
                &&& *final(self) == (Self {
                    state: CpuState { pc: target, ..old(self).state },
                    ..*old(self)
                })
            } else {
                &&& r == Err::<(), CpuError>(CpuError::MisalignedFetch)
                &&& *final(self) == *old(self)
            },
    {
        if self.rvc {
            if target % 2 != 0 {
                return Err(CpuError::MisalignedFetch);
            }
        } else {
            if target % 4 != 0 {
                return Err(CpuError::MisalignedFetch);
            }
        }
        self.state.pc = target;
        Ok(())
    }

    /// Jump and link.
    pub fn jal(&mut self, rd: usize, j_imm: i32) -> (r: Result<(), CpuError>)
        requires
            rd < 32,
        ensures
            Self::jumped(
                *old(self),
                *final(self),
                r,
                rd as int,
                old(self).state.pc.wrapping_add(j_imm as u32),
            ),
    {
        let link = self.state.pc.wrapping_add(self.instsz);
        let target = self.state.pc.wrapping_add(j_imm as u32);
        self.write_rd(rd, link);
        self.end_jump(target)
    }

    /// Jump and link register.
    pub fn jalr(&mut self, rd: usize, rs1: usize, i_imm: i32) -> (r: Result<(), CpuError>)
        requires
            rd < 32,
            rs1 < 32,
        ensures
            Self::jumped(
                *old(self),
                *final(self),
                r,
                rd as int,
                old(self).state.x@[rs1 as int].wrapping_add(i_imm as u32),
            ),
    {
        let dst_base = self.state.x[rs1];
        let link = self.state.pc.wrapping_add(self.instsz);
        let target = dst_base.wrapping_add(i_imm as u32);
        self.write_rd(rd, link);
        self.end_jump(target)
    }

    /// Branch if equal.
    pub fn beq(&mut self, rs1: usize, rs2: usize, b_imm: i32) -> (r: Result<(), CpuError>)
        requires
            rs1 < 32,
            rs2 < 32,
        ensures
            Self::branched(
                *old(self),
                *final(self),
                r,
                old(self).state.x@[rs1 as int] == old(self).state.x@[rs2 as int],
                b_imm,
            ),
    {
        if self.state.x[rs1] == self.state.x[rs2] {
            let target = self.state.pc.wrapping_add(b_imm as u32);
            self.end_jump(target)
        } else {
            self.advance_pc();
            Ok(())
        }
    }

    /// Branch if not equal.
    pub fn bne(&mut self, rs1: usize, rs2: usize, b_imm: i32) -> (r: Result<(), CpuError>)
        requires
            rs1 < 32,
            rs2 < 32,
        ensures
            Self::branched(
                *old(self),
                *final(self),
                r,
                old(self).state.x@[rs1 as int] != old(self).state.x@[rs2 as int],
                b_imm,
            ),
    {
        if self.state.x[rs1] != self.state.x[rs2] {
            let target = self.state.pc.wrapping_add(b_imm as u32);
            self.end_jump(target)
        } else {
            self.advance_pc();
            Ok(())
        }
    }

    /// Branch if less than, signed.
    pub fn blt(&mut self, rs1: usize, rs2: usize, b_imm: i32) -> (r: Result<(), CpuError>)
        requires
            rs1 < 32,
            rs2 < 32,
        ensures
            Self::branched(
                *old(self),
                *final(self),
                r,
                (old(self).state.x@[rs1 as int] as i32) < (old(self).state.x@[rs2 as int] as i32),
                b_imm,
            ),
    {
        #[verifier::truncate]
        let a = self.state.x[rs1] as i32;
        #[verifier::truncate]
        let b = self.state.x[rs2] as i32;
        if a < b {
            let target = self.state.pc.wrapping_add(b_imm as u32);
            self.end_jump(target)
        } else {
            self.advance_pc();
            Ok(())
        }
    }

    /// Branch if greater or equal, signed.
    pub fn bge(&mut self, rs1: usize, rs2: usize, b_imm: i32) -> (r: Result<(), CpuError>)
        requires
            rs1 < 32,
            rs2 < 32,
        ensures
            Self::branched(
                *old(self),
                *final(self),
                r,
                (old(self).state.x@[rs1 as int] as i32) >= (old(self).state.x@[rs2 as int] as i32),
                b_imm,
            ),
    {
        #[verifier::truncate]
        let a = self.state.x[rs1] as i32;
        #[verifier::truncate]
        let b = self.state.x[rs2] as i32;
        if a >= b {
            let target = self.state.pc.wrapping_add(b_imm as u32);
            self.end_jump(target)
        } else {
            self.advance_pc();
            Ok(())
        }
    }

    /// Branch if less than, unsigned.
    pub fn bltu(&mut self, rs1: usize, rs2: usize, b_imm: i32) -> (r: Result<(), CpuError>)
        requires
            rs1 < 32,
            rs2 < 32,
        ensures
            Self::branched(
                *old(self),
                *final(self),
                r,
                old(self).state.x@[rs1 as int] < old(self).state.x@[rs2 as int],
                b_imm,
            ),
    {
        if self.state.x[rs1] < self.state.x[rs2] {
            let target = self.state.pc.wrapping_add(b_imm as u32);
            self.end_jump(target)
        } else {
            self.advance_pc();
            Ok(())
        }
    }

    /// Branch if greater or equal, unsigned.
    pub fn bgeu(&mut self, rs1: usize, rs2: usize, b_imm: i32) -> (r: Result<(), CpuError>)
        requires
            rs1 < 32,
            rs2 < 32,
        ensures
            Self::branched(
                *old(self),
                *final(self),
                r,
                old(self).state.x@[rs1 as int] >= old(self).state.x@[rs2 as int],
                b_imm,
            ),
    {
        if self.state.x[rs1] >= self.state.x[rs2] {
            let target = self.state.pc.wrapping_add(b_imm as u32);
            self.end_jump(target)
        } else {
            self.advance_pc();
            Ok(())
        }
    }

    /// Load byte, sign-extended.
    pub fn lb(&mut self, rd: usize, rs1: usize, i_imm: i32) -> (r: Result<(), CpuError>)
        requires
            rd < 32,
            rs1 < 32,
        ensures
            Self::loaded(*old(self), *final(self), r, rd as int),
            r is Ok ==> exists|v: u64|
                final(self).state.x@ == spec_wx(old(self).state.x@, rd as int, spec_sext8(v)),
    {
        let addr = self.state.x[rs1].wrapping_add(i_imm as u32);
        match self.mem.access(addr, MemoryAccess::Load(1)) {
            Some(v) => {
                #[verifier::truncate]
                let b = v as u8;
                #[verifier::truncate]
                let sv = (b as i8) as u32;
                proof {
                    assert(sv == spec_sext8(v));
                }
                self.write_rd(rd, sv);
                self.advance_pc();
                Ok(())
            },
            None => {
                self.advance_pc();
                Err(CpuError::IllegalAccess)
            },
        }
    }

    /// Load halfword, sign-extended.
    pub fn lh(&mut self, rd: usize, rs1: usize, i_imm: i32) -> (r: Result<(), CpuError>)
        requires
            rd < 32,
            rs1 < 32,
        ensures
            Self::loaded(*old(self), *final(self), r, rd as int),
            r is Ok ==> exists|v: u64|
                final(self).state.x@ == spec_wx(old(self).state.x@, rd as int, spec_sext16(v)),
    {
        let addr = self.state.x[rs1].wrapping_add(i_imm as u32);
        match self.mem.access(addr, MemoryAccess::Load(2)) {
            Some(v) => {
                #[verifier::truncate]
                let h = v as u16;
                #[verifier::truncate]
                let sv = (h as i16) as u32;
                proof {
                    assert(sv == spec_sext16(v));
                }
                self.write_rd(rd, sv);
                self.advance_pc();
                Ok(())
            },
            None => {
                self.advance_pc();
                Err(CpuError::IllegalAccess)
            },
        }
    }

    /// Load word.
    pub fn lw(&mut self, rd: usize, rs1: usize, i_imm: i32) -> (r: Result<(), CpuError>)
        requires
            rd < 32,
            rs1 < 32,
        ensures
            Self::loaded(*old(self), *final(self), r, rd as int),
    {
        let addr = self.state.x[rs1].wrapping_add(i_imm as u32);
        match self.mem.access(addr, MemoryAccess::Load(4)) {
            Some(v) => {
                #[verifier::truncate]
                let sv = v as u32;
                self.write_rd(rd, sv);
                self.advance_pc();
                Ok(())
            },
            None => {
                self.advance_pc();
                Err(CpuError::IllegalAccess)
            },
        }
    }

    /// Load byte, zero-extended.
    pub fn lbu(&mut self, rd: usize, rs1: usize, i_imm: i32) -> (r: Result<(), CpuError>)
        requires
            rd < 32,
            rs1 < 32,
        ensures
            Self::loaded(*old(self), *final(self), r, rd as int),
            r is Ok ==> exists|v: u64|
                final(self).state.x@ == spec_wx(old(self).state.x@, rd as int, spec_zext8(v)),
    {
        let addr = self.state.x[rs1].wrapping_add(i_imm as u32);
        match self.mem.access(addr, MemoryAccess::Load(1)) {
            Some(v) => {
                #[verifier::truncate]
                let b = v as u8;
                proof {
                    assert((b as u32) == spec_zext8(v));
                }
                self.write_rd(rd, b as u32);
                self.advance_pc();
                Ok(())
            },
            None => {
                self.advance_pc();
                Err(CpuError::IllegalAccess)
            },
        }
    }

    /// Load halfword, zero-extended.
    pub fn lhu(&mut self, rd: usize, rs1: usize, i_imm: i32) -> (r: Result<(), CpuError>)
        requires
            rd < 32,
            rs1 < 32,
        ensures
            Self::loaded(*old(self), *final(self), r, rd as int),
            r is Ok ==> exists|v: u64|
                final(self).state.x@ == spec_wx(old(self).state.x@, rd as int, spec_zext16(v)),
    {
        let addr = self.state.x[rs1].wrapping_add(i_imm as u32);
        match self.mem.access(addr, MemoryAccess::Load(2)) {
            Some(v) => {
                #[verifier::truncate]
                let h = v as u16;
                proof {
                    assert((h as u32) == spec_zext16(v));
                }
                self.write_rd(rd, h as u32);
                self.advance_pc();
                Ok(())
            },
            None => {
                self.advance_pc();
                Err(CpuError::IllegalAccess)
            },
        }
    }

    /// Store byte.
    pub fn sb(&mut self, rs1: usize, rs2: usize, s_imm: i32) -> (r: Result<(), CpuError>)
        requires
            rs1 < 32,
            rs2 < 32,
        ensures
            Self::stored(*old(self), *final(self), r),
    {
        let addr = self.state.x[rs1].wrapping_add(s_imm as u32);
        let value = (self.state.x[rs2] & 0xff) as u64;
        let ok = self.mem.access(addr, MemoryAccess::Store(1, value));
        self.advance_pc();
        match ok {
            Some(_) => Ok(()),
            None => Err(CpuError::IllegalAccess),
        }
    }

    /// Store halfword.
    pub fn sh(&mut self, rs1: usize, rs2: usize, s_imm: i32) -> (r: Result<(), CpuError>)
        requires
            rs1 < 32,
            rs2 < 32,
        ensures
            Self::stored(*old(self), *final(self), r),
    {
        let addr = self.state.x[rs1].wrapping_add(s_imm as u32);
        let value = (self.state.x[rs2] & 0xffff) as u64;
        let ok = self.mem.access(addr, MemoryAccess::Store(2, value));
        self.advance_pc();
        match ok {
            Some(_) => Ok(()),
            None => Err(CpuError::IllegalAccess),
        }
    }

    /// Store word.
    pub fn sw(&mut self, rs1: usize, rs2: usize, s_imm: i32) -> (r: Result<(), CpuError>)
        requires
            rs1 < 32,
            rs2 < 32,
        ensures
            Self::stored(*old(self), *final(self), r),
    {
        let addr = self.state.x[rs1].wrapping_add(s_imm as u32);
        let value = self.state.x[rs2] as u64;
        let ok = self.mem.access(addr, MemoryAccess::Store(4, value));
        self.advance_pc();
        match ok {
            Some(_) => Ok(()),
            None => Err(CpuError::IllegalAccess),
        }
    }

    /// Set if less than immediate, signed.
    pub fn slti(&mut self, rd: usize, rs1: usize, i_imm: i32) -> (r: Result<(), CpuError>)
        requires
            rd < 32,
            rs1 < 32,
        ensures
            r is Ok,
            Self::only_xw(
                *old(self),
                *final(self),
                rd as int,
                if (old(self).state.x@[rs1 as int] as i32) < i_imm {
                    1u32
                } else {
                    0u32
                },
            ),
    {
        #[verifier::truncate]
        let a = self.state.x[rs1] as i32;
        let v: u32 = if a < i_imm {
            1
        } else {
            0
        };
        self.write_rd(rd, v);
        self.advance_pc();
        Ok(())
    }

    /// Set if less than immediate, unsigned.
    pub fn sltiu(&mut self, rd: usize, rs1: usize, i_imm: i32) -> (r: Result<(), CpuError>)
        requires
            rd < 32,
            rs1 < 32,
        ensures
            r is Ok,
            Self::only_xw(
                *old(self),
                *final(self),
                rd as int,
                if old(self).state.x@[rs1 as int] < i_imm as u32 {
                    1u32
                } else {
                    0u32
                },
            ),
    {
        let v: u32 = if self.state.x[rs1] < i_imm as u32 {
            1
        } else {
            0
        };
        self.write_rd(rd, v);
        self.advance_pc();
        Ok(())
    }

    /// Exclusive or with immediate.
    pub fn xori(&mut self, rd: usize, rs1: usize, i_imm: i32) -> (r: Result<(), CpuError>)
        requires
            rd < 32,
            rs1 < 32,
        ensures
            r is Ok,
            Self::only_xw(
                *old(self),
                *final(self),
                rd as int,
                old(self).state.x@[rs1 as int] ^ (i_imm as u32),
            ),
    {
        let v = self.state.x[rs1] ^ (i_imm as u32);
        self.write_rd(rd, v);
        self.advance_pc();
        Ok(())
    }

    /// Or with immediate.
    pub fn ori(&mut self, rd: usize, rs1: usize, i_imm: i32) -> (r: Result<(), CpuError>)
        requires
            rd < 32,
            rs1 < 32,
        ensures
            r is Ok,
            Self::only_xw(
                *old(self),
                *final(self),
                rd as int,
                old(self).state.x@[rs1 as int] | (i_imm as u32),
            ),
    {
        let v = self.state.x[rs1] | (i_imm as u32);
        self.write_rd(rd, v);
        self.advance_pc();
        Ok(())
    }

    /// And with immediate.
    pub fn andi(&mut self, rd: usize, rs1: usize, i_imm: i32) -> (r: Result<(), CpuError>)
        requires
            rd < 32,
            rs1 < 32,
        ensures
            r is Ok,
            Self::only_xw(
                *old(self),
                *final(self),
                rd as int,
                old(self).state.x@[rs1 as int] & (i_imm as u32),
            ),
    {
        let v = self.state.x[rs1] & (i_imm as u32);
        self.write_rd(rd, v);
        self.advance_pc();
        Ok(())
    }

    /// Shift left logical by immediate.
    pub fn slli(&mut self, rd: usize, rs1: usize, shamt: u32) -> (r: Result<(), CpuError>)
        requires
            rd < 32,
            rs1 < 32,
        ensures
            r is Ok,
            Self::only_xw(
                *old(self),
                *final(self),
                rd as int,
                old(self).state.x@[rs1 as int].wrapping_shl(shamt),
            ),
    {
        let v = self.state.x[rs1].wrapping_shl(shamt);
        self.write_rd(rd, v);
        self.advance_pc();
        Ok(())
    }

    /// Shift right logical by immediate.
    pub fn srli(&mut self, rd: usize, rs1: usize, shamt: u32) -> (r: Result<(), CpuError>)
        requires
            rd < 32,
            rs1 < 32,
        ensures
            r is Ok,
            Self::only_xw(
                *old(self),
                *final(self),
                rd as int,
                old(self).state.x@[rs1 as int].wrapping_shr(shamt),
            ),
    {
        let v = self.state.x[rs1].wrapping_shr(shamt);
        self.write_rd(rd, v);
        self.advance_pc();
        Ok(())
    }

    /// Shift right arithmetic by immediate.
    pub fn srai(&mut self, rd: usize, rs1: usize, shamt: u32) -> (r: Result<(), CpuError>)
        requires
            rd < 32,
            rs1 < 32,
        ensures
            r is Ok,
            Self::only_xw(
                *old(self),
                *final(self),
                rd as int,
                ((old(self).state.x@[rs1 as int] as i32).wrapping_shr(shamt)) as u32,
            ),
    {
        #[verifier::truncate]
        let a = self.state.x[rs1] as i32;
        #[verifier::truncate]
        let v = a.wrapping_shr(shamt) as u32;
        self.write_rd(rd, v);
        self.advance_pc();
        Ok(())
    }

    /// Add registers, with 32-bit wrap.
    pub fn add(&mut self, rd: usize, rs1: usize, rs2: usize) -> (r: Result<(), CpuError>)
        requires
            rd < 32,
            rs1 < 32,
            rs2 < 32,
        ensures
            r is Ok,
            Self::only_xw(
                *old(self),
                *final(self),
                rd as int,
                old(self).state.x@[rs1 as int].wrapping_add(old(self).state.x@[rs2 as int]),
            ),
    {
        let v = self.state.x[rs1].wrapping_add(self.state.x[rs2]);
        self.write_rd(rd, v);
        self.advance_pc();
        Ok(())
    }

    /// Shift left logical by register.
    pub fn sll(&mut self, rd: usize, rs1: usize, rs2: usize) -> (r: Result<(), CpuError>)
        requires
            rd < 32,
            rs1 < 32,
            rs2 < 32,
        ensures
            r is Ok,
            Self::only_xw(
                *old(self),
                *final(self),
                rd as int,
                old(self).state.x@[rs1 as int].wrapping_shl(old(self).state.x@[rs2 as int]),
            ),
    {
        let v = self.state.x[rs1].wrapping_shl(self.state.x[rs2]);
        self.write_rd(rd, v);
        self.advance_pc();
        Ok(())
    }

    /// Set if less than, signed.
    pub fn slt(&mut self, rd: usize, rs1: usize, rs2: usize) -> (r: Result<(), CpuError>)
        requires
            rd < 32,
            rs1 < 32,
            rs2 < 32,
        ensures
            r is Ok,
            Self::only_xw(
                *old(self),
                *final(self),
                rd as int,
                if (old(self).state.x@[rs1 as int] as i32) < (old(self).state.x@[rs2 as int]
                    as i32) {
                    1u32
                } else {
                    0u32
                },
            ),
    {
        #[verifier::truncate]
        let a = self.state.x[rs1] as i32;
        #[verifier::truncate]
        let b = self.state.x[rs2] as i32;
        let v: u32 = if a < b {
            1
        } else {
            0
        };
        self.write_rd(rd, v);
        self.advance_pc();
        Ok(())
    }

    /// Set if less than, unsigned.
    pub fn sltu(&mut self, rd: usize, rs1: usize, rs2: usize) -> (r: Result<(), CpuError>)
        requires
            rd < 32,
            rs1 < 32,
            rs2 < 32,
        ensures
            r is Ok,
            Self::only_xw(
                *old(self),
                *final(self),
                rd as int,
                if old(self).state.x@[rs1 as int] < old(self).state.x@[rs2 as int] {
                    1u32
                } else {
                    0u32
                },
            ),
    {
        let v: u32 = if self.state.x[rs1] < self.state.x[rs2] {
            1
        } else {
            0
        };
        self.write_rd(rd, v);
        self.advance_pc();
        Ok(())
    }

    /// Exclusive or registers.
    pub fn xor(&mut self, rd: usize, rs1: usize, rs2: usize) -> (r: Result<(), CpuError>)
        requires
            rd < 32,
            rs1 < 32,
            rs2 < 32,
        ensures
            r is Ok,
            Self::only_xw(
                *old(self),
                *final(self),
                rd as int,
                old(self).state.x@[rs1 as int] ^ old(self).state.x@[rs2 as int],
            ),
    {
        let v = self.state.x[rs1] ^ self.state.x[rs2];
        self.write_rd(rd, v);
        self.advance_pc();
        Ok(())
    }

    /// Shift right logical by register.
    pub fn srl(&mut self, rd: usize, rs1: usize, rs2: usize) -> (r: Result<(), CpuError>)
        requires
            rd < 32,
            rs1 < 32,
            rs2 < 32,
        ensures
            r is Ok,
            Self::only_xw(
                *old(self),
                *final(self),
                rd as int,
                old(self).state.x@[rs1 as int].wrapping_shr(old(self).state.x@[rs2 as int]),
            ),
    {
        let v = self.state.x[rs1].wrapping_shr(self.state.x[rs2]);
        self.write_rd(rd, v);
        self.advance_pc();
        Ok(())
    }

    /// Or registers.
    pub fn or(&mut self, rd: usize, rs1: usize, rs2: usize) -> (r: Result<(), CpuError>)
        requires
            rd < 32,
            rs1 < 32,
            rs2 < 32,
        ensures
            r is Ok,
            Self::only_xw(
                *old(self),
                *final(self),
                rd as int,
                old(self).state.x@[rs1 as int] | old(self).state.x@[rs2 as int],
            ),
    {
        let v = self.state.x[rs1] | self.state.x[rs2];
        self.write_rd(rd, v);
        self.advance_pc();
        Ok(())
    }

    /// And registers.
    pub fn and(&mut self, rd: usize, rs1: usize, rs2: usize) -> (r: Result<(), CpuError>)
        requires
            rd < 32,
            rs1 < 32,
            rs2 < 32,
        ensures
            r is Ok,
            Self::only_xw(
                *old(self),
                *final(self),
                rd as int,
                old(self).state.x@[rs1 as int] & old(self).state.x@[rs2 as int],
            ),
    {
        let v = self.state.x[rs1] & self.state.x[rs2];
        self.write_rd(rd, v);
        self.advance_pc();
        Ok(())
    }

    /// Subtract registers, with 32-bit wrap.
    pub fn sub(&mut self, rd: usize, rs1: usize, rs2: usize) -> (r: Result<(), CpuError>)
        requires
            rd < 32,
            rs1 < 32,
            rs2 < 32,
        ensures
            r is Ok,
            Self::only_xw(
                *old(self),
                *final(self),
                rd as int,
                old(self).state.x@[rs1 as int].wrapping_sub(old(self).state.x@[rs2 as int]),
            ),
    {
        let v = self.state.x[rs1].wrapping_sub(self.state.x[rs2]);
        self.write_rd(rd, v);
        self.advance_pc();
        Ok(())
    }

    /// Shift right arithmetic by register.
    pub fn sra(&mut self, rd: usize, rs1: usize, rs2: usize) -> (r: Result<(), CpuError>)
        requires
            rd < 32,
            rs1 < 32,
            rs2 < 32,
        ensures
            r is Ok,
            Self::only_xw(
                *old(self),
                *final(self),
                rd as int,
                ((old(self).state.x@[rs1 as int] as i32).wrapping_shr(
                    old(self).state.x@[rs2 as int],
                )) as u32,
            ),
    {
        #[verifier::truncate]
        let a = self.state.x[rs1] as i32;
        #[verifier::truncate]
        let v = a.wrapping_shr(self.state.x[rs2]) as u32;
        self.write_rd(rd, v);
        self.advance_pc();
        Ok(())
    }

    /// Memory fence: a no-op in this strictly sequential interpreter.
    pub fn fence(&mut self, _pred: u32, _succ: u32) -> (r: Result<(), CpuError>)
        ensures
            r is Ok,
            *final(self) == (Self {
                state: CpuState {
                    pc: old(self).state.pc.wrapping_add(old(self).instsz),
                    ..old(self).state
                },
                ..*old(self)
            }),
    {
        self.advance_pc();
        Ok(())
    }

    /// Instruction fence: a no-op in this strictly sequential interpreter.
    pub fn fence_i(&mut self) -> (r: Result<(), CpuError>)
        ensures
            r is Ok,
            *final(self) == (Self {
                state: CpuState {
                    pc: old(self).state.pc.wrapping_add(old(self).instsz),
                    ..old(self).state
                },
                ..*old(self)
            }),
    {
        self.advance_pc();
        Ok(())
    }

    /// Environment call: advance past the instruction, then stop.
    pub fn ecall(&mut self) -> (r: Result<(), CpuError>)
        ensures
            r == Err::<(), CpuError>(CpuError::Ecall),
            *final(self) == (Self {
                state: CpuState {
                    pc: old(self).state.pc.wrapping_add(old(self).instsz),
                    ..old(self).state
                },
                ..*old(self)
            }),
    {
        self.advance_pc();
        Err(CpuError::Ecall)
    }

    /// Environment break: advance past the instruction, then stop.
    pub fn ebreak(&mut self) -> (r: Result<(), CpuError>)
        ensures
            r == Err::<(), CpuError>(CpuError::Ebreak),
            *final(self) == (Self {
                state: CpuState {
                    pc: old(self).state.pc.wrapping_add(old(self).instsz),
                    ..old(self).state
                },
                ..*old(self)
            }),
    {
        self.advance_pc();
        Err(CpuError::Ebreak)
    }
}

} // verus!
