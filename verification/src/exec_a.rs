//! Execution handlers for the "A" atomic extension.
//!
//! The interpreter enforces 4-byte alignment on every atomic target;
//! misalignment stops with `MisalignedAccess` after the program counter has
//! advanced. The read-modify-write operations load the current word, commit
//! it to `rd` (respecting the zero-register rule), combine the value now in
//! `rd` with `rs2`, and store the result back. The `aq`/`rl` ordering bits
//! are accepted and ignored: the model is single-threaded.

use vstd::prelude::*;

use crate::fp::Fpu;
use crate::interp::{spec_wx, Interp};
use crate::types::{Clock, CpuError, CpuState, Memory, MemoryAccess};

verus! {

impl<M: Memory, C: Clock, F: Fpu> Interp<M, C, F> {
    /// The shape shared by the read-modify-write atomics: the program
    /// counter always advances; a misaligned target stops before any access;
    /// on success `rd` holds the loaded word; a refused load leaves the
    /// registers alone, a refused store leaves `rd` already written.
    pub open spec fn amo_done(pre: Self, post: Self, r: Result<(), CpuError>, rd: int, rs1: int) -> bool {
        let addr = pre.state.x@[rs1];
        &&& post.env_unchanged_but_mem(pre)
        &&& post.state.f == pre.state.f
        &&& post.state.fcsr == pre.state.fcsr
        &&& post.state.reservation == pre.state.reservation
        &&& post.state.pc == pre.state.pc.wrapping_add(pre.instsz)
        &&& if addr % 4 != 0 {
            r == Err::<(), CpuError>(CpuError::MisalignedAccess) && post.state.x == pre.state.x
        } else {
            match r {
                Ok(_) => exists|v: u32| post.state.x@ == #[trigger] spec_wx(pre.state.x@, rd, v),
                Err(e) => {
                    &&& e == CpuError::IllegalAccess
                    &&& (post.state.x == pre.state.x || exists|v: u32|
                        post.state.x@ == #[trigger] spec_wx(pre.state.x@, rd, v))
                },
            }
        }
    }

    /// The front half of a read-modify-write atomic: check alignment, load
    /// the word at the address in `rs1`, and commit it to `rd`. On failure
    /// the program counter has already advanced; on success it has not, and
    /// the returned address is the (old) value of `rs1`.
    fn amo_load(&mut self, rd: usize, rs1: usize) -> (r: Result<u32, CpuError>)
        requires
            rd < 32,
            rs1 < 32,
        ensures
            ({
                let pre = *old(self);
                let post = *final(self);
                let addr = pre.state.x@[rs1 as int];
                &&& post.env_unchanged_but_mem(pre)
                &&& post.state.f == pre.state.f
                &&& post.state.fcsr == pre.state.fcsr
                &&& post.state.reservation == pre.state.reservation
                &&& match r {
                    Ok(a) => {
                        &&& a == addr
                        &&& addr % 4 == 0
                        &&& post.state.pc == pre.state.pc
                        &&& exists|v: u32|
                            post.state.x@ == #[trigger] spec_wx(pre.state.x@, rd as int, v)
                    },
                    Err(e) => {
                        &&& post.state.pc == pre.state.pc.wrapping_add(pre.instsz)
                        &&& post.state.x == pre.state.x
                        &&& if addr % 4 != 0 {
                            e == CpuError::MisalignedAccess
                        } else {
                            e == CpuError::IllegalAccess
                        }
                    },
                }
            }),
    {
        let addr = self.state.x[rs1];
        if addr % 4 != 0 {
            self.advance_pc();
            return Err(CpuError::MisalignedAccess);
        }
        let ghost pre = *self;
        match self.mem.access(addr, MemoryAccess::Load(4)) {
            Some(v) => {
                #[verifier::truncate]
                let w = v as u32;
                self.write_rd(rd, w);
                proof {
                    assert(self.state.x@ == spec_wx(pre.state.x@, rd as int, w));
                }
                Ok(addr)
            },
            None => {
                self.advance_pc();
                Err(CpuError::IllegalAccess)
            },
        }
    }

    /// The back half of a read-modify-write atomic: store the combined word
    /// and advance.
    fn amo_store(&mut self, addr: u32, value: u32) -> (r: Result<(), CpuError>)
        ensures
            ({
                let pre = *old(self);
                let post = *final(self);
                &&& post.env_unchanged_but_mem(pre)
                &&& post.state == (CpuState { pc: post.state.pc, ..pre.state })
                &&& post.state.pc == pre.state.pc.wrapping_add(pre.instsz)
                &&& match r {
                    Ok(_) => true,
                    Err(e) => e == CpuError::IllegalAccess,
                }
            }),
    {
        let ok = self.mem.access(addr, MemoryAccess::Store(4, value as u64));
        self.advance_pc();
        match ok {
            Some(_) => Ok(()),
            None => Err(CpuError::IllegalAccess),
        }
    }

    /// Load reserved: load the word and record the reservation.
    pub fn lr_w(&mut self, rd: usize, rs1: usize, _aq: bool, _rl: bool) -> (r: Result<
        (),
        CpuError,
    >)
        requires
            rd < 32,
            rs1 < 32,
        ensures
            ({
                let pre = *old(self);
                let post = *final(self);
                let addr = pre.state.x@[rs1 as int];
                &&& post.env_unchanged_but_mem(pre)
                &&& post.state.f == pre.state.f
                &&& post.state.fcsr == pre.state.fcsr
                &&& post.state.pc == pre.state.pc.wrapping_add(pre.instsz)
                &&& if addr % 4 != 0 {
                    &&& r == Err::<(), CpuError>(CpuError::MisalignedAccess)
                    &&& post.state.x == pre.state.x
                    &&& post.state.reservation == pre.state.reservation
                } else {
                    match r {
                        Ok(_) => {
                            &&& exists|v: u32|
                                post.state.x@ == #[trigger] spec_wx(pre.state.x@, rd as int, v)
                            &&& post.state.reservation == Some(addr)
                        },
                        Err(e) => {
                            &&& e == CpuError::IllegalAccess
                            &&& post.state.x == pre.state.x
                            &&& post.state.reservation == pre.state.reservation
                        },
                    }
                }
            }),
    {
        let addr = self.state.x[rs1];
        if addr % 4 != 0 {
            self.advance_pc();
            return Err(CpuError::MisalignedAccess);
        }
        let ghost pre = *self;
        match self.mem.access(addr, MemoryAccess::Load(4)) {
            Some(v) => {
                #[verifier::truncate]
                let w = v as u32;
                self.state.reservation = Some(addr);
                self.write_rd(rd, w);
                proof {
                    assert(self.state.x@ == spec_wx(pre.state.x@, rd as int, w));
                }
                self.advance_pc();
                Ok(())
            },
            None => {
                self.advance_pc();
                Err(CpuError::IllegalAccess)
            },
        }
    }

    /// Store conditional: store only when the reservation matches the
    /// target; success writes 0 to `rd` and consumes the reservation,
    /// failure writes 1 without storing.
    pub fn sc_w(&mut self, rd: usize, rs1: usize, rs2: usize, _aq: bool, _rl: bool) -> (r: Result<
        (),
        CpuError,
    >)
        requires
            rd < 32,
            rs1 < 32,
            rs2 < 32,
        ensures
            ({
                let pre = *old(self);
                let post = *final(self);
                let addr = pre.state.x@[rs1 as int];
                &&& post.env_unchanged_but_mem(pre)
                &&& post.state.f == pre.state.f
                &&& post.state.fcsr == pre.state.fcsr
                &&& post.state.pc == pre.state.pc.wrapping_add(pre.instsz)
                &&& if addr % 4 != 0 {
                    &&& r == Err::<(), CpuError>(CpuError::MisalignedAccess)
                    &&& post.state.x == pre.state.x
                    &&& post.state.reservation == pre.state.reservation
                } else if pre.state.reservation == Some(addr) {
                    match r {
                        Ok(_) => {
                            &&& post.state.x@ == spec_wx(pre.state.x@, rd as int, 0u32)
                            &&& post.state.reservation is None
                        },
                        Err(e) => {
                            &&& e == CpuError::IllegalAccess
                            &&& post.state.x == pre.state.x
                            &&& post.state.reservation == pre.state.reservation
                        },
                    }
                } else {
                    &&& r is Ok
                    &&& post.state.x@ == spec_wx(pre.state.x@, rd as int, 1u32)
                    &&& post.state.reservation == pre.state.reservation
                }
            }),
    {
        let addr = self.state.x[rs1];
        if addr % 4 != 0 {
            self.advance_pc();
            return Err(CpuError::MisalignedAccess);
        }
        let reserved = match self.state.reservation {
            Some(a) => a == addr,
            None => false,
        };
        if reserved {
            let value = self.state.x[rs2];
            match self.mem.access(addr, MemoryAccess::Store(4, value as u64)) {
                Some(_) => {
                    self.write_rd(rd, 0);
                    self.state.reservation = None;
                    self.advance_pc();
                    Ok(())
                },
                None => {
                    self.advance_pc();
                    Err(CpuError::IllegalAccess)
                },
            }
        } else {
            self.write_rd(rd, 1);
            self.advance_pc();
            Ok(())
        }
    }

    /// Atomic swap.
    pub fn amoswap_w(&mut self, rd: usize, rs1: usize, rs2: usize, _aq: bool, _rl: bool) -> (r:
        Result<(), CpuError>)
        requires
            rd < 32,
            rs1 < 32,
            rs2 < 32,
        ensures
            Self::amo_done(*old(self), *final(self), r, rd as int, rs1 as int),
    {
        let addr = self.amo_load(rd, rs1)?;
        let v = self.state.x[rs2];
        self.amo_store(addr, v)
    }

    /// Atomic add.
    pub fn amoadd_w(&mut self, rd: usize, rs1: usize, rs2: usize, _aq: bool, _rl: bool) -> (r:
        Result<(), CpuError>)
        requires
            rd < 32,
            rs1 < 32,
            rs2 < 32,
        ensures
            Self::amo_done(*old(self), *final(self), r, rd as int, rs1 as int),
    {
        let addr = self.amo_load(rd, rs1)?;
        let v = self.state.x[rd].wrapping_add(self.state.x[rs2]);
        self.amo_store(addr, v)
    }

    /// Atomic exclusive or.
    pub fn amoxor_w(&mut self, rd: usize, rs1: usize, rs2: usize, _aq: bool, _rl: bool) -> (r:
        Result<(), CpuError>)
        requires
            rd < 32,
            rs1 < 32,
            rs2 < 32,
        ensures
            Self::amo_done(*old(self), *final(self), r, rd as int, rs1 as int),
    {
        let addr = self.amo_load(rd, rs1)?;
        let v = self.state.x[rd] ^ self.state.x[rs2];
        self.amo_store(addr, v)
    }

    /// Atomic and.
    pub fn amoand_w(&mut self, rd: usize, rs1: usize, rs2: usize, _aq: bool, _rl: bool) -> (r:
        Result<(), CpuError>)
        requires
            rd < 32,
            rs1 < 32,
            rs2 < 32,
        ensures
            Self::amo_done(*old(self), *final(self), r, rd as int, rs1 as int),
    {
        let addr = self.amo_load(rd, rs1)?;
        let v = self.state.x[rd] & self.state.x[rs2];
        self.amo_store(addr, v)
    }

    /// Atomic or.
    pub fn amoor_w(&mut self, rd: usize, rs1: usize, rs2: usize, _aq: bool, _rl: bool) -> (r:
        Result<(), CpuError>)
        requires
            rd < 32,
            rs1 < 32,
            rs2 < 32,
        ensures
            Self::amo_done(*old(self), *final(self), r, rd as int, rs1 as int),
    {
        let addr = self.amo_load(rd, rs1)?;
        let v = self.state.x[rd] | self.state.x[rs2];
        self.amo_store(addr, v)
    }

    /// Atomic minimum, signed.
    pub fn amomin_w(&mut self, rd: usize, rs1: usize, rs2: usize, _aq: bool, _rl: bool) -> (r:
        Result<(), CpuError>)
        requires
            rd < 32,
            rs1 < 32,
            rs2 < 32,
        ensures
            Self::amo_done(*old(self), *final(self), r, rd as int, rs1 as int),
    {
        let addr = self.amo_load(rd, rs1)?;
        #[verifier::truncate]
        let a = self.state.x[rd] as i32;
        #[verifier::truncate]
        let b = self.state.x[rs2] as i32;
        let v = if a < b {
            a
        } else {
            b
        };
        #[verifier::truncate]
        let v = v as u32;
        self.amo_store(addr, v)
    }

    /// Atomic maximum, signed.
    pub fn amomax_w(&mut self, rd: usize, rs1: usize, rs2: usize, _aq: bool, _rl: bool) -> (r:
        Result<(), CpuError>)
        requires
            rd < 32,
            rs1 < 32,
            rs2 < 32,
        ensures
            Self::amo_done(*old(self), *final(self), r, rd as int, rs1 as int),
    {
        let addr = self.amo_load(rd, rs1)?;
        #[verifier::truncate]
        let a = self.state.x[rd] as i32;
        #[verifier::truncate]
        let b = self.state.x[rs2] as i32;
        let v = if a > b {
            a
        } else {
            b
        };
        #[verifier::truncate]
        let v = v as u32;
        self.amo_store(addr, v)
    }

    /// Atomic minimum, unsigned.
    pub fn amominu_w(&mut self, rd: usize, rs1: usize, rs2: usize, _aq: bool, _rl: bool) -> (r:
        Result<(), CpuError>)
        requires
            rd < 32,
            rs1 < 32,
            rs2 < 32,
        ensures
            Self::amo_done(*old(self), *final(self), r, rd as int, rs1 as int),
    {
        let addr = self.amo_load(rd, rs1)?;
        let a = self.state.x[rd];
        let b = self.state.x[rs2];
        let v = if a < b {
            a
        } else {
            b
        };
        self.amo_store(addr, v)
    }

    /// Atomic maximum, unsigned.
    pub fn amomaxu_w(&mut self, rd: usize, rs1: usize, rs2: usize, _aq: bool, _rl: bool) -> (r:
        Result<(), CpuError>)
        requires
            rd < 32,
            rs1 < 32,
            rs2 < 32,
        ensures
            Self::amo_done(*old(self), *final(self), r, rd as int, rs1 as int),
    {
        let addr = self.amo_load(rd, rs1)?;
        let a = self.state.x[rd];
        let b = self.state.x[rs2];
        let v = if a > b {
            a
        } else {
            b
        };
        self.amo_store(addr, v)
    }
}

} // verus!
