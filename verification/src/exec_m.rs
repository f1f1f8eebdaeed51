//! Execution handlers for the "M" integer multiply/divide extension.
//!
//! Division follows the RISC-V convention: division by zero yields an
//! all-ones quotient and a remainder equal to the dividend; the one signed
//! overflow case (most-negative dividend, divisor minus one) yields the
//! dividend as quotient and zero as remainder.

use vstd::prelude::*;

use vstd::arithmetic::div_mod::{
    lemma_div_is_ordered, lemma_div_is_ordered_by_denominator, lemma_div_nonincreasing,
    lemma_div_pos_is_pos,
};

use crate::fp::Fpu;
use crate::interp::Interp;
use crate::types::{Clock, CpuError, Memory};

verus! {

/// The signed quotient the `div` instruction commits for operand patterns
/// `a` and `b`.
pub open spec fn spec_div32(a: u32, b: u32) -> u32 {
    let x = a as i32;
    let y = b as i32;
    if y == 0 {
        0xffff_ffffu32
    } else if x == i32::MIN && y == -1 {
        a
    } else {
        match x.checked_div(y) {
            Some(q) => q as u32,
            None => a,
        }
    }
}

/// The signed remainder the `rem` instruction commits.
pub open spec fn spec_rem32(a: u32, b: u32) -> u32 {
    let x = a as i32;
    let y = b as i32;
    if y == 0 {
        a
    } else if x == i32::MIN && y == -1 {
        0u32
    } else {
        match x.checked_rem(y) {
            Some(q) => q as u32,
            None => a,
        }
    }
}

/// The unsigned quotient the `divu` instruction commits.
pub open spec fn spec_divu32(a: u32, b: u32) -> u32 {
    if b == 0 {
        0xffff_ffffu32
    } else {
        (a / b) as u32
    }
}

/// The unsigned remainder the `remu` instruction commits.
pub open spec fn spec_remu32(a: u32, b: u32) -> u32 {
    if b == 0 {
        a
    } else {
        (a % b) as u32
    }
}

/// Truncating signed division never leaves the 32-bit range once the
/// divide-by-zero and most-negative-overflow patterns are set aside.
proof fn lemma_div32_in_range(x: i32, y: i32)
    requires
        y != 0,
        !(x == i32::MIN && y == -1),
    ensures
        x.checked_div(y) is Some,
{
    let xi = x as int;
    let yi = y as int;
    if xi == 0 {
    } else if xi > 0 && yi > 0 {
        lemma_div_pos_is_pos(xi, yi);
        lemma_div_nonincreasing(xi, yi);
    } else if xi < 0 && yi < 0 {
        let u = xi * -1;
        let d = yi * -1;
        lemma_div_pos_is_pos(u, d);
        if d == 1 {
            lemma_div_nonincreasing(u, d);
        } else {
            lemma_div_is_ordered_by_denominator(u, 2, d);
            lemma_div_is_ordered(u, 0x8000_0000, 2);
        }
    } else if xi < 0 {
        let u = xi * -1;
        lemma_div_pos_is_pos(u, yi);
        lemma_div_nonincreasing(u, yi);
    } else {
        let d = yi * -1;
        lemma_div_pos_is_pos(xi, d);
        lemma_div_nonincreasing(xi, d);
    }
}

/// Truncating signed division of the operand patterns `a` by `b`.
fn exec_div32(a: u32, b: u32) -> (r: u32)
    ensures
        r == spec_div32(a, b),
{
    #[verifier::truncate]
    let x = a as i32;
    #[verifier::truncate]
    let y = b as i32;
    if y == 0 {
        0xffff_ffff
    } else if x == i32::MIN && y == -1 {
        a
    } else {
        proof {
            lemma_div32_in_range(x, y);
        }
        let q = x.checked_div(y).unwrap();
        #[verifier::truncate]
        (q as u32)
    }
}

/// Truncating signed remainder of the operand patterns `a` by `b`.
fn exec_rem32(a: u32, b: u32) -> (r: u32)
    ensures
        r == spec_rem32(a, b),
{
    #[verifier::truncate]
    let x = a as i32;
    #[verifier::truncate]
    let y = b as i32;
    if y == 0 {
        a
    } else if x == i32::MIN && y == -1 {
        0
    } else {
        let q = x.checked_rem(y).unwrap();
        #[verifier::truncate]
        (q as u32)
    }
}

impl<M: Memory, C: Clock, F: Fpu> Interp<M, C, F> {
    /// Multiply, low 32 bits of the product.
    pub fn mul(&mut self, rd: usize, rs1: usize, rs2: usize) -> (r: Result<(), CpuError>)
        requires
            rd < 32,
            rs1 < 32,
            rs2 < 32,
        ensures
            r is Ok,
            Self::only_xw(
                *old(self),
                *final(self),
                rd as int,
                old(self).state.x@[rs1 as int].wrapping_mul(old(self).state.x@[rs2 as int]),
            ),
    {
        let v = self.state.x[rs1].wrapping_mul(self.state.x[rs2]);
        self.write_rd(rd, v);
        self.advance_pc();
        Ok(())
    }

    /// Multiply, high 32 bits of the signed product.
    pub fn mulh(&mut self, rd: usize, rs1: usize, rs2: usize) -> (r: Result<(), CpuError>)
        requires
            rd < 32,
            rs1 < 32,
            rs2 < 32,
        ensures
            r is Ok,
            Self::only_xw(
                *old(self),
                *final(self),
                rd as int,
                ((((old(self).state.x@[rs1 as int] as i32) as i64).wrapping_mul(
                    (old(self).state.x@[rs2 as int] as i32) as i64,
                )) >> 32u32) as u32,
            ),
    {
        #[verifier::truncate]
        let x = (self.state.x[rs1] as i32) as i64;
        #[verifier::truncate]
        let y = (self.state.x[rs2] as i32) as i64;
        let p = x.wrapping_mul(y);
        proof {
            assert(x * y <= i64::MAX && x * y >= i64::MIN) by (nonlinear_arith)
                requires
                    -0x8000_0000 <= x <= 0x7fff_ffff,
                    -0x8000_0000 <= y <= 0x7fff_ffff,
            ;
        }
        #[verifier::truncate]
        let v = (p >> 32u32) as u32;
        self.write_rd(rd, v);
        self.advance_pc();
        Ok(())
    }

    /// Multiply, high 32 bits of the signed-by-unsigned product.
    pub fn mulhsu(&mut self, rd: usize, rs1: usize, rs2: usize) -> (r: Result<(), CpuError>)
        requires
            rd < 32,
            rs1 < 32,
            rs2 < 32,
        ensures
            r is Ok,
            Self::only_xw(
                *old(self),
                *final(self),
                rd as int,
                ((((old(self).state.x@[rs1 as int] as i32) as i64).wrapping_mul(
                    old(self).state.x@[rs2 as int] as i64,
                )) >> 32u32) as u32,
            ),
    {
        #[verifier::truncate]
        let x = (self.state.x[rs1] as i32) as i64;
        let y = self.state.x[rs2] as i64;
        let p = x.wrapping_mul(y);
        proof {
            assert(x * y <= i64::MAX && x * y >= i64::MIN) by (nonlinear_arith)
                requires
                    -0x8000_0000 <= x <= 0x7fff_ffff,
                    0 <= y <= 0xffff_ffff,
            ;
        }
        #[verifier::truncate]
        let v = (p >> 32u32) as u32;
        self.write_rd(rd, v);
        self.advance_pc();
        Ok(())
    }

    /// Multiply, high 32 bits of the unsigned product.
    pub fn mulhu(&mut self, rd: usize, rs1: usize, rs2: usize) -> (r: Result<(), CpuError>)
        requires
            rd < 32,
            rs1 < 32,
            rs2 < 32,
        ensures
            r is Ok,
            Self::only_xw(
                *old(self),
                *final(self),
                rd as int,
                (((old(self).state.x@[rs1 as int] as u64).wrapping_mul(
                    old(self).state.x@[rs2 as int] as u64,
                )) >> 32u32) as u32,
            ),
    {
        let x = self.state.x[rs1] as u64;
        let y = self.state.x[rs2] as u64;
        let p = x.wrapping_mul(y);
        proof {
            assert(x * y <= u64::MAX) by (nonlinear_arith)
                requires
                    0 <= x <= 0xffff_ffff,
                    0 <= y <= 0xffff_ffff,
            ;
        }
        #[verifier::truncate]
        let v = (p >> 32u32) as u32;
        self.write_rd(rd, v);
        self.advance_pc();
        Ok(())
    }

    /// Divide, signed.
    pub fn div(&mut self, rd: usize, rs1: usize, rs2: usize) -> (r: Result<(), CpuError>)
        requires
            rd < 32,
            rs1 < 32,
            rs2 < 32,
        ensures
            r is Ok,
            Self::only_xw(
                *old(self),
                *final(self),
                rd as int,
                spec_div32(old(self).state.x@[rs1 as int], old(self).state.x@[rs2 as int]),
            ),
    {
        let v = exec_div32(self.state.x[rs1], self.state.x[rs2]);
        self.write_rd(rd, v);
        self.advance_pc();
        Ok(())
    }

    /// Divide, unsigned.
    pub fn divu(&mut self, rd: usize, rs1: usize, rs2: usize) -> (r: Result<(), CpuError>)
        requires
            rd < 32,
            rs1 < 32,
            rs2 < 32,
        ensures
            r is Ok,
            Self::only_xw(
                *old(self),
                *final(self),
                rd as int,
                spec_divu32(old(self).state.x@[rs1 as int], old(self).state.x@[rs2 as int]),
            ),
    {
        let y = self.state.x[rs2];
        let v = if y == 0 {
            0xffff_ffff
        } else {
            self.state.x[rs1] / y
        };
        self.write_rd(rd, v);
        self.advance_pc();
        Ok(())
    }

    /// Remainder, signed.
    pub fn rem(&mut self, rd: usize, rs1: usize, rs2: usize) -> (r: Result<(), CpuError>)
        requires
            rd < 32,
            rs1 < 32,
            rs2 < 32,
        ensures
            r is Ok,
            Self::only_xw(
                *old(self),
                *final(self),
                rd as int,
                spec_rem32(old(self).state.x@[rs1 as int], old(self).state.x@[rs2 as int]),
            ),
    {
        let v = exec_rem32(self.state.x[rs1], self.state.x[rs2]);
        self.write_rd(rd, v);
        self.advance_pc();
        Ok(())
    }

    /// Remainder, unsigned.
    pub fn remu(&mut self, rd: usize, rs1: usize, rs2: usize) -> (r: Result<(), CpuError>)
        requires
            rd < 32,
            rs1 < 32,
            rs2 < 32,
        ensures
            r is Ok,
            Self::only_xw(
                *old(self),
                *final(self),
                rd as int,
                spec_remu32(old(self).state.x@[rs1 as int], old(self).state.x@[rs2 as int]),
            ),
    {
        let y = self.state.x[rs2];
        let v = if y == 0 {
            self.state.x[rs1]
        } else {
            self.state.x[rs1] % y
        };
        self.write_rd(rd, v);
        self.advance_pc();
        Ok(())
    }
}

} // verus!
