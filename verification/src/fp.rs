//! The bit-level part of the floating-point plane.
//!
//! Floating-point registers hold raw 64-bit patterns; single-precision
//! values live NaN-boxed in the low 32 bits. Everything here — boxing,
//! classification, IEEE comparison, min/max selection and sign injection —
//! is pure bit manipulation on those patterns and is verified. Rounding
//! arithmetic is delegated to a host-supplied [`Fpu`].

use vstd::prelude::*;

verus! {

/// The IEEE exception flag bits, as accrued in `fcsr[4:0]`.
pub const FLAG_INEXACT: u32 = 0x01;

/// Underflow exception flag bit.
pub const FLAG_UNDERFLOW: u32 = 0x02;

/// Overflow exception flag bit.
pub const FLAG_OVERFLOW: u32 = 0x04;

/// Divide-by-zero exception flag bit.
pub const FLAG_DIV_BY_ZERO: u32 = 0x08;

/// Invalid-operation exception flag bit.
pub const FLAG_INVALID: u32 = 0x10;

/// The canonical single-precision quiet NaN.
pub const CANONICAL_NAN32: u32 = 0x7fc0_0000;

/// The canonical double-precision quiet NaN.
pub const CANONICAL_NAN64: u64 = 0x7ff8_0000_0000_0000;

//
// NaN boxing.
//

/// NaN-box a single-precision pattern into a 64-bit register slot.
pub open spec fn spec_nan_box(v: u32) -> u64 {
    (v as u64) | 0xffff_ffff_0000_0000
}

/// NaN-box a single-precision pattern into a 64-bit register slot.
pub fn nan_box(v: u32) -> (r: u64)
    ensures
        r == spec_nan_box(v),
{
    (v as u64) | 0xffff_ffff_0000_0000
}

/// Read a 64-bit register slot as single precision: a properly boxed value
/// yields its low 32 bits, anything else the canonical NaN.
pub open spec fn spec_unbox32(d: u64) -> u32 {
    if d >> 32 == 0xffff_ffff {
        d as u32
    } else {
        CANONICAL_NAN32
    }
}

/// Read a 64-bit register slot as single precision: a properly boxed value
/// yields its low 32 bits, anything else the canonical NaN.
pub fn unbox32(d: u64) -> (r: u32)
    ensures
        r == spec_unbox32(d),
{
    if d >> 32 == 0xffff_ffff {
        #[verifier::truncate] (d as u32)
    } else {
        CANONICAL_NAN32
    }
}

//
// Classification, single precision.
//

/// The pattern encodes a NaN (quiet or signaling).
pub open spec fn spec_is_nan32(v: u32) -> bool {
    v & 0x7f80_0000 == 0x7f80_0000 && v & 0x007f_ffff != 0
}

/// The pattern encodes a NaN (quiet or signaling).
pub fn is_nan32(v: u32) -> (r: bool)
    ensures
        r == spec_is_nan32(v),
{
    v & 0x7f80_0000 == 0x7f80_0000 && v & 0x007f_ffff != 0
}

/// The pattern encodes a signaling NaN.
pub open spec fn spec_is_snan32(v: u32) -> bool {
    spec_is_nan32(v) && v & 0x0040_0000 == 0
}

/// The pattern encodes a signaling NaN.
pub fn is_snan32(v: u32) -> (r: bool)
    ensures
        r == spec_is_snan32(v),
{
    is_nan32(v) && v & 0x0040_0000 == 0
}

/// The pattern encodes a zero of either sign.
pub open spec fn spec_is_zero32(v: u32) -> bool {
    v & 0x7fff_ffff == 0
}

/// The sign bit is set.
pub open spec fn spec_sign32(v: u32) -> bool {
    v & 0x8000_0000 != 0
}

/// The one-hot classification mask, as the `fclass` instruction returns it.
pub open spec fn spec_classify32(v: u32) -> u32 {
    let exp = v & 0x7f80_0000;
    let frac = v & 0x007f_ffff;
    let neg = spec_sign32(v);
    if exp == 0x7f80_0000 {
        if frac == 0 {
            if neg {
                0x001
            } else {
                0x080
            }
        } else if v & 0x0040_0000 == 0 {
            0x100
        } else {
            0x200
        }
    } else if exp == 0 {
        if frac == 0 {
            if neg {
                0x008
            } else {
                0x010
            }
        } else {
            if neg {
                0x004
            } else {
                0x020
            }
        }
    } else {
        if neg {
            0x002
        } else {
            0x040
        }
    }
}

/// The one-hot classification mask, as the `fclass` instruction returns it.
pub fn classify32(v: u32) -> (r: u32)
    ensures
        r == spec_classify32(v),
{
    let exp = v & 0x7f80_0000;
    let frac = v & 0x007f_ffff;
    let neg = v & 0x8000_0000 != 0;
    if exp == 0x7f80_0000 {
        if frac == 0 {
            if neg {
                0x001
            } else {
                0x080
            }
        } else if v & 0x0040_0000 == 0 {
            0x100
        } else {
            0x200
        }
    } else if exp == 0 {
        if frac == 0 {
            if neg {
                0x008
            } else {
                0x010
            }
        } else {
            if neg {
                0x004
            } else {
                0x020
            }
        }
    } else {
        if neg {
            0x002
        } else {
            0x040
        }
    }
}

//
// IEEE comparison, single precision. A comparison never rounds; its only
// side channel is the invalid flag, which the callers derive from the NaN
// tests below.
//

/// IEEE equality on single-precision patterns: NaNs compare unequal, the
/// two zeros compare equal.
pub open spec fn spec_feq32(a: u32, b: u32) -> bool {
    if spec_is_nan32(a) || spec_is_nan32(b) {
        false
    } else if spec_is_zero32(a) && spec_is_zero32(b) {
        true
    } else {
        a == b
    }
}

/// IEEE equality on single-precision patterns.
pub fn feq32(a: u32, b: u32) -> (r: bool)
    ensures
        r == spec_feq32(a, b),
{
    if is_nan32(a) || is_nan32(b) {
        false
    } else if (a | b) & 0x7fff_ffff == 0 {
        proof {
            lemma_or_zero32(a, b);
        }
        true
    } else {
        proof {
            lemma_or_zero32(a, b);
        }
        a == b
    }
}

/// IEEE less-than on single-precision patterns: sign-magnitude order, false
/// on any NaN, the two zeros equal.
pub open spec fn spec_flt32(a: u32, b: u32) -> bool {
    if spec_is_nan32(a) || spec_is_nan32(b) {
        false
    } else if spec_is_zero32(a) && spec_is_zero32(b) {
        false
    } else if spec_sign32(a) != spec_sign32(b) {
        spec_sign32(a)
    } else if spec_sign32(a) {
        a > b
    } else {
        a < b
    }
}

/// IEEE less-than on single-precision patterns.
pub fn flt32(a: u32, b: u32) -> (r: bool)
    ensures
        r == spec_flt32(a, b),
{
    if is_nan32(a) || is_nan32(b) {
        false
    } else if (a | b) & 0x7fff_ffff == 0 {
        proof {
            lemma_or_zero32(a, b);
        }
        false
    } else {
        proof {
            lemma_or_zero32(a, b);
        }
        let sa = a & 0x8000_0000 != 0;
        let sb = b & 0x8000_0000 != 0;
        if sa != sb {
            sa
        } else if sa {
            a > b
        } else {
            a < b
        }
    }
}

/// IEEE less-or-equal on single-precision patterns.
pub open spec fn spec_fle32(a: u32, b: u32) -> bool {
    if spec_is_nan32(a) || spec_is_nan32(b) {
        false
    } else {
        spec_feq32(a, b) || spec_flt32(a, b)
    }
}

/// IEEE less-or-equal on single-precision patterns.
pub fn fle32(a: u32, b: u32) -> (r: bool)
    ensures
        r == spec_fle32(a, b),
{
    if is_nan32(a) || is_nan32(b) {
        false
    } else {
        feq32(a, b) || flt32(a, b)
    }
}

/// The minimum or maximum of two single-precision patterns, per the 2019
/// RISC-V semantics: two NaNs yield the canonical NaN, one NaN yields the
/// other operand, opposite-sign zeros yield the correctly signed zero,
/// anything else the numeric extremum.
pub open spec fn spec_fminmax32(a: u32, b: u32, take_max: bool) -> u32 {
    if spec_is_nan32(a) && spec_is_nan32(b) {
        CANONICAL_NAN32
    } else if spec_is_nan32(a) {
        b
    } else if spec_is_nan32(b) {
        a
    } else if spec_is_zero32(a) && spec_is_zero32(b) {
        if spec_sign32(a) != take_max {
            a
        } else {
            b
        }
    } else if take_max {
        if spec_flt32(a, b) {
            b
        } else {
            a
        }
    } else {
        if spec_flt32(b, a) {
            b
        } else {
            a
        }
    }
}

/// The minimum or maximum of two single-precision patterns.
pub fn fminmax32(a: u32, b: u32, take_max: bool) -> (r: u32)
    ensures
        r == spec_fminmax32(a, b, take_max),
{
    if is_nan32(a) && is_nan32(b) {
        CANONICAL_NAN32
    } else if is_nan32(a) {
        b
    } else if is_nan32(b) {
        a
    } else if a & 0x7fff_ffff == 0 && b & 0x7fff_ffff == 0 {
        if (a & 0x8000_0000 != 0) != take_max {
            a
        } else {
            b
        }
    } else if take_max {
        if flt32(a, b) {
            b
        } else {
            a
        }
    } else {
        if flt32(b, a) {
            b
        } else {
            a
        }
    }
}

//
// Classification, double precision.
//

/// The pattern encodes a NaN (quiet or signaling).
pub open spec fn spec_is_nan64(v: u64) -> bool {
    v & 0x7ff0_0000_0000_0000 == 0x7ff0_0000_0000_0000 && v & 0x000f_ffff_ffff_ffff != 0
}

/// The pattern encodes a NaN (quiet or signaling).
pub fn is_nan64(v: u64) -> (r: bool)
    ensures
        r == spec_is_nan64(v),
{
    v & 0x7ff0_0000_0000_0000 == 0x7ff0_0000_0000_0000 && v & 0x000f_ffff_ffff_ffff != 0
}

/// The pattern encodes a signaling NaN.
pub open spec fn spec_is_snan64(v: u64) -> bool {
    spec_is_nan64(v) && v & 0x0008_0000_0000_0000 == 0
}

/// The pattern encodes a signaling NaN.
pub fn is_snan64(v: u64) -> (r: bool)
    ensures
        r == spec_is_snan64(v),
{
    is_nan64(v) && v & 0x0008_0000_0000_0000 == 0
}

/// The pattern encodes a zero of either sign.
pub open spec fn spec_is_zero64(v: u64) -> bool {
    v & 0x7fff_ffff_ffff_ffff == 0
}

/// The sign bit is set.
pub open spec fn spec_sign64(v: u64) -> bool {
    v & 0x8000_0000_0000_0000 != 0
}

/// The one-hot classification mask, as the `fclass` instruction returns it.
pub open spec fn spec_classify64(v: u64) -> u32 {
    let exp = v & 0x7ff0_0000_0000_0000;
    let frac = v & 0x000f_ffff_ffff_ffff;
    let neg = spec_sign64(v);
    if exp == 0x7ff0_0000_0000_0000 {
        if frac == 0 {
            if neg {
                0x001
            } else {
                0x080
            }
        } else if v & 0x0008_0000_0000_0000 == 0 {
            0x100
        } else {
            0x200
        }
    } else if exp == 0 {
        if frac == 0 {
            if neg {
                0x008
            } else {
                0x010
            }
        } else {
            if neg {
                0x004
            } else {
                0x020
            }
        }
    } else {
        if neg {
            0x002
        } else {
            0x040
        }
    }
}

/// The one-hot classification mask, as the `fclass` instruction returns it.
pub fn classify64(v: u64) -> (r: u32)
    ensures
        r == spec_classify64(v),
{
    let exp = v & 0x7ff0_0000_0000_0000;
    let frac = v & 0x000f_ffff_ffff_ffff;
    let neg = v & 0x8000_0000_0000_0000 != 0;
    if exp == 0x7ff0_0000_0000_0000 {
        if frac == 0 {
            if neg {
                0x001
            } else {
                0x080
            }
        } else if v & 0x0008_0000_0000_0000 == 0 {
            0x100
        } else {
            0x200
        }
    } else if exp == 0 {
        if frac == 0 {
            if neg {
                0x008
            } else {
                0x010
            }
        } else {
            if neg {
                0x004
            } else {
                0x020
            }
        }
    } else {
        if neg {
            0x002
        } else {
            0x040
        }
    }
}

//
// IEEE comparison, double precision.
//

/// IEEE equality on double-precision patterns.
pub open spec fn spec_feq64(a: u64, b: u64) -> bool {
    if spec_is_nan64(a) || spec_is_nan64(b) {
        false
    } else if spec_is_zero64(a) && spec_is_zero64(b) {
        true
    } else {
        a == b
    }
}

/// IEEE equality on double-precision patterns.
pub fn feq64(a: u64, b: u64) -> (r: bool)
    ensures
        r == spec_feq64(a, b),
{
    if is_nan64(a) || is_nan64(b) {
        false
    } else if (a | b) & 0x7fff_ffff_ffff_ffff == 0 {
        proof {
            lemma_or_zero64(a, b);
        }
        true
    } else {
        proof {
            lemma_or_zero64(a, b);
        }
        a == b
    }
}

/// IEEE less-than on double-precision patterns.
pub open spec fn spec_flt64(a: u64, b: u64) -> bool {
    if spec_is_nan64(a) || spec_is_nan64(b) {
        false
    } else if spec_is_zero64(a) && spec_is_zero64(b) {
        false
    } else if spec_sign64(a) != spec_sign64(b) {
        spec_sign64(a)
    } else if spec_sign64(a) {
        a > b
    } else {
        a < b
    }
}

/// IEEE less-than on double-precision patterns.
pub fn flt64(a: u64, b: u64) -> (r: bool)
    ensures
        r == spec_flt64(a, b),
{
    if is_nan64(a) || is_nan64(b) {
        false
    } else if (a | b) & 0x7fff_ffff_ffff_ffff == 0 {
        proof {
            lemma_or_zero64(a, b);
        }
        false
    } else {
        proof {
            lemma_or_zero64(a, b);
        }
        let sa = a & 0x8000_0000_0000_0000 != 0;
        let sb = b & 0x8000_0000_0000_0000 != 0;
        if sa != sb {
            sa
        } else if sa {
            a > b
        } else {
            a < b
        }
    }
}

/// IEEE less-or-equal on double-precision patterns.
pub open spec fn spec_fle64(a: u64, b: u64) -> bool {
    if spec_is_nan64(a) || spec_is_nan64(b) {
        false
    } else {
        spec_feq64(a, b) || spec_flt64(a, b)
    }
}

/// IEEE less-or-equal on double-precision patterns.
pub fn fle64(a: u64, b: u64) -> (r: bool)
    ensures
        r == spec_fle64(a, b),
{
    if is_nan64(a) || is_nan64(b) {
        false
    } else {
        feq64(a, b) || flt64(a, b)
    }
}

/// The minimum or maximum of two double-precision patterns, per the 2019
/// RISC-V semantics.
pub open spec fn spec_fminmax64(a: u64, b: u64, take_max: bool) -> u64 {
    if spec_is_nan64(a) && spec_is_nan64(b) {
        CANONICAL_NAN64
    } else if spec_is_nan64(a) {
        b
    } else if spec_is_nan64(b) {
        a
    } else if spec_is_zero64(a) && spec_is_zero64(b) {
        if spec_sign64(a) != take_max {
            a
        } else {
            b
        }
    } else if take_max {
        if spec_flt64(a, b) {
            b
        } else {
            a
        }
    } else {
        if spec_flt64(b, a) {
            b
        } else {
            a
        }
    }
}

/// The minimum or maximum of two double-precision patterns.
pub fn fminmax64(a: u64, b: u64, take_max: bool) -> (r: u64)
    ensures
        r == spec_fminmax64(a, b, take_max),
{
    if is_nan64(a) && is_nan64(b) {
        CANONICAL_NAN64
    } else if is_nan64(a) {
        b
    } else if is_nan64(b) {
        a
    } else if a & 0x7fff_ffff_ffff_ffff == 0 && b & 0x7fff_ffff_ffff_ffff == 0 {
        if (a & 0x8000_0000_0000_0000 != 0) != take_max {
            a
        } else {
            b
        }
    } else if take_max {
        if flt64(a, b) {
            b
        } else {
            a
        }
    } else {
        if flt64(b, a) {
            b
        } else {
            a
        }
    }
}

//
// Small bit facts the comparison bodies lean on.
//

/// A disjunction of patterns has zero magnitude bits exactly when both do.
proof fn lemma_or_zero32(a: u32, b: u32)
    ensures
        ((a | b) & 0x7fff_ffff == 0) <==> (a & 0x7fff_ffff == 0 && b & 0x7fff_ffff == 0),
        (a & 0x8000_0000 != 0) == spec_sign32(a),
{
    assert(((a | b) & 0x7fff_ffff == 0) <==> (a & 0x7fff_ffff == 0 && b & 0x7fff_ffff == 0))
        by (bit_vector);
}

/// A disjunction of patterns has zero magnitude bits exactly when both do.
proof fn lemma_or_zero64(a: u64, b: u64)
    ensures
        ((a | b) & 0x7fff_ffff_ffff_ffff == 0) <==> (a & 0x7fff_ffff_ffff_ffff == 0 && b
            & 0x7fff_ffff_ffff_ffff == 0),
{
    assert(((a | b) & 0x7fff_ffff_ffff_ffff == 0) <==> (a & 0x7fff_ffff_ffff_ffff == 0 && b
        & 0x7fff_ffff_ffff_ffff == 0)) by (bit_vector);
}

//
// The host-supplied rounding unit.
//

/// The soft-float unit behind the interpreter's rounding arithmetic.
///
/// Every method receives raw IEEE-754 bit patterns together with a resolved
/// rounding mode (`0` RNE, `1` RTZ, `2` RDN, `3` RUP, `4` RMM; the
/// interpreter resolves the dynamic mode from `fcsr` before calling) and
/// answers the result pattern paired with the IEEE exception flags raised by
/// the operation, in the layout of `fcsr[4:0]`. The interpreter accrues
/// those flags; nothing more is assumed of the results, so every property
/// proved of the interpreter holds for any unit.
///
/// `None` means the unit does not provide the operation; the interpreter
/// then stops with `CpuError::IllegalInstruction` as it would for an
/// unimplemented opcode. The default for every operation is `None`, so that
/// a unit may be assembled piecemeal.
pub trait Fpu {
    /// Single-precision addition.
    fn f32_add(&mut self, rm: u32, a: u32, b: u32) -> Option<(u32, u32)> {
        None
    }

    /// Single-precision subtraction.
    fn f32_sub(&mut self, rm: u32, a: u32, b: u32) -> Option<(u32, u32)> {
        None
    }

    /// Single-precision multiplication.
    fn f32_mul(&mut self, rm: u32, a: u32, b: u32) -> Option<(u32, u32)> {
        None
    }

    /// Single-precision division.
    fn f32_div(&mut self, rm: u32, a: u32, b: u32) -> Option<(u32, u32)> {
        None
    }

    /// Single-precision square root.
    fn f32_sqrt(&mut self, rm: u32, a: u32) -> Option<(u32, u32)> {
        None
    }

    /// Single-precision fused multiply-add, `a * b + c` with one rounding.
    fn f32_mul_add(&mut self, rm: u32, a: u32, b: u32, c: u32) -> Option<(u32, u32)> {
        None
    }

    /// Single precision to signed 32-bit integer, saturating out-of-range
    /// inputs and raising the invalid flag on NaN or out-of-range.
    fn f32_to_i32(&mut self, rm: u32, a: u32) -> Option<(u32, u32)> {
        None
    }

    /// Single precision to unsigned 32-bit integer.
    fn f32_to_u32(&mut self, rm: u32, a: u32) -> Option<(u32, u32)> {
        None
    }

    /// Signed 32-bit integer (passed as its two's-complement pattern) to
    /// single precision.
    fn f32_from_i32(&mut self, rm: u32, x: u32) -> Option<(u32, u32)> {
        None
    }

    /// Unsigned 32-bit integer to single precision.
    fn f32_from_u32(&mut self, rm: u32, x: u32) -> Option<(u32, u32)> {
        None
    }

    /// Double-precision addition.
    fn f64_add(&mut self, rm: u32, a: u64, b: u64) -> Option<(u64, u32)> {
        None
    }

    /// Double-precision subtraction.
    fn f64_sub(&mut self, rm: u32, a: u64, b: u64) -> Option<(u64, u32)> {
        None
    }

    /// Double-precision multiplication.
    fn f64_mul(&mut self, rm: u32, a: u64, b: u64) -> Option<(u64, u32)> {
        None
    }

    /// Double-precision division.
    fn f64_div(&mut self, rm: u32, a: u64, b: u64) -> Option<(u64, u32)> {
        None
    }

    /// Double-precision square root.
    fn f64_sqrt(&mut self, rm: u32, a: u64) -> Option<(u64, u32)> {
        None
    }

    /// Double-precision fused multiply-add, `a * b + c` with one rounding.
    fn f64_mul_add(&mut self, rm: u32, a: u64, b: u64, c: u64) -> Option<(u64, u32)> {
        None
    }

    /// Double precision to signed 32-bit integer.
    fn f64_to_i32(&mut self, rm: u32, a: u64) -> Option<(u32, u32)> {
        None
    }

    /// Double precision to unsigned 32-bit integer.
    fn f64_to_u32(&mut self, rm: u32, a: u64) -> Option<(u32, u32)> {
        None
    }

    /// Signed 32-bit integer (passed as its two's-complement pattern) to
    /// double precision.
    fn f64_from_i32(&mut self, rm: u32, x: u32) -> Option<(u64, u32)> {
        None
    }

    /// Unsigned 32-bit integer to double precision.
    fn f64_from_u32(&mut self, rm: u32, x: u32) -> Option<(u64, u32)> {
        None
    }

    /// Widen single to double precision (exact).
    fn f32_to_f64(&mut self, a: u32) -> Option<(u64, u32)> {
        None
    }

    /// Narrow double to single precision, rounding.
    fn f64_to_f32(&mut self, rm: u32, a: u64) -> Option<(u32, u32)> {
        None
    }
}

/// The empty soft-float unit: every rounding operation is unimplemented, so
/// floating-point arithmetic stops with `IllegalInstruction`, as on a core
/// without the F and D extensions. The bit-level operations (loads, stores,
/// moves, sign injection, comparison, classification, min/max) still work,
/// as they need no rounding.
pub struct NoFpu;

impl Fpu for NoFpu {

}

} // verus!
