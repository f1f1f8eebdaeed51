//! Bit-field extractors for compressed (16-bit) instruction halfwords.
//!
//! Each compressed immediate re-composer produces the same semantic value the
//! expanded 32-bit instruction form would carry, so the compressed decoder
//! can reuse the 32-bit operation variants unchanged.

use vstd::prelude::*;

verus! {

/// Any value masked to its low five bits is a valid register index.
pub proof fn lemma_mask5_u16(x: u16)
    ensures
        x & 0x1f < 32,
{
    assert(x & 0x1f < 32) by (bit_vector);
}

/// Any value masked to its low three bits is below eight.
pub proof fn lemma_mask3_u16(x: u16)
    ensures
        x & 0x7 < 8,
{
    assert(x & 0x7 < 8) by (bit_vector);
}

//
// Opcode selectors.
//

/// Compressed quadrant, bits [1:0].
pub open spec fn spec_cquad(c: u16) -> u16 {
    c & 0x3
}

/// Compressed quadrant, bits [1:0].
pub fn cquad(c: u16) -> (r: u16)
    ensures
        r == spec_cquad(c),
{
    c & 0x3
}

/// Compressed minor opcode, bits [15:13].
pub open spec fn spec_cfunct3(c: u16) -> u16 {
    (c & 0xe000) >> 13
}

/// Compressed minor opcode, bits [15:13].
pub fn cfunct3(c: u16) -> (r: u16)
    ensures
        r == spec_cfunct3(c),
{
    (c & 0xe000) >> 13
}

/// Low bit of the compressed funct4 field, bit [12].
pub open spec fn spec_cfunct4_l0(c: u16) -> u16 {
    (c & 0x1000) >> 12
}

/// Low bit of the compressed funct4 field, bit [12].
pub fn cfunct4_l0(c: u16) -> (r: u16)
    ensures
        r == spec_cfunct4_l0(c),
{
    (c & 0x1000) >> 12
}

/// High two bits of the rs1/rd field, bits [11:10].
pub open spec fn spec_crs1rd_h2(c: u16) -> u16 {
    (c & 0x0c00) >> 10
}

/// High two bits of the rs1/rd field, bits [11:10].
pub fn crs1rd_h2(c: u16) -> (r: u16)
    ensures
        r == spec_crs1rd_h2(c),
{
    (c & 0x0c00) >> 10
}

/// High two bits of the rs2 field, bits [6:5].
pub open spec fn spec_crs2_h2(c: u16) -> u16 {
    (c & 0x0060) >> 5
}

/// High two bits of the rs2 field, bits [6:5].
pub fn crs2_h2(c: u16) -> (r: u16)
    ensures
        r == spec_crs2_h2(c),
{
    (c & 0x0060) >> 5
}

//
// Hardwired register fields.
//

/// Hardwired register index `x0`.
pub fn crx0(_c: u16) -> (r: usize)
    ensures
        r == 0,
{
    0
}

/// Hardwired register index `x1` (the return address register).
pub fn crra(_c: u16) -> (r: usize)
    ensures
        r == 1,
{
    1
}

/// Hardwired register index `x2` (the stack pointer).
pub fn crsp(_c: u16) -> (r: usize)
    ensures
        r == 2,
{
    2
}

//
// Register fields over the full file, x0..x31.
//

/// Full rs1/rd register field, bits [11:7].
pub open spec fn spec_crs1rd(c: u16) -> usize {
    ((c >> 7) & 0x1f) as usize
}

/// Full rs1/rd register field, bits [11:7].
pub fn crs1rd(c: u16) -> (r: usize)
    ensures
        r == spec_crs1rd(c),
        r < 32,
{
    proof {
        lemma_mask5_u16(c >> 7);
    }
    ((c >> 7) & 0x1f) as usize
}

/// Full rs2 register field, bits [6:2].
pub open spec fn spec_crs2(c: u16) -> usize {
    ((c >> 2) & 0x1f) as usize
}

/// Full rs2 register field, bits [6:2].
pub fn crs2(c: u16) -> (r: usize)
    ensures
        r == spec_crs2(c),
        r < 32,
{
    proof {
        lemma_mask5_u16(c >> 2);
    }
    ((c >> 2) & 0x1f) as usize
}

//
// Register fields over the popular quadrant, x8..x15.
//

/// Restricted rs1/rd register field, bits [9:7], offset into x8..x15.
pub open spec fn spec_crs1rdq(c: u16) -> usize {
    (((c >> 7) & 0x7) + 8) as usize
}

/// Restricted rs1/rd register field, bits [9:7], offset into x8..x15.
pub fn crs1rdq(c: u16) -> (r: usize)
    ensures
        r == spec_crs1rdq(c),
        8 <= r < 16,
{
    proof {
        lemma_mask3_u16(c >> 7);
    }
    (((c >> 7) & 0x7) + 8) as usize
}

/// Restricted rs2 register field, bits [4:2], offset into x8..x15.
pub open spec fn spec_crs2q(c: u16) -> usize {
    (((c >> 2) & 0x7) + 8) as usize
}

/// Restricted rs2 register field, bits [4:2], offset into x8..x15.
pub fn crs2q(c: u16) -> (r: usize)
    ensures
        r == spec_crs2q(c),
        8 <= r < 16,
{
    proof {
        lemma_mask3_u16(c >> 2);
    }
    (((c >> 2) & 0x7) + 8) as usize
}

//
// Hardwired immediates.
//

/// Hardwired zero immediate.
pub fn czero(_c: u16) -> (r: i32)
    ensures
        r == 0,
{
    0
}

//
// Immediates (zero-extended).
//

/// Shift-amount immediate: `{c[12], c[6:2]}`.
pub open spec fn spec_cimmsh6(c: u16) -> u32 {
    ((((c & 0x1000) as u32) >> 12) << 5) | (((c & 0x007c) as u32) >> 2)
}

/// Shift-amount immediate: `{c[12], c[6:2]}`.
pub fn cimmsh6(c: u16) -> (r: u32)
    ensures
        r == spec_cimmsh6(c),
{
    ((((c & 0x1000) as u32) >> 12) << 5) | (((c & 0x007c) as u32) >> 2)
}

/// Stack-pointer-relative word load offset: `{c[3:2], c[12], c[6:4], 2'b0}`.
pub open spec fn spec_cimmlwsp(c: u16) -> i32 {
    (((((c & 0x1000) >> 12) << 5) | (((c & 0x0070) >> 4) << 2) | (((c & 0x000c) >> 2)
        << 6)) as i32)
}

/// Stack-pointer-relative word load offset: `{c[3:2], c[12], c[6:4], 2'b0}`.
pub fn cimmlwsp(c: u16) -> (r: i32)
    ensures
        r == spec_cimmlwsp(c),
{
    (((((c & 0x1000) >> 12) << 5) | (((c & 0x0070) >> 4) << 2) | (((c & 0x000c) >> 2)
        << 6)) as i32)
}

/// Stack-pointer-relative doubleword load offset: `{c[4:2], c[12], c[6:5], 3'b0}`.
pub open spec fn spec_cimmldsp(c: u16) -> i32 {
    (((((c & 0x1000) >> 12) << 5) | (((c & 0x0060) >> 5) << 3) | (((c & 0x001c) >> 2)
        << 6)) as i32)
}

/// Stack-pointer-relative doubleword load offset: `{c[4:2], c[12], c[6:5], 3'b0}`.
pub fn cimmldsp(c: u16) -> (r: i32)
    ensures
        r == spec_cimmldsp(c),
{
    (((((c & 0x1000) >> 12) << 5) | (((c & 0x0060) >> 5) << 3) | (((c & 0x001c) >> 2)
        << 6)) as i32)
}

/// Stack-pointer-relative word store offset: `{c[8:7], c[12:9], 2'b0}`.
pub open spec fn spec_cimmswsp(c: u16) -> i32 {
    (((((c & 0x1e00) >> 9) << 2) | (((c & 0x0180) >> 7) << 6)) as i32)
}

/// Stack-pointer-relative word store offset: `{c[8:7], c[12:9], 2'b0}`.
pub fn cimmswsp(c: u16) -> (r: i32)
    ensures
        r == spec_cimmswsp(c),
{
    (((((c & 0x1e00) >> 9) << 2) | (((c & 0x0180) >> 7) << 6)) as i32)
}

/// Stack-pointer-relative doubleword store offset: `{c[9:7], c[12:10], 3'b0}`.
pub open spec fn spec_cimmsdsp(c: u16) -> i32 {
    (((((c & 0x1c00) >> 10) << 3) | (((c & 0x0380) >> 7) << 6)) as i32)
}

/// Stack-pointer-relative doubleword store offset: `{c[9:7], c[12:10], 3'b0}`.
pub fn cimmsdsp(c: u16) -> (r: i32)
    ensures
        r == spec_cimmsdsp(c),
{
    (((((c & 0x1c00) >> 10) << 3) | (((c & 0x0380) >> 7) << 6)) as i32)
}

/// Stack-pointer-increment immediate: `{c[10:7], c[12:11], c[5], c[6], 2'b0}`.
pub open spec fn spec_cimm4spn(c: u16) -> i32 {
    (((((c & 0x1800) >> 11) << 4) | (((c & 0x0780) >> 7) << 6) | (((c & 0x0040) >> 6)
        << 2) | (((c & 0x0020) >> 5) << 3)) as i32)
}

/// Stack-pointer-increment immediate: `{c[10:7], c[12:11], c[5], c[6], 2'b0}`.
pub fn cimm4spn(c: u16) -> (r: i32)
    ensures
        r == spec_cimm4spn(c),
{
    (((((c & 0x1800) >> 11) << 4) | (((c & 0x0780) >> 7) << 6) | (((c & 0x0040) >> 6)
        << 2) | (((c & 0x0020) >> 5) << 3)) as i32)
}

/// Register-relative word offset: `{c[5], c[12:10], c[6], 2'b0}`.
pub open spec fn spec_cimmw(c: u16) -> i32 {
    (((((c & 0x1c00) >> 10) << 3) | (((c & 0x0040) >> 6) << 2) | (((c & 0x0020) >> 5)
        << 6)) as i32)
}

/// Register-relative word offset: `{c[5], c[12:10], c[6], 2'b0}`.
pub fn cimmw(c: u16) -> (r: i32)
    ensures
        r == spec_cimmw(c),
{
    (((((c & 0x1c00) >> 10) << 3) | (((c & 0x0040) >> 6) << 2) | (((c & 0x0020) >> 5)
        << 6)) as i32)
}

/// Register-relative doubleword offset: `{c[6:5], c[12:10], 3'b0}`.
pub open spec fn spec_cimmd(c: u16) -> i32 {
    (((((c & 0x1c00) >> 10) << 3) | (((c & 0x0060) >> 5) << 6)) as i32)
}

/// Register-relative doubleword offset: `{c[6:5], c[12:10], 3'b0}`.
pub fn cimmd(c: u16) -> (r: i32)
    ensures
        r == spec_cimmd(c),
{
    (((((c & 0x1c00) >> 10) << 3) | (((c & 0x0060) >> 5) << 6)) as i32)
}

//
// Immediates (sign-extended).
//

/// Arithmetic immediate: sign-extended `{c[12], c[6:2]}`.
pub open spec fn spec_cimmi(c: u16) -> i32 {
    ((((c & 0x1000) as i32) << 19) >> 26) | (((c & 0x007c) as i32) >> 2)
}

/// Arithmetic immediate: sign-extended `{c[12], c[6:2]}`.
pub fn cimmi(c: u16) -> (r: i32)
    ensures
        r == spec_cimmi(c),
{
    ((((c & 0x1000) as i32) << 19) >> 26) | (((c & 0x007c) as i32) >> 2)
}

/// Upper immediate: sign-extended `{c[12], c[6:2], 12'b0}`.
pub open spec fn spec_cimmui(c: u16) -> i32 {
    ((((c & 0x1000) as i32) << 19) >> 14) | ((((c & 0x007c) as i32) >> 2) << 12)
}

/// Upper immediate: sign-extended `{c[12], c[6:2], 12'b0}`.
pub fn cimmui(c: u16) -> (r: i32)
    ensures
        r == spec_cimmui(c),
{
    ((((c & 0x1000) as i32) << 19) >> 14) | ((((c & 0x007c) as i32) >> 2) << 12)
}

/// Stack-pointer-adjust immediate: sign-extended
/// `{c[12], c[4:3], c[5], c[2], c[6], 4'b0}`.
pub open spec fn spec_cimm16sp(c: u16) -> i32 {
    ((((c & 0x1000) as i32) << 19) >> 22) | ((((c & 0x0040) as i32) >> 6) << 4) | ((((c
        & 0x0020) as i32) >> 5) << 6) | ((((c & 0x0018) as i32) >> 3) << 7) | ((((c
        & 0x0004) as i32) >> 2) << 5)
}

/// Stack-pointer-adjust immediate: sign-extended
/// `{c[12], c[4:3], c[5], c[2], c[6], 4'b0}`.
pub fn cimm16sp(c: u16) -> (r: i32)
    ensures
        r == spec_cimm16sp(c),
{
    ((((c & 0x1000) as i32) << 19) >> 22) | ((((c & 0x0040) as i32) >> 6) << 4) | ((((c
        & 0x0020) as i32) >> 5) << 6) | ((((c & 0x0018) as i32) >> 3) << 7) | ((((c
        & 0x0004) as i32) >> 2) << 5)
}

/// Jump offset: sign-extended
/// `{c[12], c[8], c[10:9], c[6], c[7], c[2], c[11], c[5:3], 1'b0}`.
pub open spec fn spec_cimmj(c: u16) -> i32 {
    ((((c & 0x1000) as i32) << 19) >> 20) | ((((c & 0x0800) as i32) >> 11) << 4) | ((((c
        & 0x0600) as i32) >> 9) << 8) | ((((c & 0x0100) as i32) >> 8) << 10) | ((((c
        & 0x0080) as i32) >> 7) << 6) | ((((c & 0x0040) as i32) >> 6) << 7) | ((((c
        & 0x0038) as i32) >> 3) << 1) | ((((c & 0x0004) as i32) >> 2) << 5)
}

/// Jump offset: sign-extended
/// `{c[12], c[8], c[10:9], c[6], c[7], c[2], c[11], c[5:3], 1'b0}`.
pub fn cimmj(c: u16) -> (r: i32)
    ensures
        r == spec_cimmj(c),
{
    ((((c & 0x1000) as i32) << 19) >> 20) | ((((c & 0x0800) as i32) >> 11) << 4) | ((((c
        & 0x0600) as i32) >> 9) << 8) | ((((c & 0x0100) as i32) >> 8) << 10) | ((((c
        & 0x0080) as i32) >> 7) << 6) | ((((c & 0x0040) as i32) >> 6) << 7) | ((((c
        & 0x0038) as i32) >> 3) << 1) | ((((c & 0x0004) as i32) >> 2) << 5)
}

/// Branch offset: sign-extended
/// `{c[12], c[6:5], c[2], c[11:10], c[4:3], 1'b0}`.
pub open spec fn spec_cimmb(c: u16) -> i32 {
    ((((c & 0x1000) as i32) << 19) >> 23) | ((((c & 0x0c00) as i32) >> 10) << 3) | ((((c
        & 0x0060) as i32) >> 5) << 6) | ((((c & 0x0018) as i32) >> 3) << 1) | ((((c
        & 0x0004) as i32) >> 2) << 5)
}

/// Branch offset: sign-extended
/// `{c[12], c[6:5], c[2], c[11:10], c[4:3], 1'b0}`.
pub fn cimmb(c: u16) -> (r: i32)
    ensures
        r == spec_cimmb(c),
{
    ((((c & 0x1000) as i32) << 19) >> 23) | ((((c & 0x0c00) as i32) >> 10) << 3) | ((((c
        & 0x0060) as i32) >> 5) << 6) | ((((c & 0x0018) as i32) >> 3) << 1) | ((((c
        & 0x0004) as i32) >> 2) << 5)
}

} // verus!
