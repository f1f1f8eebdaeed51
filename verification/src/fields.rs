//! Bit-field extractors for 32-bit instruction words.
//!
//! Pure, total functions of the instruction word. The bit ranges are fixed
//! by the RISC-V base and extension specifications. Each executable
//! extractor is proved equal to its specification twin, so that the decoder
//! contracts can speak of the extracted fields.

use vstd::prelude::*;

verus! {

/// Any value masked to its low five bits is a valid register index.
pub proof fn lemma_mask5_u32(x: u32)
    ensures
        x & 0x1f < 32,
{
    assert(x & 0x1f < 32) by (bit_vector);
}

/// Any value masked to its low three bits is below eight.
pub proof fn lemma_mask3_u32(x: u32)
    ensures
        x & 0x7 < 8,
{
    assert(x & 0x7 < 8) by (bit_vector);
}

//
// Matching fields.
//

/// Major opcode, bits [6:0].
pub open spec fn spec_opcode(w: u32) -> u32 {
    w & 0x7f
}

/// Major opcode, bits [6:0].
pub fn opcode(w: u32) -> (r: u32)
    ensures
        r == spec_opcode(w),
{
    w & 0x7f
}

/// Format selector of the fused multiply-add opcodes, bits [26:25].
pub open spec fn spec_funct2(w: u32) -> u32 {
    (w & 0x0600_0000) >> 25
}

/// Format selector of the fused multiply-add opcodes, bits [26:25].
pub fn funct2(w: u32) -> (r: u32)
    ensures
        r == spec_funct2(w),
{
    (w & 0x0600_0000) >> 25
}

/// Minor opcode, bits [14:12].
pub open spec fn spec_funct3(w: u32) -> u32 {
    (w & 0x0000_7000) >> 12
}

/// Minor opcode, bits [14:12].
pub fn funct3(w: u32) -> (r: u32)
    ensures
        r == spec_funct3(w),
{
    (w & 0x0000_7000) >> 12
}

/// Atomic operation selector, bits [31:27].
pub open spec fn spec_funct5(w: u32) -> u32 {
    (w & 0xf800_0000) >> 27
}

/// Atomic operation selector, bits [31:27].
pub fn funct5(w: u32) -> (r: u32)
    ensures
        r == spec_funct5(w),
{
    (w & 0xf800_0000) >> 27
}

/// Register-register operation selector, bits [31:25].
pub open spec fn spec_funct7(w: u32) -> u32 {
    (w & 0xfe00_0000) >> 25
}

/// Register-register operation selector, bits [31:25].
pub fn funct7(w: u32) -> (r: u32)
    ensures
        r == spec_funct7(w),
{
    (w & 0xfe00_0000) >> 25
}

/// System operation selector, bits [31:20].
pub open spec fn spec_funct12(w: u32) -> u32 {
    (w & 0xfff0_0000) >> 20
}

/// System operation selector, bits [31:20].
pub fn funct12(w: u32) -> (r: u32)
    ensures
        r == spec_funct12(w),
{
    (w & 0xfff0_0000) >> 20
}

/// Shift type selector, bits [31:25].
pub open spec fn spec_shtype(w: u32) -> u32 {
    (w & 0xfe00_0000) >> 25
}

/// Shift type selector, bits [31:25].
pub fn shtype(w: u32) -> (r: u32)
    ensures
        r == spec_shtype(w),
{
    (w & 0xfe00_0000) >> 25
}

//
// Register fields.
//

/// Destination register index, bits [11:7].
pub open spec fn spec_rd(w: u32) -> usize {
    ((w >> 7) & 0x1f) as usize
}

/// Destination register index, bits [11:7].
pub fn rd(w: u32) -> (r: usize)
    ensures
        r == spec_rd(w),
        r < 32,
{
    proof {
        lemma_mask5_u32(w >> 7);
    }
    ((w >> 7) & 0x1f) as usize
}

/// First source register index, bits [19:15].
pub open spec fn spec_rs1(w: u32) -> usize {
    ((w >> 15) & 0x1f) as usize
}

/// First source register index, bits [19:15].
pub fn rs1(w: u32) -> (r: usize)
    ensures
        r == spec_rs1(w),
        r < 32,
{
    proof {
        lemma_mask5_u32(w >> 15);
    }
    ((w >> 15) & 0x1f) as usize
}

/// Second source register index, bits [24:20].
pub open spec fn spec_rs2(w: u32) -> usize {
    ((w >> 20) & 0x1f) as usize
}

/// Second source register index, bits [24:20].
pub fn rs2(w: u32) -> (r: usize)
    ensures
        r == spec_rs2(w),
        r < 32,
{
    proof {
        lemma_mask5_u32(w >> 20);
    }
    ((w >> 20) & 0x1f) as usize
}

/// Third source register index, bits [31:27].
pub open spec fn spec_rs3(w: u32) -> usize {
    ((w >> 27) & 0x1f) as usize
}

/// Third source register index, bits [31:27].
pub fn rs3(w: u32) -> (r: usize)
    ensures
        r == spec_rs3(w),
        r < 32,
{
    proof {
        lemma_mask5_u32(w >> 27);
    }
    ((w >> 27) & 0x1f) as usize
}

//
// Immediate fields.
//

/// I-immediate: sign-extended bits [31:20].
pub open spec fn spec_i_imm(w: u32) -> i32 {
    ((w & 0xfff0_0000) as i32) >> 20
}

/// I-immediate: sign-extended bits [31:20].
pub fn i_imm(w: u32) -> (r: i32)
    ensures
        r == spec_i_imm(w),
{
    ((w & 0xfff0_0000) as i32) >> 20
}

/// S-immediate: sign-extended `{w[31:25], w[11:7]}`.
pub open spec fn spec_s_imm(w: u32) -> i32 {
    (((w & 0x0000_0f80) as i32) >> 7) | (((w & 0xfe00_0000) as i32) >> 20)
}

/// S-immediate: sign-extended `{w[31:25], w[11:7]}`.
pub fn s_imm(w: u32) -> (r: i32)
    ensures
        r == spec_s_imm(w),
{
    (((w & 0x0000_0f80) as i32) >> 7) | (((w & 0xfe00_0000) as i32) >> 20)
}

/// B-immediate: sign-extended `{w[31], w[7], w[30:25], w[11:8], 0}`.
pub open spec fn spec_b_imm(w: u32) -> i32 {
    (((w & 0x0000_0f00) as i32) >> 7) | (((w & 0x7e00_0000) as i32) >> 20) | (((w
        & 0x0000_0080) as i32) << 4) | (((w & 0x8000_0000) as i32) >> 19)
}

/// B-immediate: sign-extended `{w[31], w[7], w[30:25], w[11:8], 0}`.
pub fn b_imm(w: u32) -> (r: i32)
    ensures
        r == spec_b_imm(w),
{
    (((w & 0x0000_0f00) as i32) >> 7) | (((w & 0x7e00_0000) as i32) >> 20) | (((w
        & 0x0000_0080) as i32) << 4) | (((w & 0x8000_0000) as i32) >> 19)
}

/// U-immediate: `{w[31:12], 12'b0}` as a signed value.
pub open spec fn spec_u_imm(w: u32) -> i32 {
    (w & 0xffff_f000) as i32
}

/// U-immediate: `{w[31:12], 12'b0}` as a signed value.
pub fn u_imm(w: u32) -> (r: i32)
    ensures
        r == spec_u_imm(w),
{
    (w & 0xffff_f000) as i32
}

/// J-immediate: sign-extended `{w[31], w[19:12], w[20], w[30:21], 0}`.
pub open spec fn spec_j_imm(w: u32) -> i32 {
    (((w & 0x7fe0_0000) as i32) >> 20) | (((w & 0x0010_0000) as i32) >> 9) | ((w
        & 0x000f_f000) as i32) | (((w & 0x8000_0000) as i32) >> 11)
}

/// J-immediate: sign-extended `{w[31], w[19:12], w[20], w[30:21], 0}`.
pub fn j_imm(w: u32) -> (r: i32)
    ensures
        r == spec_j_imm(w),
{
    (((w & 0x7fe0_0000) as i32) >> 20) | (((w & 0x0010_0000) as i32) >> 9) | ((w
        & 0x000f_f000) as i32) | (((w & 0x8000_0000) as i32) >> 11)
}

//
// Special fields.
//

/// Shift amount, bits [24:20].
pub open spec fn spec_shamt(w: u32) -> u32 {
    (w >> 20) & 0x1f
}

/// Shift amount, bits [24:20].
pub fn shamt(w: u32) -> (r: u32)
    ensures
        r == spec_shamt(w),
        r < 32,
{
    proof {
        lemma_mask5_u32(w >> 20);
    }
    (w >> 20) & 0x1f
}

/// Atomic acquire bit, bit [26].
pub open spec fn spec_aq(w: u32) -> bool {
    (w & 0x0400_0000) != 0
}

/// Atomic acquire bit, bit [26].
pub fn aq(w: u32) -> (r: bool)
    ensures
        r == spec_aq(w),
{
    (w & 0x0400_0000) != 0
}

/// Atomic release bit, bit [25].
pub open spec fn spec_rl(w: u32) -> bool {
    (w & 0x0200_0000) != 0
}

/// Atomic release bit, bit [25].
pub fn rl(w: u32) -> (r: bool)
    ensures
        r == spec_rl(w),
{
    (w & 0x0200_0000) != 0
}

/// Floating-point rounding mode field, bits [14:12].
pub open spec fn spec_rm(w: u32) -> u32 {
    (w >> 12) & 0x7
}

/// Floating-point rounding mode field, bits [14:12].
pub fn rm(w: u32) -> (r: u32)
    ensures
        r == spec_rm(w),
        r < 8,
{
    proof {
        lemma_mask3_u32(w >> 12);
    }
    (w >> 12) & 0x7
}

/// Fence predecessor set (as the dispatch table extracts it).
pub open spec fn spec_pred(w: u32) -> u32 {
    (w & 0x0f00_0000) >> 19
}

/// Fence predecessor set (as the dispatch table extracts it).
pub fn pred(w: u32) -> (r: u32)
    ensures
        r == spec_pred(w),
{
    (w & 0x0f00_0000) >> 19
}

/// Fence successor set (as the dispatch table extracts it).
pub open spec fn spec_succ(w: u32) -> u32 {
    (w & 0x00f0_0000) >> 15
}

/// Fence successor set (as the dispatch table extracts it).
pub fn succ(w: u32) -> (r: u32)
    ensures
        r == spec_succ(w),
{
    (w & 0x00f0_0000) >> 15
}

/// CSR index, bits [31:20].
pub open spec fn spec_csr(w: u32) -> u32 {
    (w & 0xfff0_0000) >> 20
}

/// CSR index, bits [31:20].
pub fn csr(w: u32) -> (r: u32)
    ensures
        r == spec_csr(w),
{
    (w & 0xfff0_0000) >> 20
}

/// Zero-extended CSR immediate, bits [19:15].
pub open spec fn spec_zimm(w: u32) -> u32 {
    (w >> 15) & 0x1f
}

/// Zero-extended CSR immediate, bits [19:15].
pub fn zimm(w: u32) -> (r: u32)
    ensures
        r == spec_zimm(w),
        r < 32,
{
    proof {
        lemma_mask5_u32(w >> 15);
    }
    (w >> 15) & 0x1f
}

/// High bits [31:28], used only to pin the reserved fence bits to zero.
pub open spec fn spec_unused1(w: u32) -> u32 {
    (w & 0xf000_0000) >> 23
}

/// High bits [31:28], used only to pin the reserved fence bits to zero.
pub fn unused1(w: u32) -> (r: u32)
    ensures
        r == spec_unused1(w),
{
    (w & 0xf000_0000) >> 23
}

} // verus!
