//! The decoded instruction representation and the two decoders.
//!
//! `Op` is a tagged sum with one variant per distinct instruction, carrying
//! the already-extracted operand fields. `Op::parse` decodes a 32-bit word;
//! `Op::parse_c` decodes a compressed 16-bit halfword into the same variant
//! set (compressed forms are exact aliases of 32-bit forms, with selected
//! operand fields fixed or re-mapped). Decoding is total: unknown bit
//! patterns yield `None`, never a panic.
//!
//! Both executable decoders are proved equal to specification-level decoders
//! (`spec_decode32`, `spec_decode16`), which the interpreter contracts are
//! stated over.

use vstd::prelude::*;

use crate::cfields::{
    cfunct3, cfunct4_l0, cimm16sp, cimm4spn, cimmb, cimmd, cimmi, cimmj, cimmldsp, cimmlwsp,
    cimmsdsp, cimmsh6, cimmswsp, cimmui, cimmw, cquad, crs1rd, crs1rd_h2, crs1rdq, crs2, crs2_h2,
    crs2q, crra, crsp, crx0, czero, spec_cfunct3, spec_cfunct4_l0, spec_cimm16sp, spec_cimm4spn,
    spec_cimmb, spec_cimmd, spec_cimmi, spec_cimmj, spec_cimmldsp, spec_cimmlwsp, spec_cimmsdsp,
    spec_cimmsh6, spec_cimmswsp, spec_cimmui, spec_cimmw, spec_cquad, spec_crs1rd, spec_crs1rd_h2,
    spec_crs1rdq, spec_crs2, spec_crs2_h2, spec_crs2q,
};
use crate::fields::{
    aq, b_imm, csr, funct12, funct2, funct3, funct5, funct7, i_imm, j_imm, opcode, pred, rd, rl,
    rm, rs1, rs2, rs3, s_imm, shamt, shtype, spec_aq, spec_b_imm, spec_csr, spec_funct12,
    spec_funct2, spec_funct3, spec_funct5, spec_funct7, spec_i_imm, spec_j_imm, spec_opcode,
    spec_pred, spec_rd, spec_rl, spec_rm, spec_rs1, spec_rs2, spec_rs3, spec_s_imm, spec_shamt,
    spec_shtype, spec_succ, spec_u_imm, spec_unused1, spec_zimm, succ, u_imm, unused1, zimm,
};

verus! {

/// A decoded instruction and its arguments.
#[allow(missing_docs)]
#[derive(Copy, Clone, Debug, PartialEq, Eq, Structural)]
pub enum Op {
    // RV32I base integer instruction set.
    Lui { rd: usize, u_imm: i32 },
    Auipc { rd: usize, u_imm: i32 },
    Jal { rd: usize, j_imm: i32 },
    Jalr { rd: usize, rs1: usize, i_imm: i32 },
    Beq { rs1: usize, rs2: usize, b_imm: i32 },
    Bne { rs1: usize, rs2: usize, b_imm: i32 },
    Blt { rs1: usize, rs2: usize, b_imm: i32 },
    Bge { rs1: usize, rs2: usize, b_imm: i32 },
    Bltu { rs1: usize, rs2: usize, b_imm: i32 },
    Bgeu { rs1: usize, rs2: usize, b_imm: i32 },
    Lb { rd: usize, rs1: usize, i_imm: i32 },
    Lh { rd: usize, rs1: usize, i_imm: i32 },
    Lw { rd: usize, rs1: usize, i_imm: i32 },
    Lbu { rd: usize, rs1: usize, i_imm: i32 },
    Lhu { rd: usize, rs1: usize, i_imm: i32 },
    Sb { rs1: usize, rs2: usize, s_imm: i32 },
    Sh { rs1: usize, rs2: usize, s_imm: i32 },
    Sw { rs1: usize, rs2: usize, s_imm: i32 },
    Addi { rd: usize, rs1: usize, i_imm: i32 },
    Slti { rd: usize, rs1: usize, i_imm: i32 },
    Sltiu { rd: usize, rs1: usize, i_imm: i32 },
    Xori { rd: usize, rs1: usize, i_imm: i32 },
    Ori { rd: usize, rs1: usize, i_imm: i32 },
    Andi { rd: usize, rs1: usize, i_imm: i32 },
    Slli { rd: usize, rs1: usize, shamt: u32 },
    Srli { rd: usize, rs1: usize, shamt: u32 },
    Srai { rd: usize, rs1: usize, shamt: u32 },
    Add { rd: usize, rs1: usize, rs2: usize },
    Sll { rd: usize, rs1: usize, rs2: usize },
    Slt { rd: usize, rs1: usize, rs2: usize },
    Sltu { rd: usize, rs1: usize, rs2: usize },
    Xor { rd: usize, rs1: usize, rs2: usize },
    Srl { rd: usize, rs1: usize, rs2: usize },
    Or { rd: usize, rs1: usize, rs2: usize },
    And { rd: usize, rs1: usize, rs2: usize },
    Sub { rd: usize, rs1: usize, rs2: usize },
    Sra { rd: usize, rs1: usize, rs2: usize },
    Fence { pred: u32, succ: u32 },
    FenceI,
    Ecall,
    Ebreak,
    Csrrw { rd: usize, rs1: usize, csr: u32 },
    Csrrs { rd: usize, rs1: usize, csr: u32 },
    Csrrc { rd: usize, rs1: usize, csr: u32 },
    Csrrwi { rd: usize, zimm: u32, csr: u32 },
    Csrrsi { rd: usize, zimm: u32, csr: u32 },
    Csrrci { rd: usize, zimm: u32, csr: u32 },
    // "M" standard extension.
    Mul { rd: usize, rs1: usize, rs2: usize },
    Mulh { rd: usize, rs1: usize, rs2: usize },
    Mulhsu { rd: usize, rs1: usize, rs2: usize },
    Mulhu { rd: usize, rs1: usize, rs2: usize },
    Div { rd: usize, rs1: usize, rs2: usize },
    Divu { rd: usize, rs1: usize, rs2: usize },
    Rem { rd: usize, rs1: usize, rs2: usize },
    Remu { rd: usize, rs1: usize, rs2: usize },
    // "A" standard extension.
    LrW { rd: usize, rs1: usize, aq: bool, rl: bool },
    ScW { rd: usize, rs1: usize, rs2: usize, aq: bool, rl: bool },
    AmoswapW { rd: usize, rs1: usize, rs2: usize, aq: bool, rl: bool },
    AmoaddW { rd: usize, rs1: usize, rs2: usize, aq: bool, rl: bool },
    AmoxorW { rd: usize, rs1: usize, rs2: usize, aq: bool, rl: bool },
    AmoandW { rd: usize, rs1: usize, rs2: usize, aq: bool, rl: bool },
    AmoorW { rd: usize, rs1: usize, rs2: usize, aq: bool, rl: bool },
    AmominW { rd: usize, rs1: usize, rs2: usize, aq: bool, rl: bool },
    AmomaxW { rd: usize, rs1: usize, rs2: usize, aq: bool, rl: bool },
    AmominuW { rd: usize, rs1: usize, rs2: usize, aq: bool, rl: bool },
    AmomaxuW { rd: usize, rs1: usize, rs2: usize, aq: bool, rl: bool },
    // "F" standard extension, single precision.
    Flw { rd: usize, rs1: usize, i_imm: i32 },
    Fsw { rs1: usize, rs2: usize, s_imm: i32 },
    FmaddS { rd: usize, rs1: usize, rs2: usize, rs3: usize, rm: u32 },
    FmsubS { rd: usize, rs1: usize, rs2: usize, rs3: usize, rm: u32 },
    FnmsubS { rd: usize, rs1: usize, rs2: usize, rs3: usize, rm: u32 },
    FnmaddS { rd: usize, rs1: usize, rs2: usize, rs3: usize, rm: u32 },
    FaddS { rd: usize, rs1: usize, rs2: usize, rm: u32 },
    FsubS { rd: usize, rs1: usize, rs2: usize, rm: u32 },
    FmulS { rd: usize, rs1: usize, rs2: usize, rm: u32 },
    FdivS { rd: usize, rs1: usize, rs2: usize, rm: u32 },
    FsqrtS { rd: usize, rs1: usize, rm: u32 },
    FsgnjS { rd: usize, rs1: usize, rs2: usize },
    FsgnjnS { rd: usize, rs1: usize, rs2: usize },
    FsgnjxS { rd: usize, rs1: usize, rs2: usize },
    FminS { rd: usize, rs1: usize, rs2: usize },
    FmaxS { rd: usize, rs1: usize, rs2: usize },
    FcvtWS { rd: usize, rs1: usize, rm: u32 },
    FcvtWuS { rd: usize, rs1: usize, rm: u32 },
    FmvXW { rd: usize, rs1: usize },
    FeqS { rd: usize, rs1: usize, rs2: usize },
    FltS { rd: usize, rs1: usize, rs2: usize },
    FleS { rd: usize, rs1: usize, rs2: usize },
    FclassS { rd: usize, rs1: usize },
    FcvtSW { rd: usize, rs1: usize, rm: u32 },
    FcvtSWu { rd: usize, rs1: usize, rm: u32 },
    FmvWX { rd: usize, rs1: usize },
    // "D" standard extension, double precision.
    Fld { rd: usize, rs1: usize, i_imm: i32 },
    Fsd { rs1: usize, rs2: usize, s_imm: i32 },
    FmaddD { rd: usize, rs1: usize, rs2: usize, rs3: usize, rm: u32 },
    FmsubD { rd: usize, rs1: usize, rs2: usize, rs3: usize, rm: u32 },
    FnmsubD { rd: usize, rs1: usize, rs2: usize, rs3: usize, rm: u32 },
    FnmaddD { rd: usize, rs1: usize, rs2: usize, rs3: usize, rm: u32 },
    FaddD { rd: usize, rs1: usize, rs2: usize, rm: u32 },
    FsubD { rd: usize, rs1: usize, rs2: usize, rm: u32 },
    FmulD { rd: usize, rs1: usize, rs2: usize, rm: u32 },
    FdivD { rd: usize, rs1: usize, rs2: usize, rm: u32 },
    FsqrtD { rd: usize, rs1: usize, rm: u32 },
    FsgnjD { rd: usize, rs1: usize, rs2: usize },
    FsgnjnD { rd: usize, rs1: usize, rs2: usize },
    FsgnjxD { rd: usize, rs1: usize, rs2: usize },
    FminD { rd: usize, rs1: usize, rs2: usize },
    FmaxD { rd: usize, rs1: usize, rs2: usize },
    FcvtWD { rd: usize, rs1: usize, rm: u32 },
    FcvtWuD { rd: usize, rs1: usize, rm: u32 },
    FeqD { rd: usize, rs1: usize, rs2: usize },
    FltD { rd: usize, rs1: usize, rs2: usize },
    FleD { rd: usize, rs1: usize, rs2: usize },
    FclassD { rd: usize, rs1: usize },
    FcvtDW { rd: usize, rs1: usize, rm: u32 },
    FcvtDWu { rd: usize, rs1: usize, rm: u32 },
    FcvtSD { rd: usize, rs1: usize, rm: u32 },
    FcvtDS { rd: usize, rs1: usize, rm: u32 },
}

/// All register-index fields of a decoded operation are in range. Both
/// decoders only produce well-formed operations.
pub open spec fn op_wf(op: Op) -> bool {
    match op {
        Op::Lui { rd, .. } => rd < 32,
        Op::Auipc { rd, .. } => rd < 32,
        Op::Jal { rd, .. } => rd < 32,
        Op::Jalr { rd, rs1, .. } => rd < 32 && rs1 < 32,
        Op::Beq { rs1, rs2, .. } => rs1 < 32 && rs2 < 32,
        Op::Bne { rs1, rs2, .. } => rs1 < 32 && rs2 < 32,
        Op::Blt { rs1, rs2, .. } => rs1 < 32 && rs2 < 32,
        Op::Bge { rs1, rs2, .. } => rs1 < 32 && rs2 < 32,
        Op::Bltu { rs1, rs2, .. } => rs1 < 32 && rs2 < 32,
        Op::Bgeu { rs1, rs2, .. } => rs1 < 32 && rs2 < 32,
        Op::Lb { rd, rs1, .. } => rd < 32 && rs1 < 32,
        Op::Lh { rd, rs1, .. } => rd < 32 && rs1 < 32,
        Op::Lw { rd, rs1, .. } => rd < 32 && rs1 < 32,
        Op::Lbu { rd, rs1, .. } => rd < 32 && rs1 < 32,
        Op::Lhu { rd, rs1, .. } => rd < 32 && rs1 < 32,
        Op::Sb { rs1, rs2, .. } => rs1 < 32 && rs2 < 32,
        Op::Sh { rs1, rs2, .. } => rs1 < 32 && rs2 < 32,
        Op::Sw { rs1, rs2, .. } => rs1 < 32 && rs2 < 32,
        Op::Addi { rd, rs1, .. } => rd < 32 && rs1 < 32,
        Op::Slti { rd, rs1, .. } => rd < 32 && rs1 < 32,
        Op::Sltiu { rd, rs1, .. } => rd < 32 && rs1 < 32,
        Op::Xori { rd, rs1, .. } => rd < 32 && rs1 < 32,
        Op::Ori { rd, rs1, .. } => rd < 32 && rs1 < 32,
        Op::Andi { rd, rs1, .. } => rd < 32 && rs1 < 32,
        Op::Slli { rd, rs1, .. } => rd < 32 && rs1 < 32,
        Op::Srli { rd, rs1, .. } => rd < 32 && rs1 < 32,
        Op::Srai { rd, rs1, .. } => rd < 32 && rs1 < 32,
        Op::Add { rd, rs1, rs2 } => rd < 32 && rs1 < 32 && rs2 < 32,
        Op::Sll { rd, rs1, rs2 } => rd < 32 && rs1 < 32 && rs2 < 32,
        Op::Slt { rd, rs1, rs2 } => rd < 32 && rs1 < 32 && rs2 < 32,
        Op::Sltu { rd, rs1, rs2 } => rd < 32 && rs1 < 32 && rs2 < 32,
        Op::Xor { rd, rs1, rs2 } => rd < 32 && rs1 < 32 && rs2 < 32,
        Op::Srl { rd, rs1, rs2 } => rd < 32 && rs1 < 32 && rs2 < 32,
        Op::Or { rd, rs1, rs2 } => rd < 32 && rs1 < 32 && rs2 < 32,
        Op::And { rd, rs1, rs2 } => rd < 32 && rs1 < 32 && rs2 < 32,
        Op::Sub { rd, rs1, rs2 } => rd < 32 && rs1 < 32 && rs2 < 32,
        Op::Sra { rd, rs1, rs2 } => rd < 32 && rs1 < 32 && rs2 < 32,
        Op::Fence { .. } => true,
        Op::FenceI => true,
        Op::Ecall => true,
        Op::Ebreak => true,
        Op::Csrrw { rd, rs1, .. } => rd < 32 && rs1 < 32,
        Op::Csrrs { rd, rs1, .. } => rd < 32 && rs1 < 32,
        Op::Csrrc { rd, rs1, .. } => rd < 32 && rs1 < 32,
        Op::Csrrwi { rd, .. } => rd < 32,
        Op::Csrrsi { rd, .. } => rd < 32,
        Op::Csrrci { rd, .. } => rd < 32,
        Op::Mul { rd, rs1, rs2 } => rd < 32 && rs1 < 32 && rs2 < 32,
        Op::Mulh { rd, rs1, rs2 } => rd < 32 && rs1 < 32 && rs2 < 32,
        Op::Mulhsu { rd, rs1, rs2 } => rd < 32 && rs1 < 32 && rs2 < 32,
        Op::Mulhu { rd, rs1, rs2 } => rd < 32 && rs1 < 32 && rs2 < 32,
        Op::Div { rd, rs1, rs2 } => rd < 32 && rs1 < 32 && rs2 < 32,
        Op::Divu { rd, rs1, rs2 } => rd < 32 && rs1 < 32 && rs2 < 32,
        Op::Rem { rd, rs1, rs2 } => rd < 32 && rs1 < 32 && rs2 < 32,
        Op::Remu { rd, rs1, rs2 } => rd < 32 && rs1 < 32 && rs2 < 32,
        Op::LrW { rd, rs1, .. } => rd < 32 && rs1 < 32,
        Op::ScW { rd, rs1, rs2, .. } => rd < 32 && rs1 < 32 && rs2 < 32,
        Op::AmoswapW { rd, rs1, rs2, .. } => rd < 32 && rs1 < 32 && rs2 < 32,
        Op::AmoaddW { rd, rs1, rs2, .. } => rd < 32 && rs1 < 32 && rs2 < 32,
        Op::AmoxorW { rd, rs1, rs2, .. } => rd < 32 && rs1 < 32 && rs2 < 32,
        Op::AmoandW { rd, rs1, rs2, .. } => rd < 32 && rs1 < 32 && rs2 < 32,
        Op::AmoorW { rd, rs1, rs2, .. } => rd < 32 && rs1 < 32 && rs2 < 32,
        Op::AmominW { rd, rs1, rs2, .. } => rd < 32 && rs1 < 32 && rs2 < 32,
        Op::AmomaxW { rd, rs1, rs2, .. } => rd < 32 && rs1 < 32 && rs2 < 32,
        Op::AmominuW { rd, rs1, rs2, .. } => rd < 32 && rs1 < 32 && rs2 < 32,
        Op::AmomaxuW { rd, rs1, rs2, .. } => rd < 32 && rs1 < 32 && rs2 < 32,
        Op::Flw { rd, rs1, .. } => rd < 32 && rs1 < 32,
        Op::Fsw { rs1, rs2, .. } => rs1 < 32 && rs2 < 32,
        Op::FmaddS { rd, rs1, rs2, rs3, .. } => rd < 32 && rs1 < 32 && rs2 < 32 && rs3 < 32,
        Op::FmsubS { rd, rs1, rs2, rs3, .. } => rd < 32 && rs1 < 32 && rs2 < 32 && rs3 < 32,
        Op::FnmsubS { rd, rs1, rs2, rs3, .. } => rd < 32 && rs1 < 32 && rs2 < 32 && rs3 < 32,
        Op::FnmaddS { rd, rs1, rs2, rs3, .. } => rd < 32 && rs1 < 32 && rs2 < 32 && rs3 < 32,
        Op::FaddS { rd, rs1, rs2, .. } => rd < 32 && rs1 < 32 && rs2 < 32,
        Op::FsubS { rd, rs1, rs2, .. } => rd < 32 && rs1 < 32 && rs2 < 32,
        Op::FmulS { rd, rs1, rs2, .. } => rd < 32 && rs1 < 32 && rs2 < 32,
        Op::FdivS { rd, rs1, rs2, .. } => rd < 32 && rs1 < 32 && rs2 < 32,
        Op::FsqrtS { rd, rs1, .. } => rd < 32 && rs1 < 32,
        Op::FsgnjS { rd, rs1, rs2 } => rd < 32 && rs1 < 32 && rs2 < 32,
        Op::FsgnjnS { rd, rs1, rs2 } => rd < 32 && rs1 < 32 && rs2 < 32,
        Op::FsgnjxS { rd, rs1, rs2 } => rd < 32 && rs1 < 32 && rs2 < 32,
        Op::FminS { rd, rs1, rs2 } => rd < 32 && rs1 < 32 && rs2 < 32,
        Op::FmaxS { rd, rs1, rs2 } => rd < 32 && rs1 < 32 && rs2 < 32,
        Op::FcvtWS { rd, rs1, .. } => rd < 32 && rs1 < 32,
        Op::FcvtWuS { rd, rs1, .. } => rd < 32 && rs1 < 32,
        Op::FmvXW { rd, rs1 } => rd < 32 && rs1 < 32,
        Op::FeqS { rd, rs1, rs2 } => rd < 32 && rs1 < 32 && rs2 < 32,
        Op::FltS { rd, rs1, rs2 } => rd < 32 && rs1 < 32 && rs2 < 32,
        Op::FleS { rd, rs1, rs2 } => rd < 32 && rs1 < 32 && rs2 < 32,
        Op::FclassS { rd, rs1 } => rd < 32 && rs1 < 32,
        Op::FcvtSW { rd, rs1, .. } => rd < 32 && rs1 < 32,
        Op::FcvtSWu { rd, rs1, .. } => rd < 32 && rs1 < 32,
        Op::FmvWX { rd, rs1 } => rd < 32 && rs1 < 32,
        Op::Fld { rd, rs1, .. } => rd < 32 && rs1 < 32,
        Op::Fsd { rs1, rs2, .. } => rs1 < 32 && rs2 < 32,
        Op::FmaddD { rd, rs1, rs2, rs3, .. } => rd < 32 && rs1 < 32 && rs2 < 32 && rs3 < 32,
        Op::FmsubD { rd, rs1, rs2, rs3, .. } => rd < 32 && rs1 < 32 && rs2 < 32 && rs3 < 32,
        Op::FnmsubD { rd, rs1, rs2, rs3, .. } => rd < 32 && rs1 < 32 && rs2 < 32 && rs3 < 32,
        Op::FnmaddD { rd, rs1, rs2, rs3, .. } => rd < 32 && rs1 < 32 && rs2 < 32 && rs3 < 32,
        Op::FaddD { rd, rs1, rs2, .. } => rd < 32 && rs1 < 32 && rs2 < 32,
        Op::FsubD { rd, rs1, rs2, .. } => rd < 32 && rs1 < 32 && rs2 < 32,
        Op::FmulD { rd, rs1, rs2, .. } => rd < 32 && rs1 < 32 && rs2 < 32,
        Op::FdivD { rd, rs1, rs2, .. } => rd < 32 && rs1 < 32 && rs2 < 32,
        Op::FsqrtD { rd, rs1, .. } => rd < 32 && rs1 < 32,
        Op::FsgnjD { rd, rs1, rs2 } => rd < 32 && rs1 < 32 && rs2 < 32,
        Op::FsgnjnD { rd, rs1, rs2 } => rd < 32 && rs1 < 32 && rs2 < 32,
        Op::FsgnjxD { rd, rs1, rs2 } => rd < 32 && rs1 < 32 && rs2 < 32,
        Op::FminD { rd, rs1, rs2 } => rd < 32 && rs1 < 32 && rs2 < 32,
        Op::FmaxD { rd, rs1, rs2 } => rd < 32 && rs1 < 32 && rs2 < 32,
        Op::FcvtWD { rd, rs1, .. } => rd < 32 && rs1 < 32,
        Op::FcvtWuD { rd, rs1, .. } => rd < 32 && rs1 < 32,
        Op::FeqD { rd, rs1, rs2 } => rd < 32 && rs1 < 32 && rs2 < 32,
        Op::FltD { rd, rs1, rs2 } => rd < 32 && rs1 < 32 && rs2 < 32,
        Op::FleD { rd, rs1, rs2 } => rd < 32 && rs1 < 32 && rs2 < 32,
        Op::FclassD { rd, rs1 } => rd < 32 && rs1 < 32,
        Op::FcvtDW { rd, rs1, .. } => rd < 32 && rs1 < 32,
        Op::FcvtDWu { rd, rs1, .. } => rd < 32 && rs1 < 32,
        Op::FcvtSD { rd, rs1, .. } => rd < 32 && rs1 < 32,
        Op::FcvtDS { rd, rs1, .. } => rd < 32 && rs1 < 32,
    }
}

//
// Specification-level 32-bit decoder, one function per major opcode group.
//

/// JALR opcode group.
pub open spec fn spec_decode_jalr(w: u32) -> Option<Op> {
    if spec_funct3(w) == 0b000 {
        Some(Op::Jalr { rd: spec_rd(w), rs1: spec_rs1(w), i_imm: spec_i_imm(w) })
    } else {
        None
    }
}

/// Conditional branch opcode group.
pub open spec fn spec_decode_branch(w: u32) -> Option<Op> {
    let rs1 = spec_rs1(w);
    let rs2 = spec_rs2(w);
    let b_imm = spec_b_imm(w);
    if spec_funct3(w) == 0b000 {
        Some(Op::Beq { rs1, rs2, b_imm })
    } else if spec_funct3(w) == 0b001 {
        Some(Op::Bne { rs1, rs2, b_imm })
    } else if spec_funct3(w) == 0b100 {
        Some(Op::Blt { rs1, rs2, b_imm })
    } else if spec_funct3(w) == 0b101 {
        Some(Op::Bge { rs1, rs2, b_imm })
    } else if spec_funct3(w) == 0b110 {
        Some(Op::Bltu { rs1, rs2, b_imm })
    } else if spec_funct3(w) == 0b111 {
        Some(Op::Bgeu { rs1, rs2, b_imm })
    } else {
        None
    }
}

/// Integer load opcode group.
pub open spec fn spec_decode_load(w: u32) -> Option<Op> {
    let rd = spec_rd(w);
    let rs1 = spec_rs1(w);
    let i_imm = spec_i_imm(w);
    if spec_funct3(w) == 0b000 {
        Some(Op::Lb { rd, rs1, i_imm })
    } else if spec_funct3(w) == 0b001 {
        Some(Op::Lh { rd, rs1, i_imm })
    } else if spec_funct3(w) == 0b010 {
        Some(Op::Lw { rd, rs1, i_imm })
    } else if spec_funct3(w) == 0b100 {
        Some(Op::Lbu { rd, rs1, i_imm })
    } else if spec_funct3(w) == 0b101 {
        Some(Op::Lhu { rd, rs1, i_imm })
    } else {
        None
    }
}

/// Integer store opcode group.
pub open spec fn spec_decode_store(w: u32) -> Option<Op> {
    let rs1 = spec_rs1(w);
    let rs2 = spec_rs2(w);
    let s_imm = spec_s_imm(w);
    if spec_funct3(w) == 0b000 {
        Some(Op::Sb { rs1, rs2, s_imm })
    } else if spec_funct3(w) == 0b001 {
        Some(Op::Sh { rs1, rs2, s_imm })
    } else if spec_funct3(w) == 0b010 {
        Some(Op::Sw { rs1, rs2, s_imm })
    } else {
        None
    }
}

/// Register-immediate opcode group.
pub open spec fn spec_decode_opimm(w: u32) -> Option<Op> {
    let rd = spec_rd(w);
    let rs1 = spec_rs1(w);
    let i_imm = spec_i_imm(w);
    if spec_funct3(w) == 0b000 {
        Some(Op::Addi { rd, rs1, i_imm })
    } else if spec_funct3(w) == 0b010 {
        Some(Op::Slti { rd, rs1, i_imm })
    } else if spec_funct3(w) == 0b011 {
        Some(Op::Sltiu { rd, rs1, i_imm })
    } else if spec_funct3(w) == 0b100 {
        Some(Op::Xori { rd, rs1, i_imm })
    } else if spec_funct3(w) == 0b110 {
        Some(Op::Ori { rd, rs1, i_imm })
    } else if spec_funct3(w) == 0b111 {
        Some(Op::Andi { rd, rs1, i_imm })
    } else if spec_funct3(w) == 0b001 {
        if spec_shtype(w) == 0b000_0000 {
            Some(Op::Slli { rd, rs1, shamt: spec_shamt(w) })
        } else {
            None
        }
    } else {
        // funct3 == 0b101
        if spec_shtype(w) == 0b000_0000 {
            Some(Op::Srli { rd, rs1, shamt: spec_shamt(w) })
        } else if spec_shtype(w) == 0b010_0000 {
            Some(Op::Srai { rd, rs1, shamt: spec_shamt(w) })
        } else {
            None
        }
    }
}

/// Register-register opcode group, including the multiply extension.
pub open spec fn spec_decode_opreg(w: u32) -> Option<Op> {
    let rd = spec_rd(w);
    let rs1 = spec_rs1(w);
    let rs2 = spec_rs2(w);
    if spec_funct7(w) == 0b000_0000 {
        if spec_funct3(w) == 0b000 {
            Some(Op::Add { rd, rs1, rs2 })
        } else if spec_funct3(w) == 0b001 {
            Some(Op::Sll { rd, rs1, rs2 })
        } else if spec_funct3(w) == 0b010 {
            Some(Op::Slt { rd, rs1, rs2 })
        } else if spec_funct3(w) == 0b011 {
            Some(Op::Sltu { rd, rs1, rs2 })
        } else if spec_funct3(w) == 0b100 {
            Some(Op::Xor { rd, rs1, rs2 })
        } else if spec_funct3(w) == 0b101 {
            Some(Op::Srl { rd, rs1, rs2 })
        } else if spec_funct3(w) == 0b110 {
            Some(Op::Or { rd, rs1, rs2 })
        } else {
            Some(Op::And { rd, rs1, rs2 })
        }
    } else if spec_funct7(w) == 0b010_0000 {
        if spec_funct3(w) == 0b000 {
            Some(Op::Sub { rd, rs1, rs2 })
        } else if spec_funct3(w) == 0b101 {
            Some(Op::Sra { rd, rs1, rs2 })
        } else {
            None
        }
    } else if spec_funct7(w) == 0b000_0001 {
        if spec_funct3(w) == 0b000 {
            Some(Op::Mul { rd, rs1, rs2 })
        } else if spec_funct3(w) == 0b001 {
            Some(Op::Mulh { rd, rs1, rs2 })
        } else if spec_funct3(w) == 0b010 {
            Some(Op::Mulhsu { rd, rs1, rs2 })
        } else if spec_funct3(w) == 0b011 {
            Some(Op::Mulhu { rd, rs1, rs2 })
        } else if spec_funct3(w) == 0b100 {
            Some(Op::Div { rd, rs1, rs2 })
        } else if spec_funct3(w) == 0b101 {
            Some(Op::Divu { rd, rs1, rs2 })
        } else if spec_funct3(w) == 0b110 {
            Some(Op::Rem { rd, rs1, rs2 })
        } else {
            Some(Op::Remu { rd, rs1, rs2 })
        }
    } else {
        None
    }
}

/// Memory-ordering opcode group.
pub open spec fn spec_decode_misc_mem(w: u32) -> Option<Op> {
    if spec_rd(w) == 0 && spec_rs1(w) == 0 && spec_unused1(w) == 0 {
        if spec_funct3(w) == 0b000 {
            Some(Op::Fence { pred: spec_pred(w), succ: spec_succ(w) })
        } else if spec_funct3(w) == 0b001 {
            Some(Op::FenceI)
        } else {
            None
        }
    } else {
        None
    }
}

/// System opcode group: environment calls and CSR accesses.
pub open spec fn spec_decode_system(w: u32) -> Option<Op> {
    let rd = spec_rd(w);
    let rs1 = spec_rs1(w);
    let csr = spec_csr(w);
    if spec_funct3(w) == 0b000 {
        if rd == 0 && rs1 == 0 {
            if spec_funct12(w) == 0b0000_0000_0000 {
                Some(Op::Ecall)
            } else if spec_funct12(w) == 0b0000_0000_0001 {
                Some(Op::Ebreak)
            } else {
                None
            }
        } else {
            None
        }
    } else if spec_funct3(w) == 0b001 {
        Some(Op::Csrrw { rd, rs1, csr })
    } else if spec_funct3(w) == 0b010 {
        Some(Op::Csrrs { rd, rs1, csr })
    } else if spec_funct3(w) == 0b011 {
        Some(Op::Csrrc { rd, rs1, csr })
    } else if spec_funct3(w) == 0b101 {
        Some(Op::Csrrwi { rd, zimm: spec_zimm(w), csr })
    } else if spec_funct3(w) == 0b110 {
        Some(Op::Csrrsi { rd, zimm: spec_zimm(w), csr })
    } else if spec_funct3(w) == 0b111 {
        Some(Op::Csrrci { rd, zimm: spec_zimm(w), csr })
    } else {
        None
    }
}

/// Atomic opcode group.
pub open spec fn spec_decode_amo(w: u32) -> Option<Op> {
    let rd = spec_rd(w);
    let rs1 = spec_rs1(w);
    let rs2 = spec_rs2(w);
    let aq = spec_aq(w);
    let rl = spec_rl(w);
    if spec_funct3(w) == 0b010 {
        if spec_funct5(w) == 0b0_0010 {
            if rs2 == 0 {
                Some(Op::LrW { rd, rs1, aq, rl })
            } else {
                None
            }
        } else if spec_funct5(w) == 0b0_0011 {
            Some(Op::ScW { rd, rs1, rs2, aq, rl })
        } else if spec_funct5(w) == 0b0_0001 {
            Some(Op::AmoswapW { rd, rs1, rs2, aq, rl })
        } else if spec_funct5(w) == 0b0_0000 {
            Some(Op::AmoaddW { rd, rs1, rs2, aq, rl })
        } else if spec_funct5(w) == 0b0_0100 {
            Some(Op::AmoxorW { rd, rs1, rs2, aq, rl })
        } else if spec_funct5(w) == 0b0_1100 {
            Some(Op::AmoandW { rd, rs1, rs2, aq, rl })
        } else if spec_funct5(w) == 0b0_1000 {
            Some(Op::AmoorW { rd, rs1, rs2, aq, rl })
        } else if spec_funct5(w) == 0b1_0000 {
            Some(Op::AmominW { rd, rs1, rs2, aq, rl })
        } else if spec_funct5(w) == 0b1_0100 {
            Some(Op::AmomaxW { rd, rs1, rs2, aq, rl })
        } else if spec_funct5(w) == 0b1_1000 {
            Some(Op::AmominuW { rd, rs1, rs2, aq, rl })
        } else if spec_funct5(w) == 0b1_1100 {
            Some(Op::AmomaxuW { rd, rs1, rs2, aq, rl })
        } else {
            None
        }
    } else {
        None
    }
}

/// Floating-point load opcode group.
pub open spec fn spec_decode_load_fp(w: u32) -> Option<Op> {
    if spec_funct3(w) == 0b010 {
        Some(Op::Flw { rd: spec_rd(w), rs1: spec_rs1(w), i_imm: spec_i_imm(w) })
    } else if spec_funct3(w) == 0b011 {
        Some(Op::Fld { rd: spec_rd(w), rs1: spec_rs1(w), i_imm: spec_i_imm(w) })
    } else {
        None
    }
}

/// Floating-point store opcode group.
pub open spec fn spec_decode_store_fp(w: u32) -> Option<Op> {
    if spec_funct3(w) == 0b010 {
        Some(Op::Fsw { rs1: spec_rs1(w), rs2: spec_rs2(w), s_imm: spec_s_imm(w) })
    } else if spec_funct3(w) == 0b011 {
        Some(Op::Fsd { rs1: spec_rs1(w), rs2: spec_rs2(w), s_imm: spec_s_imm(w) })
    } else {
        None
    }
}

/// Fused multiply-add opcode group. `kind` selects among the four fused
/// opcodes (0 = madd, 1 = msub, 2 = nmsub, 3 = nmadd).
pub open spec fn spec_decode_fma(w: u32, kind: u32) -> Option<Op> {
    let rd = spec_rd(w);
    let rs1 = spec_rs1(w);
    let rs2 = spec_rs2(w);
    let rs3 = spec_rs3(w);
    let rm = spec_rm(w);
    if spec_funct2(w) == 0b00 {
        if kind == 0 {
            Some(Op::FmaddS { rd, rs1, rs2, rs3, rm })
        } else if kind == 1 {
            Some(Op::FmsubS { rd, rs1, rs2, rs3, rm })
        } else if kind == 2 {
            Some(Op::FnmsubS { rd, rs1, rs2, rs3, rm })
        } else {
            Some(Op::FnmaddS { rd, rs1, rs2, rs3, rm })
        }
    } else if spec_funct2(w) == 0b01 {
        if kind == 0 {
            Some(Op::FmaddD { rd, rs1, rs2, rs3, rm })
        } else if kind == 1 {
            Some(Op::FmsubD { rd, rs1, rs2, rs3, rm })
        } else if kind == 2 {
            Some(Op::FnmsubD { rd, rs1, rs2, rs3, rm })
        } else {
            Some(Op::FnmaddD { rd, rs1, rs2, rs3, rm })
        }
    } else {
        None
    }
}

/// Floating-point computational opcode group, single precision half.
pub open spec fn spec_decode_opfp_s(w: u32) -> Option<Op> {
    let rd = spec_rd(w);
    let rs1 = spec_rs1(w);
    let rs2 = spec_rs2(w);
    let rm = spec_rm(w);
    if spec_funct7(w) == 0b000_0000 {
        Some(Op::FaddS { rd, rs1, rs2, rm })
    } else if spec_funct7(w) == 0b000_0100 {
        Some(Op::FsubS { rd, rs1, rs2, rm })
    } else if spec_funct7(w) == 0b000_1000 {
        Some(Op::FmulS { rd, rs1, rs2, rm })
    } else if spec_funct7(w) == 0b000_1100 {
        Some(Op::FdivS { rd, rs1, rs2, rm })
    } else if spec_funct7(w) == 0b010_1100 {
        if rs2 == 0 {
            Some(Op::FsqrtS { rd, rs1, rm })
        } else {
            None
        }
    } else if spec_funct7(w) == 0b001_0000 {
        if spec_funct3(w) == 0b000 {
            Some(Op::FsgnjS { rd, rs1, rs2 })
        } else if spec_funct3(w) == 0b001 {
            Some(Op::FsgnjnS { rd, rs1, rs2 })
        } else if spec_funct3(w) == 0b010 {
            Some(Op::FsgnjxS { rd, rs1, rs2 })
        } else {
            None
        }
    } else if spec_funct7(w) == 0b001_0100 {
        if spec_funct3(w) == 0b000 {
            Some(Op::FminS { rd, rs1, rs2 })
        } else if spec_funct3(w) == 0b001 {
            Some(Op::FmaxS { rd, rs1, rs2 })
        } else {
            None
        }
    } else if spec_funct7(w) == 0b110_0000 {
        if rs2 == 0 {
            Some(Op::FcvtWS { rd, rs1, rm })
        } else if rs2 == 1 {
            Some(Op::FcvtWuS { rd, rs1, rm })
        } else {
            None
        }
    } else if spec_funct7(w) == 0b111_0000 {
        if spec_funct3(w) == 0b000 {
            if rs2 == 0 {
                Some(Op::FmvXW { rd, rs1 })
            } else {
                None
            }
        } else if spec_funct3(w) == 0b001 {
            if rs2 == 0 {
                Some(Op::FclassS { rd, rs1 })
            } else {
                None
            }
        } else {
            None
        }
    } else if spec_funct7(w) == 0b101_0000 {
        if spec_funct3(w) == 0b010 {
            Some(Op::FeqS { rd, rs1, rs2 })
        } else if spec_funct3(w) == 0b001 {
            Some(Op::FltS { rd, rs1, rs2 })
        } else if spec_funct3(w) == 0b000 {
            Some(Op::FleS { rd, rs1, rs2 })
        } else {
            None
        }
    } else if spec_funct7(w) == 0b110_1000 {
        if rs2 == 0 {
            Some(Op::FcvtSW { rd, rs1, rm })
        } else if rs2 == 1 {
            Some(Op::FcvtSWu { rd, rs1, rm })
        } else {
            None
        }
    } else if spec_funct7(w) == 0b111_1000 {
        if spec_funct3(w) == 0b000 && rs2 == 0 {
            Some(Op::FmvWX { rd, rs1 })
        } else {
            None
        }
    } else if spec_funct7(w) == 0b010_0000 {
        if rs2 == 1 {
            Some(Op::FcvtSD { rd, rs1, rm })
        } else {
            None
        }
    } else {
        None
    }
}

/// Floating-point computational opcode group, double precision half.
pub open spec fn spec_decode_opfp_d(w: u32) -> Option<Op> {
    let rd = spec_rd(w);
    let rs1 = spec_rs1(w);
    let rs2 = spec_rs2(w);
    let rm = spec_rm(w);
    if spec_funct7(w) == 0b000_0001 {
        Some(Op::FaddD { rd, rs1, rs2, rm })
    } else if spec_funct7(w) == 0b000_0101 {
        Some(Op::FsubD { rd, rs1, rs2, rm })
    } else if spec_funct7(w) == 0b000_1001 {
        Some(Op::FmulD { rd, rs1, rs2, rm })
    } else if spec_funct7(w) == 0b000_1101 {
        Some(Op::FdivD { rd, rs1, rs2, rm })
    } else if spec_funct7(w) == 0b010_1101 {
        if rs2 == 0 {
            Some(Op::FsqrtD { rd, rs1, rm })
        } else {
            None
        }
    } else if spec_funct7(w) == 0b001_0001 {
        if spec_funct3(w) == 0b000 {
            Some(Op::FsgnjD { rd, rs1, rs2 })
        } else if spec_funct3(w) == 0b001 {
            Some(Op::FsgnjnD { rd, rs1, rs2 })
        } else if spec_funct3(w) == 0b010 {
            Some(Op::FsgnjxD { rd, rs1, rs2 })
        } else {
            None
        }
    } else if spec_funct7(w) == 0b001_0101 {
        if spec_funct3(w) == 0b000 {
            Some(Op::FminD { rd, rs1, rs2 })
        } else if spec_funct3(w) == 0b001 {
            Some(Op::FmaxD { rd, rs1, rs2 })
        } else {
            None
        }
    } else if spec_funct7(w) == 0b110_0001 {
        if rs2 == 0 {
            Some(Op::FcvtWD { rd, rs1, rm })
        } else if rs2 == 1 {
            Some(Op::FcvtWuD { rd, rs1, rm })
        } else {
            None
        }
    } else if spec_funct7(w) == 0b101_0001 {
        if spec_funct3(w) == 0b010 {
            Some(Op::FeqD { rd, rs1, rs2 })
        } else if spec_funct3(w) == 0b001 {
            Some(Op::FltD { rd, rs1, rs2 })
        } else if spec_funct3(w) == 0b000 {
            Some(Op::FleD { rd, rs1, rs2 })
        } else {
            None
        }
    } else if spec_funct7(w) == 0b111_0001 {
        if spec_funct3(w) == 0b001 && rs2 == 0 {
            Some(Op::FclassD { rd, rs1 })
        } else {
            None
        }
    } else if spec_funct7(w) == 0b110_1001 {
        if rs2 == 0 {
            Some(Op::FcvtDW { rd, rs1, rm })
        } else if rs2 == 1 {
            Some(Op::FcvtDWu { rd, rs1, rm })
        } else {
            None
        }
    } else if spec_funct7(w) == 0b010_0001 {
        if rs2 == 0 {
            Some(Op::FcvtDS { rd, rs1, rm })
        } else {
            None
        }
    } else {
        None
    }
}

/// Floating-point computational opcode group. The single- and
/// double-precision halves select on disjoint funct7 keys, so trying one
/// after the other decodes the group as a whole.
pub open spec fn spec_decode_opfp(w: u32) -> Option<Op> {
    if spec_decode_opfp_s(w) is Some {
        spec_decode_opfp_s(w)
    } else {
        spec_decode_opfp_d(w)
    }
}

/// The 32-bit decoder: every instruction word maps to at most one
/// operation.
pub open spec fn spec_decode32(w: u32) -> Option<Op> {
    let op = spec_opcode(w);
    if op == 0b011_0111 {
        Some(Op::Lui { rd: spec_rd(w), u_imm: spec_u_imm(w) })
    } else if op == 0b001_0111 {
        Some(Op::Auipc { rd: spec_rd(w), u_imm: spec_u_imm(w) })
    } else if op == 0b110_1111 {
        Some(Op::Jal { rd: spec_rd(w), j_imm: spec_j_imm(w) })
    } else if op == 0b110_0111 {
        spec_decode_jalr(w)
    } else if op == 0b110_0011 {
        spec_decode_branch(w)
    } else if op == 0b000_0011 {
        spec_decode_load(w)
    } else if op == 0b010_0011 {
        spec_decode_store(w)
    } else if op == 0b001_0011 {
        spec_decode_opimm(w)
    } else if op == 0b011_0011 {
        spec_decode_opreg(w)
    } else if op == 0b000_1111 {
        spec_decode_misc_mem(w)
    } else if op == 0b111_0011 {
        spec_decode_system(w)
    } else if op == 0b010_1111 {
        spec_decode_amo(w)
    } else if op == 0b000_0111 {
        spec_decode_load_fp(w)
    } else if op == 0b010_0111 {
        spec_decode_store_fp(w)
    } else if op == 0b100_0011 {
        spec_decode_fma(w, 0)
    } else if op == 0b100_0111 {
        spec_decode_fma(w, 1)
    } else if op == 0b100_1011 {
        spec_decode_fma(w, 2)
    } else if op == 0b100_1111 {
        spec_decode_fma(w, 3)
    } else if op == 0b101_0011 {
        spec_decode_opfp(w)
    } else {
        None
    }
}

//
// Executable 32-bit decoder, one function per major opcode group, each
// proved equal to its specification twin.
//

fn parse_jalr(w: u32) -> (r: Option<Op>)
    ensures
        r == spec_decode_jalr(w),
{
    match funct3(w) {
        0b000 => Some(Op::Jalr { rd: rd(w), rs1: rs1(w), i_imm: i_imm(w) }),
        _ => None,
    }
}

fn parse_branch(w: u32) -> (r: Option<Op>)
    ensures
        r == spec_decode_branch(w),
{
    let rs1 = rs1(w);
    let rs2 = rs2(w);
    let b_imm = b_imm(w);
    match funct3(w) {
        0b000 => Some(Op::Beq { rs1, rs2, b_imm }),
        0b001 => Some(Op::Bne { rs1, rs2, b_imm }),
        0b100 => Some(Op::Blt { rs1, rs2, b_imm }),
        0b101 => Some(Op::Bge { rs1, rs2, b_imm }),
        0b110 => Some(Op::Bltu { rs1, rs2, b_imm }),
        0b111 => Some(Op::Bgeu { rs1, rs2, b_imm }),
        _ => None,
    }
}

fn parse_load(w: u32) -> (r: Option<Op>)
    ensures
        r == spec_decode_load(w),
{
    let rd = rd(w);
    let rs1 = rs1(w);
    let i_imm = i_imm(w);
    match funct3(w) {
        0b000 => Some(Op::Lb { rd, rs1, i_imm }),
        0b001 => Some(Op::Lh { rd, rs1, i_imm }),
        0b010 => Some(Op::Lw { rd, rs1, i_imm }),
        0b100 => Some(Op::Lbu { rd, rs1, i_imm }),
        0b101 => Some(Op::Lhu { rd, rs1, i_imm }),
        _ => None,
    }
}

fn parse_store(w: u32) -> (r: Option<Op>)
    ensures
        r == spec_decode_store(w),
{
    let rs1 = rs1(w);
    let rs2 = rs2(w);
    let s_imm = s_imm(w);
    match funct3(w) {
        0b000 => Some(Op::Sb { rs1, rs2, s_imm }),
        0b001 => Some(Op::Sh { rs1, rs2, s_imm }),
        0b010 => Some(Op::Sw { rs1, rs2, s_imm }),
        _ => None,
    }
}

fn parse_opimm(w: u32) -> (r: Option<Op>)
    ensures
        r == spec_decode_opimm(w),
{
    let rd = rd(w);
    let rs1 = rs1(w);
    let i_imm = i_imm(w);
    match funct3(w) {
        0b000 => Some(Op::Addi { rd, rs1, i_imm }),
        0b010 => Some(Op::Slti { rd, rs1, i_imm }),
        0b011 => Some(Op::Sltiu { rd, rs1, i_imm }),
        0b100 => Some(Op::Xori { rd, rs1, i_imm }),
        0b110 => Some(Op::Ori { rd, rs1, i_imm }),
        0b111 => Some(Op::Andi { rd, rs1, i_imm }),
        0b001 => match shtype(w) {
            0b000_0000 => Some(Op::Slli { rd, rs1, shamt: shamt(w) }),
            _ => None,
        },
        _ => match shtype(w) {
            0b000_0000 => Some(Op::Srli { rd, rs1, shamt: shamt(w) }),
            0b010_0000 => Some(Op::Srai { rd, rs1, shamt: shamt(w) }),
            _ => None,
        },
    }
}

fn parse_opreg(w: u32) -> (r: Option<Op>)
    ensures
        r == spec_decode_opreg(w),
{
    let rd = rd(w);
    let rs1 = rs1(w);
    let rs2 = rs2(w);
    match funct7(w) {
        0b000_0000 => match funct3(w) {
            0b000 => Some(Op::Add { rd, rs1, rs2 }),
            0b001 => Some(Op::Sll { rd, rs1, rs2 }),
            0b010 => Some(Op::Slt { rd, rs1, rs2 }),
            0b011 => Some(Op::Sltu { rd, rs1, rs2 }),
            0b100 => Some(Op::Xor { rd, rs1, rs2 }),
            0b101 => Some(Op::Srl { rd, rs1, rs2 }),
            0b110 => Some(Op::Or { rd, rs1, rs2 }),
            _ => Some(Op::And { rd, rs1, rs2 }),
        },
        0b010_0000 => match funct3(w) {
            0b000 => Some(Op::Sub { rd, rs1, rs2 }),
            0b101 => Some(Op::Sra { rd, rs1, rs2 }),
            _ => None,
        },
        0b000_0001 => match funct3(w) {
            0b000 => Some(Op::Mul { rd, rs1, rs2 }),
            0b001 => Some(Op::Mulh { rd, rs1, rs2 }),
            0b010 => Some(Op::Mulhsu { rd, rs1, rs2 }),
            0b011 => Some(Op::Mulhu { rd, rs1, rs2 }),
            0b100 => Some(Op::Div { rd, rs1, rs2 }),
            0b101 => Some(Op::Divu { rd, rs1, rs2 }),
            0b110 => Some(Op::Rem { rd, rs1, rs2 }),
            _ => Some(Op::Remu { rd, rs1, rs2 }),
        },
        _ => None,
    }
}

fn parse_misc_mem(w: u32) -> (r: Option<Op>)
    ensures
        r == spec_decode_misc_mem(w),
{
    if rd(w) == 0 && rs1(w) == 0 && unused1(w) == 0 {
        match funct3(w) {
            0b000 => Some(Op::Fence { pred: pred(w), succ: succ(w) }),
            0b001 => Some(Op::FenceI),
            _ => None,
        }
    } else {
        None
    }
}

fn parse_system(w: u32) -> (r: Option<Op>)
    ensures
        r == spec_decode_system(w),
{
    let rd = rd(w);
    let rs1 = rs1(w);
    let csr = csr(w);
    match funct3(w) {
        0b000 => {
            if rd == 0 && rs1 == 0 {
                match funct12(w) {
                    0b0000_0000_0000 => Some(Op::Ecall),
                    0b0000_0000_0001 => Some(Op::Ebreak),
                    _ => None,
                }
            } else {
                None
            }
        },
        0b001 => Some(Op::Csrrw { rd, rs1, csr }),
        0b010 => Some(Op::Csrrs { rd, rs1, csr }),
        0b011 => Some(Op::Csrrc { rd, rs1, csr }),
        0b101 => Some(Op::Csrrwi { rd, zimm: zimm(w), csr }),
        0b110 => Some(Op::Csrrsi { rd, zimm: zimm(w), csr }),
        0b111 => Some(Op::Csrrci { rd, zimm: zimm(w), csr }),
        _ => None,
    }
}

fn parse_amo(w: u32) -> (r: Option<Op>)
    ensures
        r == spec_decode_amo(w),
{
    let rd = rd(w);
    let rs1 = rs1(w);
    let rs2 = rs2(w);
    let aq = aq(w);
    let rl = rl(w);
    match funct3(w) {
        0b010 => match funct5(w) {
            0b0_0010 => {
                if rs2 == 0 {
                    Some(Op::LrW { rd, rs1, aq, rl })
                } else {
                    None
                }
            },
            0b0_0011 => Some(Op::ScW { rd, rs1, rs2, aq, rl }),
            0b0_0001 => Some(Op::AmoswapW { rd, rs1, rs2, aq, rl }),
            0b0_0000 => Some(Op::AmoaddW { rd, rs1, rs2, aq, rl }),
            0b0_0100 => Some(Op::AmoxorW { rd, rs1, rs2, aq, rl }),
            0b0_1100 => Some(Op::AmoandW { rd, rs1, rs2, aq, rl }),
            0b0_1000 => Some(Op::AmoorW { rd, rs1, rs2, aq, rl }),
            0b1_0000 => Some(Op::AmominW { rd, rs1, rs2, aq, rl }),
            0b1_0100 => Some(Op::AmomaxW { rd, rs1, rs2, aq, rl }),
            0b1_1000 => Some(Op::AmominuW { rd, rs1, rs2, aq, rl }),
            0b1_1100 => Some(Op::AmomaxuW { rd, rs1, rs2, aq, rl }),
            _ => None,
        },
        _ => None,
    }
}

fn parse_load_fp(w: u32) -> (r: Option<Op>)
    ensures
        r == spec_decode_load_fp(w),
{
    match funct3(w) {
        0b010 => Some(Op::Flw { rd: rd(w), rs1: rs1(w), i_imm: i_imm(w) }),
        0b011 => Some(Op::Fld { rd: rd(w), rs1: rs1(w), i_imm: i_imm(w) }),
        _ => None,
    }
}

fn parse_store_fp(w: u32) -> (r: Option<Op>)
    ensures
        r == spec_decode_store_fp(w),
{
    match funct3(w) {
        0b010 => Some(Op::Fsw { rs1: rs1(w), rs2: rs2(w), s_imm: s_imm(w) }),
        0b011 => Some(Op::Fsd { rs1: rs1(w), rs2: rs2(w), s_imm: s_imm(w) }),
        _ => None,
    }
}

fn parse_fma(w: u32, kind: u32) -> (r: Option<Op>)
    ensures
        r == spec_decode_fma(w, kind),
{
    let rd = rd(w);
    let rs1 = rs1(w);
    let rs2 = rs2(w);
    let rs3 = rs3(w);
    let rm = rm(w);
    match funct2(w) {
        0b00 => {
            if kind == 0 {
                Some(Op::FmaddS { rd, rs1, rs2, rs3, rm })
            } else if kind == 1 {
                Some(Op::FmsubS { rd, rs1, rs2, rs3, rm })
            } else if kind == 2 {
                Some(Op::FnmsubS { rd, rs1, rs2, rs3, rm })
            } else {
                Some(Op::FnmaddS { rd, rs1, rs2, rs3, rm })
            }
        },
        0b01 => {
            if kind == 0 {
                Some(Op::FmaddD { rd, rs1, rs2, rs3, rm })
            } else if kind == 1 {
                Some(Op::FmsubD { rd, rs1, rs2, rs3, rm })
            } else if kind == 2 {
                Some(Op::FnmsubD { rd, rs1, rs2, rs3, rm })
            } else {
                Some(Op::FnmaddD { rd, rs1, rs2, rs3, rm })
            }
        },
        _ => None,
    }
}

fn parse_opfp(w: u32) -> (r: Option<Op>)
    ensures
        r == spec_decode_opfp(w),
{
    let rd = rd(w);
    let rs1 = rs1(w);
    let rs2 = rs2(w);
    let rm = rm(w);
    match funct7(w) {
        // Single precision.
        0b000_0000 => Some(Op::FaddS { rd, rs1, rs2, rm }),
        0b000_0100 => Some(Op::FsubS { rd, rs1, rs2, rm }),
        0b000_1000 => Some(Op::FmulS { rd, rs1, rs2, rm }),
        0b000_1100 => Some(Op::FdivS { rd, rs1, rs2, rm }),
        0b010_1100 => {
            if rs2 == 0 {
                Some(Op::FsqrtS { rd, rs1, rm })
            } else {
                None
            }
        },
        0b001_0000 => match funct3(w) {
            0b000 => Some(Op::FsgnjS { rd, rs1, rs2 }),
            0b001 => Some(Op::FsgnjnS { rd, rs1, rs2 }),
            0b010 => Some(Op::FsgnjxS { rd, rs1, rs2 }),
            _ => None,
        },
        0b001_0100 => match funct3(w) {
            0b000 => Some(Op::FminS { rd, rs1, rs2 }),
            0b001 => Some(Op::FmaxS { rd, rs1, rs2 }),
            _ => None,
        },
        0b110_0000 => {
            if rs2 == 0 {
                Some(Op::FcvtWS { rd, rs1, rm })
            } else if rs2 == 1 {
                Some(Op::FcvtWuS { rd, rs1, rm })
            } else {
                None
            }
        },
        0b111_0000 => match funct3(w) {
            0b000 => {
                if rs2 == 0 {
                    Some(Op::FmvXW { rd, rs1 })
                } else {
                    None
                }
            },
            0b001 => {
                if rs2 == 0 {
                    Some(Op::FclassS { rd, rs1 })
                } else {
                    None
                }
            },
            _ => None,
        },
        0b101_0000 => match funct3(w) {
            0b010 => Some(Op::FeqS { rd, rs1, rs2 }),
            0b001 => Some(Op::FltS { rd, rs1, rs2 }),
            0b000 => Some(Op::FleS { rd, rs1, rs2 }),
            _ => None,
        },
        0b110_1000 => {
            if rs2 == 0 {
                Some(Op::FcvtSW { rd, rs1, rm })
            } else if rs2 == 1 {
                Some(Op::FcvtSWu { rd, rs1, rm })
            } else {
                None
            }
        },
        0b111_1000 => match funct3(w) {
            0b000 => {
                if rs2 == 0 {
                    Some(Op::FmvWX { rd, rs1 })
                } else {
                    None
                }
            },
            _ => None,
        },
        0b010_0000 => {
            if rs2 == 1 {
                Some(Op::FcvtSD { rd, rs1, rm })
            } else {
                None
            }
        },
        // Double precision.
        0b000_0001 => Some(Op::FaddD { rd, rs1, rs2, rm }),
        0b000_0101 => Some(Op::FsubD { rd, rs1, rs2, rm }),
        0b000_1001 => Some(Op::FmulD { rd, rs1, rs2, rm }),
        0b000_1101 => Some(Op::FdivD { rd, rs1, rs2, rm }),
        0b010_1101 => {
            if rs2 == 0 {
                Some(Op::FsqrtD { rd, rs1, rm })
            } else {
                None
            }
        },
        0b001_0001 => match funct3(w) {
            0b000 => Some(Op::FsgnjD { rd, rs1, rs2 }),
            0b001 => Some(Op::FsgnjnD { rd, rs1, rs2 }),
            0b010 => Some(Op::FsgnjxD { rd, rs1, rs2 }),
            _ => None,
        },
        0b001_0101 => match funct3(w) {
            0b000 => Some(Op::FminD { rd, rs1, rs2 }),
            0b001 => Some(Op::FmaxD { rd, rs1, rs2 }),
            _ => None,
        },
        0b110_0001 => {
            if rs2 == 0 {
                Some(Op::FcvtWD { rd, rs1, rm })
            } else if rs2 == 1 {
                Some(Op::FcvtWuD { rd, rs1, rm })
            } else {
                None
            }
        },
        0b101_0001 => match funct3(w) {
            0b010 => Some(Op::FeqD { rd, rs1, rs2 }),
            0b001 => Some(Op::FltD { rd, rs1, rs2 }),
            0b000 => Some(Op::FleD { rd, rs1, rs2 }),
            _ => None,
        },
        0b111_0001 => match funct3(w) {
            0b001 => {
                if rs2 == 0 {
                    Some(Op::FclassD { rd, rs1 })
                } else {
                    None
                }
            },
            _ => None,
        },
        0b110_1001 => {
            if rs2 == 0 {
                Some(Op::FcvtDW { rd, rs1, rm })
            } else if rs2 == 1 {
                Some(Op::FcvtDWu { rd, rs1, rm })
            } else {
                None
            }
        },
        0b010_0001 => {
            if rs2 == 0 {
                Some(Op::FcvtDS { rd, rs1, rm })
            } else {
                None
            }
        },
        _ => None,
    }
}

impl Op {
    /// Parse a 32-bit instruction word. Returns `None` on failure.
    pub fn parse(instr: u32) -> (r: Option<Op>)
        ensures
            r == spec_decode32(instr),
    {
        match opcode(instr) {
            0b011_0111 => Some(Op::Lui { rd: rd(instr), u_imm: u_imm(instr) }),
            0b001_0111 => Some(Op::Auipc { rd: rd(instr), u_imm: u_imm(instr) }),
            0b110_1111 => Some(Op::Jal { rd: rd(instr), j_imm: j_imm(instr) }),
            0b110_0111 => parse_jalr(instr),
            0b110_0011 => parse_branch(instr),
            0b000_0011 => parse_load(instr),
            0b010_0011 => parse_store(instr),
            0b001_0011 => parse_opimm(instr),
            0b011_0011 => parse_opreg(instr),
            0b000_1111 => parse_misc_mem(instr),
            0b111_0011 => parse_system(instr),
            0b010_1111 => parse_amo(instr),
            0b000_0111 => parse_load_fp(instr),
            0b010_0111 => parse_store_fp(instr),
            0b100_0011 => parse_fma(instr, 0),
            0b100_0111 => parse_fma(instr, 1),
            0b100_1011 => parse_fma(instr, 2),
            0b100_1111 => parse_fma(instr, 3),
            0b101_0011 => parse_opfp(instr),
            _ => None,
        }
    }
}

//
// Specification-level compressed decoder, one function per quadrant.
//

/// Compressed quadrant 0: stack-pointer-based allocation and memory.
pub open spec fn spec_decode_c0(c: u16) -> Option<Op> {
    if spec_cfunct3(c) == 0b000 {
        if spec_cimm4spn(c) == 0 {
            // The all-zero low quadrant is `c.illegal`: no match.
            None
        } else {
            Some(Op::Addi { rd: spec_crs2q(c), rs1: 2, i_imm: spec_cimm4spn(c) })
        }
    } else if spec_cfunct3(c) == 0b010 {
        Some(Op::Lw { rd: spec_crs2q(c), rs1: spec_crs1rdq(c), i_imm: spec_cimmw(c) })
    } else if spec_cfunct3(c) == 0b110 {
        Some(Op::Sw { rs1: spec_crs1rdq(c), rs2: spec_crs2q(c), s_imm: spec_cimmw(c) })
    } else if spec_cfunct3(c) == 0b001 {
        Some(Op::Fld { rd: spec_crs2q(c), rs1: spec_crs1rdq(c), i_imm: spec_cimmd(c) })
    } else if spec_cfunct3(c) == 0b011 {
        Some(Op::Flw { rd: spec_crs2q(c), rs1: spec_crs1rdq(c), i_imm: spec_cimmw(c) })
    } else if spec_cfunct3(c) == 0b101 {
        Some(Op::Fsd { rs1: spec_crs1rdq(c), rs2: spec_crs2q(c), s_imm: spec_cimmd(c) })
    } else if spec_cfunct3(c) == 0b111 {
        Some(Op::Fsw { rs1: spec_crs1rdq(c), rs2: spec_crs2q(c), s_imm: spec_cimmw(c) })
    } else {
        None
    }
}

/// Compressed quadrant 1: immediate arithmetic and control flow.
pub open spec fn spec_decode_c1(c: u16) -> Option<Op> {
    if spec_cfunct3(c) == 0b000 {
        Some(Op::Addi { rd: spec_crs1rd(c), rs1: spec_crs1rd(c), i_imm: spec_cimmi(c) })
    } else if spec_cfunct3(c) == 0b001 {
        Some(Op::Jal { rd: 1, j_imm: spec_cimmj(c) })
    } else if spec_cfunct3(c) == 0b010 {
        Some(Op::Addi { rd: spec_crs1rd(c), rs1: 0, i_imm: spec_cimmi(c) })
    } else if spec_cfunct3(c) == 0b011 {
        if spec_crs1rd(c) == 0b0_0010 {
            Some(Op::Addi { rd: 2, rs1: 2, i_imm: spec_cimm16sp(c) })
        } else {
            Some(Op::Lui { rd: spec_crs1rd(c), u_imm: spec_cimmui(c) })
        }
    } else if spec_cfunct3(c) == 0b100 {
        if spec_crs1rd_h2(c) == 0b00 {
            Some(Op::Srli { rd: spec_crs1rdq(c), rs1: spec_crs1rdq(c), shamt: spec_cimmsh6(c) })
        } else if spec_crs1rd_h2(c) == 0b01 {
            Some(Op::Srai { rd: spec_crs1rdq(c), rs1: spec_crs1rdq(c), shamt: spec_cimmsh6(c) })
        } else if spec_crs1rd_h2(c) == 0b10 {
            Some(Op::Andi { rd: spec_crs1rdq(c), rs1: spec_crs1rdq(c), i_imm: spec_cimmi(c) })
        } else {
            if spec_cfunct4_l0(c) == 0 {
                if spec_crs2_h2(c) == 0b00 {
                    Some(Op::Sub { rd: spec_crs1rdq(c), rs1: spec_crs1rdq(c), rs2: spec_crs2q(c) })
                } else if spec_crs2_h2(c) == 0b01 {
                    Some(Op::Xor { rd: spec_crs1rdq(c), rs1: spec_crs1rdq(c), rs2: spec_crs2q(c) })
                } else if spec_crs2_h2(c) == 0b10 {
                    Some(Op::Or { rd: spec_crs1rdq(c), rs1: spec_crs1rdq(c), rs2: spec_crs2q(c) })
                } else {
                    Some(Op::And { rd: spec_crs1rdq(c), rs1: spec_crs1rdq(c), rs2: spec_crs2q(c) })
                }
            } else {
                None
            }
        }
    } else if spec_cfunct3(c) == 0b101 {
        Some(Op::Jal { rd: 0, j_imm: spec_cimmj(c) })
    } else if spec_cfunct3(c) == 0b110 {
        Some(Op::Beq { rs1: spec_crs1rdq(c), rs2: 0, b_imm: spec_cimmb(c) })
    } else {
        Some(Op::Bne { rs1: spec_crs1rdq(c), rs2: 0, b_imm: spec_cimmb(c) })
    }
}

/// Compressed quadrant 2: register moves and stack-pointer-relative memory.
pub open spec fn spec_decode_c2(c: u16) -> Option<Op> {
    if spec_cfunct3(c) == 0b000 {
        Some(Op::Slli { rd: spec_crs1rd(c), rs1: spec_crs1rd(c), shamt: spec_cimmsh6(c) })
    } else if spec_cfunct3(c) == 0b010 {
        Some(Op::Lw { rd: spec_crs1rd(c), rs1: 2, i_imm: spec_cimmlwsp(c) })
    } else if spec_cfunct3(c) == 0b100 {
        if spec_cfunct4_l0(c) == 0 {
            if spec_crs2(c) == 0b0_0000 {
                Some(Op::Jalr { rd: 0, rs1: spec_crs1rd(c), i_imm: 0 })
            } else {
                Some(Op::Addi { rd: spec_crs1rd(c), rs1: spec_crs2(c), i_imm: 0 })
            }
        } else {
            if spec_crs2(c) == 0b0_0000 {
                if spec_crs1rd(c) == 0b0_0000 {
                    Some(Op::Ebreak)
                } else {
                    Some(Op::Jalr { rd: 1, rs1: spec_crs1rd(c), i_imm: 0 })
                }
            } else {
                Some(Op::Add { rd: spec_crs1rd(c), rs1: spec_crs1rd(c), rs2: spec_crs2(c) })
            }
        }
    } else if spec_cfunct3(c) == 0b110 {
        Some(Op::Sw { rs1: 2, rs2: spec_crs2(c), s_imm: spec_cimmswsp(c) })
    } else if spec_cfunct3(c) == 0b001 {
        Some(Op::Fld { rd: spec_crs1rd(c), rs1: 2, i_imm: spec_cimmldsp(c) })
    } else if spec_cfunct3(c) == 0b011 {
        Some(Op::Flw { rd: spec_crs1rd(c), rs1: 2, i_imm: spec_cimmlwsp(c) })
    } else if spec_cfunct3(c) == 0b101 {
        Some(Op::Fsd { rs1: 2, rs2: spec_crs2(c), s_imm: spec_cimmsdsp(c) })
    } else {
        Some(Op::Fsw { rs1: 2, rs2: spec_crs2(c), s_imm: spec_cimmswsp(c) })
    }
}

/// The compressed decoder: every halfword with low bits other than `0b11`
/// maps to at most one operation, always a variant the 32-bit decoder also
/// produces.
pub open spec fn spec_decode16(c: u16) -> Option<Op> {
    if spec_cquad(c) == 0b00 {
        spec_decode_c0(c)
    } else if spec_cquad(c) == 0b01 {
        spec_decode_c1(c)
    } else if spec_cquad(c) == 0b10 {
        spec_decode_c2(c)
    } else {
        None
    }
}

//
// Executable compressed decoder.
//

fn parse_c0(c: u16) -> (r: Option<Op>)
    ensures
        r == spec_decode_c0(c),
{
    match cfunct3(c) {
        0b000 => {
            let i = cimm4spn(c);
            if i == 0 {
                None
            } else {
                Some(Op::Addi { rd: crs2q(c), rs1: crsp(c), i_imm: i })
            }
        },
        0b010 => Some(Op::Lw { rd: crs2q(c), rs1: crs1rdq(c), i_imm: cimmw(c) }),
        0b110 => Some(Op::Sw { rs1: crs1rdq(c), rs2: crs2q(c), s_imm: cimmw(c) }),
        0b001 => Some(Op::Fld { rd: crs2q(c), rs1: crs1rdq(c), i_imm: cimmd(c) }),
        0b011 => Some(Op::Flw { rd: crs2q(c), rs1: crs1rdq(c), i_imm: cimmw(c) }),
        0b101 => Some(Op::Fsd { rs1: crs1rdq(c), rs2: crs2q(c), s_imm: cimmd(c) }),
        0b111 => Some(Op::Fsw { rs1: crs1rdq(c), rs2: crs2q(c), s_imm: cimmw(c) }),
        _ => None,
    }
}

fn parse_c1(c: u16) -> (r: Option<Op>)
    ensures
        r == spec_decode_c1(c),
{
    match cfunct3(c) {
        0b000 => Some(Op::Addi { rd: crs1rd(c), rs1: crs1rd(c), i_imm: cimmi(c) }),
        0b001 => Some(Op::Jal { rd: crra(c), j_imm: cimmj(c) }),
        0b010 => Some(Op::Addi { rd: crs1rd(c), rs1: crx0(c), i_imm: cimmi(c) }),
        0b011 => {
            if crs1rd(c) == 0b0_0010 {
                Some(Op::Addi { rd: crsp(c), rs1: crsp(c), i_imm: cimm16sp(c) })
            } else {
                Some(Op::Lui { rd: crs1rd(c), u_imm: cimmui(c) })
            }
        },
        0b100 => match crs1rd_h2(c) {
            0b00 => Some(Op::Srli { rd: crs1rdq(c), rs1: crs1rdq(c), shamt: cimmsh6(c) }),
            0b01 => Some(Op::Srai { rd: crs1rdq(c), rs1: crs1rdq(c), shamt: cimmsh6(c) }),
            0b10 => Some(Op::Andi { rd: crs1rdq(c), rs1: crs1rdq(c), i_imm: cimmi(c) }),
            _ => match cfunct4_l0(c) {
                0b0 => match crs2_h2(c) {
                    0b00 => Some(Op::Sub { rd: crs1rdq(c), rs1: crs1rdq(c), rs2: crs2q(c) }),
                    0b01 => Some(Op::Xor { rd: crs1rdq(c), rs1: crs1rdq(c), rs2: crs2q(c) }),
                    0b10 => Some(Op::Or { rd: crs1rdq(c), rs1: crs1rdq(c), rs2: crs2q(c) }),
                    _ => Some(Op::And { rd: crs1rdq(c), rs1: crs1rdq(c), rs2: crs2q(c) }),
                },
                _ => None,
            },
        },
        0b101 => Some(Op::Jal { rd: crx0(c), j_imm: cimmj(c) }),
        0b110 => Some(Op::Beq { rs1: crs1rdq(c), rs2: crx0(c), b_imm: cimmb(c) }),
        _ => Some(Op::Bne { rs1: crs1rdq(c), rs2: crx0(c), b_imm: cimmb(c) }),
    }
}

fn parse_c2(c: u16) -> (r: Option<Op>)
    ensures
        r == spec_decode_c2(c),
{
    match cfunct3(c) {
        0b000 => Some(Op::Slli { rd: crs1rd(c), rs1: crs1rd(c), shamt: cimmsh6(c) }),
        0b010 => Some(Op::Lw { rd: crs1rd(c), rs1: crsp(c), i_imm: cimmlwsp(c) }),
        0b100 => match cfunct4_l0(c) {
            0b0 => {
                if crs2(c) == 0b0_0000 {
                    Some(Op::Jalr { rd: crx0(c), rs1: crs1rd(c), i_imm: czero(c) })
                } else {
                    Some(Op::Addi { rd: crs1rd(c), rs1: crs2(c), i_imm: czero(c) })
                }
            },
            _ => {
                if crs2(c) == 0b0_0000 {
                    if crs1rd(c) == 0b0_0000 {
                        Some(Op::Ebreak)
                    } else {
                        Some(Op::Jalr { rd: crra(c), rs1: crs1rd(c), i_imm: czero(c) })
                    }
                } else {
                    Some(Op::Add { rd: crs1rd(c), rs1: crs1rd(c), rs2: crs2(c) })
                }
            },
        },
        0b110 => Some(Op::Sw { rs1: crsp(c), rs2: crs2(c), s_imm: cimmswsp(c) }),
        0b001 => Some(Op::Fld { rd: crs1rd(c), rs1: crsp(c), i_imm: cimmldsp(c) }),
        0b011 => Some(Op::Flw { rd: crs1rd(c), rs1: crsp(c), i_imm: cimmlwsp(c) }),
        0b101 => Some(Op::Fsd { rs1: crsp(c), rs2: crs2(c), s_imm: cimmsdsp(c) }),
        _ => Some(Op::Fsw { rs1: crsp(c), rs2: crs2(c), s_imm: cimmswsp(c) }),
    }
}

impl Op {
    /// Parse a compressed 16-bit instruction halfword. Returns `None` on
    /// failure, notably for `c.illegal` and for every halfword whose low two
    /// bits read `0b11` (those halfwords start a 32-bit instruction).
    pub fn parse_c(instr: u16) -> (r: Option<Op>)
        ensures
            r == spec_decode16(instr),
    {
        match cquad(instr) {
            0b00 => parse_c0(instr),
            0b01 => parse_c1(instr),
            0b10 => parse_c2(instr),
            _ => None,
        }
    }
}

//
// Decoder facts the interpreter and its laws rest on.
//

/// Every operation the 32-bit decoder produces is well-formed.
pub proof fn lemma_decode32_wf(w: u32)
    ensures
        spec_decode32(w) matches Some(op) ==> op_wf(op),
{
    crate::fields::lemma_mask5_u32(w >> 7);
    crate::fields::lemma_mask5_u32(w >> 15);
    crate::fields::lemma_mask5_u32(w >> 20);
    crate::fields::lemma_mask5_u32(w >> 27);
}

/// Every operation the compressed decoder produces is well-formed.
pub proof fn lemma_decode16_wf(c: u16)
    ensures
        spec_decode16(c) matches Some(op) ==> op_wf(op),
{
    crate::cfields::lemma_mask5_u16(c >> 7);
    crate::cfields::lemma_mask5_u16(c >> 2);
    crate::cfields::lemma_mask3_u16(c >> 7);
    crate::cfields::lemma_mask3_u16(c >> 2);
}

/// A halfword whose low two bits read `0b11` starts a 32-bit instruction:
/// the compressed decoder declines it, and fetching takes the 32-bit path.
pub proof fn lemma_decode16_declines_wide(c: u16)
    requires
        c & 0b11 == 0b11,
    ensures
        spec_decode16(c) == None::<Op>,
{
}

//
// Compressed forms are exact aliases of 32-bit instructions. The witnesses
// below re-encode a decoded operation into the full-width format it aliases
// and show the 32-bit decoder recovers the very same operation.
//

/// The I-format image of an operation: `imm[11:0] rs1 funct3 rd opcode`.
pub open spec fn spec_enc_i(opc: u32, f3: u32, rdv: u32, rs1v: u32, imm: i32) -> u32 {
    (((imm as u32) & 0xfff) << 20) | (rs1v << 15) | (f3 << 12) | (rdv << 7) | opc
}

/// The S-format image: `imm[11:5] rs2 rs1 funct3 imm[4:0] opcode`.
pub open spec fn spec_enc_s(opc: u32, f3: u32, rs1v: u32, rs2v: u32, imm: i32) -> u32 {
    ((((imm as u32) >> 5) & 0x7f) << 25) | (rs2v << 20) | (rs1v << 15) | (f3 << 12) | (((imm
        as u32) & 0x1f) << 7) | opc
}

/// The B-format image: `imm[12|10:5] rs2 rs1 funct3 imm[4:1|11] opcode`.
pub open spec fn spec_enc_b(f3: u32, rs1v: u32, rs2v: u32, imm: i32) -> u32 {
    ((((imm as u32) >> 12) & 1) << 31) | ((((imm as u32) >> 5) & 0x3f) << 25) | (rs2v << 20) | (
    rs1v << 15) | (f3 << 12) | ((((imm as u32) >> 1) & 0xf) << 8) | ((((imm as u32) >> 11) & 1)
        << 7) | 0b110_0011
}

/// The U-format image: `imm[31:12] rd opcode`.
pub open spec fn spec_enc_u(rdv: u32, imm: i32) -> u32 {
    (imm as u32) | (rdv << 7) | 0b011_0111
}

/// The J-format image: `imm[20|10:1|11|19:12] rd opcode`.
pub open spec fn spec_enc_j(rdv: u32, imm: i32) -> u32 {
    ((((imm as u32) >> 20) & 1) << 31) | ((((imm as u32) >> 1) & 0x3ff) << 21) | ((((imm as u32)
        >> 11) & 1) << 20) | ((((imm as u32) >> 12) & 0xff) << 12) | (rdv << 7) | 0b110_1111
}

/// The R-format image: `funct7 rs2 rs1 funct3 rd opcode`.
pub open spec fn spec_enc_r(opc: u32, f3: u32, f7: u32, rdv: u32, rs1v: u32, rs2v: u32) -> u32 {
    (f7 << 25) | (rs2v << 20) | (rs1v << 15) | (f3 << 12) | (rdv << 7) | opc
}

/// The fields the 32-bit decoder reads off an I-format image.
proof fn lemma_enc_i(opc: u32, f3: u32, rdv: u32, rs1v: u32, imm: i32)
    requires
        opc < 0x80,
        f3 < 8,
        rdv < 32,
        rs1v < 32,
        -2048 <= imm < 2048,
    ensures
        spec_opcode(spec_enc_i(opc, f3, rdv, rs1v, imm)) == opc,
        spec_funct3(spec_enc_i(opc, f3, rdv, rs1v, imm)) == f3,
        spec_rd(spec_enc_i(opc, f3, rdv, rs1v, imm)) == rdv as usize,
        spec_rs1(spec_enc_i(opc, f3, rdv, rs1v, imm)) == rs1v as usize,
        spec_i_imm(spec_enc_i(opc, f3, rdv, rs1v, imm)) == imm,
{
    let w = spec_enc_i(opc, f3, rdv, rs1v, imm);
    assert((w & 0x7f) == opc && ((w & 0x0000_7000) >> 12) == f3 && ((w >> 7) & 0x1f) == rdv && ((w
        >> 15) & 0x1f) == rs1v && (((w & 0xfff0_0000) as i32) >> 20) == imm) by (bit_vector)
        requires
            w == (((imm as u32) & 0xfff) << 20) | (rs1v << 15) | (f3 << 12) | (rdv << 7) | opc,
            opc < 0x80,
            f3 < 8,
            rdv < 32,
            rs1v < 32,
            -2048 <= imm < 2048,
    ;
}

/// The fields the 32-bit decoder reads off an S-format image.
proof fn lemma_enc_s(opc: u32, f3: u32, rs1v: u32, rs2v: u32, imm: i32)
    requires
        opc < 0x80,
        f3 < 8,
        rs1v < 32,
        rs2v < 32,
        -2048 <= imm < 2048,
    ensures
        spec_opcode(spec_enc_s(opc, f3, rs1v, rs2v, imm)) == opc,
        spec_funct3(spec_enc_s(opc, f3, rs1v, rs2v, imm)) == f3,
        spec_rs1(spec_enc_s(opc, f3, rs1v, rs2v, imm)) == rs1v as usize,
        spec_rs2(spec_enc_s(opc, f3, rs1v, rs2v, imm)) == rs2v as usize,
        spec_s_imm(spec_enc_s(opc, f3, rs1v, rs2v, imm)) == imm,
{
    let w = spec_enc_s(opc, f3, rs1v, rs2v, imm);
    assert((w & 0x7f) == opc && ((w & 0x0000_7000) >> 12) == f3 && ((w >> 15) & 0x1f) == rs1v && ((
    w >> 20) & 0x1f) == rs2v && ((((w & 0x0000_0f80) as i32) >> 7) | (((w & 0xfe00_0000) as i32)
        >> 20)) == imm) by (bit_vector)
        requires
            w == ((((imm as u32) >> 5) & 0x7f) << 25) | (rs2v << 20) | (rs1v << 15) | (f3 << 12) | (
            ((imm as u32) & 0x1f) << 7) | opc,
            opc < 0x80,
            f3 < 8,
            rs1v < 32,
            rs2v < 32,
            -2048 <= imm < 2048,
    ;
}

/// The fields the 32-bit decoder reads off a B-format image.
proof fn lemma_enc_b(f3: u32, rs1v: u32, rs2v: u32, imm: i32)
    requires
        f3 < 8,
        rs1v < 32,
        rs2v < 32,
        -4096 <= imm < 4096,
        (imm as u32) & 1 == 0,
    ensures
        spec_opcode(spec_enc_b(f3, rs1v, rs2v, imm)) == 0b110_0011,
        spec_funct3(spec_enc_b(f3, rs1v, rs2v, imm)) == f3,
        spec_rs1(spec_enc_b(f3, rs1v, rs2v, imm)) == rs1v as usize,
        spec_rs2(spec_enc_b(f3, rs1v, rs2v, imm)) == rs2v as usize,
        spec_b_imm(spec_enc_b(f3, rs1v, rs2v, imm)) == imm,
{
    let w = spec_enc_b(f3, rs1v, rs2v, imm);
    assert((w & 0x7f) == 0b110_0011 && ((w & 0x0000_7000) >> 12) == f3 && ((w >> 15) & 0x1f)
        == rs1v && ((w >> 20) & 0x1f) == rs2v && ((((w & 0x0000_0f00) as i32) >> 7) | (((w
        & 0x7e00_0000) as i32) >> 20) | (((w & 0x0000_0080) as i32) << 4) | (((w & 0x8000_0000)
        as i32) >> 19)) == imm) by (bit_vector)
        requires
            w == ((((imm as u32) >> 12) & 1) << 31) | ((((imm as u32) >> 5) & 0x3f) << 25) | (rs2v
                << 20) | (rs1v << 15) | (f3 << 12) | ((((imm as u32) >> 1) & 0xf) << 8) | ((((imm
                as u32) >> 11) & 1) << 7) | 0b110_0011,
            f3 < 8,
            rs1v < 32,
            rs2v < 32,
            -4096 <= imm < 4096,
            (imm as u32) & 1 == 0,
    ;
}

/// The fields the 32-bit decoder reads off a U-format image.
proof fn lemma_enc_u(rdv: u32, imm: i32)
    requires
        rdv < 32,
        (imm as u32) & 0xfff == 0,
    ensures
        spec_opcode(spec_enc_u(rdv, imm)) == 0b011_0111,
        spec_rd(spec_enc_u(rdv, imm)) == rdv as usize,
        spec_u_imm(spec_enc_u(rdv, imm)) == imm,
{
    let w = spec_enc_u(rdv, imm);
    assert((w & 0x7f) == 0b011_0111 && ((w >> 7) & 0x1f) == rdv && ((w & 0xffff_f000) as i32)
        == imm) by (bit_vector)
        requires
            w == (imm as u32) | (rdv << 7) | 0b011_0111,
            rdv < 32,
            (imm as u32) & 0xfff == 0,
    ;
}

/// The fields the 32-bit decoder reads off a J-format image.
proof fn lemma_enc_j(rdv: u32, imm: i32)
    requires
        rdv < 32,
        -1048576 <= imm < 1048576,
        (imm as u32) & 1 == 0,
    ensures
        spec_opcode(spec_enc_j(rdv, imm)) == 0b110_1111,
        spec_rd(spec_enc_j(rdv, imm)) == rdv as usize,
        spec_j_imm(spec_enc_j(rdv, imm)) == imm,
{
    let w = spec_enc_j(rdv, imm);
    assert((w & 0x7f) == 0b110_1111 && ((w >> 7) & 0x1f) == rdv && ((((w & 0x7fe0_0000) as i32)
        >> 20) | (((w & 0x0010_0000) as i32) >> 9) | ((w & 0x000f_f000) as i32) | (((w
        & 0x8000_0000) as i32) >> 11)) == imm) by (bit_vector)
        requires
            w == ((((imm as u32) >> 20) & 1) << 31) | ((((imm as u32) >> 1) & 0x3ff) << 21) | ((((
            imm as u32) >> 11) & 1) << 20) | ((((imm as u32) >> 12) & 0xff) << 12) | (rdv << 7)
                | 0b110_1111,
            rdv < 32,
            -1048576 <= imm < 1048576,
            (imm as u32) & 1 == 0,
    ;
}

/// The fields the 32-bit decoder reads off an R-format image.
proof fn lemma_enc_r(opc: u32, f3: u32, f7: u32, rdv: u32, rs1v: u32, rs2v: u32)
    requires
        opc < 0x80,
        f3 < 8,
        f7 < 0x80,
        rdv < 32,
        rs1v < 32,
        rs2v < 32,
    ensures
        spec_opcode(spec_enc_r(opc, f3, f7, rdv, rs1v, rs2v)) == opc,
        spec_funct3(spec_enc_r(opc, f3, f7, rdv, rs1v, rs2v)) == f3,
        spec_funct7(spec_enc_r(opc, f3, f7, rdv, rs1v, rs2v)) == f7,
        spec_shtype(spec_enc_r(opc, f3, f7, rdv, rs1v, rs2v)) == f7,
        spec_shamt(spec_enc_r(opc, f3, f7, rdv, rs1v, rs2v)) == rs2v,
        spec_rd(spec_enc_r(opc, f3, f7, rdv, rs1v, rs2v)) == rdv as usize,
        spec_rs1(spec_enc_r(opc, f3, f7, rdv, rs1v, rs2v)) == rs1v as usize,
        spec_rs2(spec_enc_r(opc, f3, f7, rdv, rs1v, rs2v)) == rs2v as usize,
{
    let w = spec_enc_r(opc, f3, f7, rdv, rs1v, rs2v);
    assert((w & 0x7f) == opc && ((w & 0x0000_7000) >> 12) == f3 && ((w & 0xfe00_0000) >> 25) == f7
        && ((w >> 20) & 0x1f) == rs2v && ((w >> 7) & 0x1f) == rdv && ((w >> 15) & 0x1f) == rs1v)
        by (bit_vector)
        requires
            w == (f7 << 25) | (rs2v << 20) | (rs1v << 15) | (f3 << 12) | (rdv << 7) | opc,
            opc < 0x80,
            f3 < 8,
            f7 < 0x80,
            rdv < 32,
            rs1v < 32,
            rs2v < 32,
    ;
}

/// The ranges of the compressed immediates: every one fits the field of the
/// full-width format its row expands into.
proof fn lemma_cimm_ranges(c: u16)
    ensures
        0 <= spec_cimm4spn(c) < 2048,
        0 <= spec_cimmw(c) < 2048,
        0 <= spec_cimmd(c) < 2048,
        0 <= spec_cimmlwsp(c) < 2048,
        0 <= spec_cimmldsp(c) < 2048,
        0 <= spec_cimmswsp(c) < 2048,
        0 <= spec_cimmsdsp(c) < 2048,
        spec_cimmsh6(c) < 64,
        -2048 <= spec_cimmi(c) < 2048,
        -2048 <= spec_cimm16sp(c) < 2048,
        -4096 <= spec_cimmb(c) < 4096,
        (spec_cimmb(c) as u32) & 1 == 0,
        spec_cimmb(c) % 2 == 0,
        -1048576 <= spec_cimmj(c) < 1048576,
        (spec_cimmj(c) as u32) & 1 == 0,
        spec_cimmj(c) % 2 == 0,
        (spec_cimmui(c) as u32) & 0xfff == 0,
{
    assert(((((c & 0x1800) >> 11) << 4) | (((c & 0x0780) >> 7) << 6) | (((c & 0x0040) >> 6) << 2)
        | (((c & 0x0020) >> 5) << 3)) < 2048 && ((((c & 0x1c00) >> 10) << 3) | (((c & 0x0040) >> 6)
        << 2) | (((c & 0x0020) >> 5) << 6)) < 2048 && ((((c & 0x1c00) >> 10) << 3) | (((c & 0x0060)
        >> 5) << 6)) < 2048 && ((((c & 0x1000) >> 12) << 5) | (((c & 0x0070) >> 4) << 2) | (((c
        & 0x000c) >> 2) << 6)) < 2048 && ((((c & 0x1000) >> 12) << 5) | (((c & 0x0060) >> 5) << 3)
        | (((c & 0x001c) >> 2) << 6)) < 2048 && ((((c & 0x1e00) >> 9) << 2) | (((c & 0x0180) >> 7)
        << 6)) < 2048 && ((((c & 0x1c00) >> 10) << 3) | (((c & 0x0380) >> 7) << 6)) < 2048 && (((((
    c & 0x1000) as u32) >> 12) << 5) | (((c & 0x007c) as u32) >> 2)) < 64) by (bit_vector);
    assert({
        let i = (((c & 0x1000) as i32) << 19) >> 26 | (((c & 0x007c) as i32) >> 2);
        -2048 <= i < 2048
    }) by (bit_vector);
    assert({
        let i = ((((c & 0x1000) as i32) << 19) >> 22) | ((((c & 0x0040) as i32) >> 6) << 4) | ((((c
            & 0x0020) as i32) >> 5) << 6) | ((((c & 0x0018) as i32) >> 3) << 7) | ((((c & 0x0004)
            as i32) >> 2) << 5);
        -2048 <= i < 2048
    }) by (bit_vector);
    assert({
        let i = ((((c & 0x1000) as i32) << 19) >> 23) | ((((c & 0x0c00) as i32) >> 10) << 3) | ((((
        c & 0x0060) as i32) >> 5) << 6) | ((((c & 0x0018) as i32) >> 3) << 1) | ((((c & 0x0004)
            as i32) >> 2) << 5);
        -4096 <= i < 4096 && (i as u32) & 1 == 0
    }) by (bit_vector);
    assert({
        let i = ((((c & 0x1000) as i32) << 19) >> 20) | ((((c & 0x0800) as i32) >> 11) << 4) | ((((
        c & 0x0600) as i32) >> 9) << 8) | ((((c & 0x0100) as i32) >> 8) << 10) | ((((c & 0x0080)
            as i32) >> 7) << 6) | ((((c & 0x0040) as i32) >> 6) << 7) | ((((c & 0x0038) as i32)
            >> 3) << 1) | ((((c & 0x0004) as i32) >> 2) << 5);
        -1048576 <= i < 1048576 && (i as u32) & 1 == 0
    }) by (bit_vector);
    assert({
        let i = ((((c & 0x1000) as i32) << 19) >> 14) | ((((c & 0x007c) as i32) >> 2) << 12);
        (i as u32) & 0xfff == 0
    }) by (bit_vector);
    assert(spec_cimmb(c) % 2 == 0) by {
        lemma_even_from_bit(spec_cimmb(c));
    }
    assert(spec_cimmj(c) % 2 == 0) by {
        lemma_even_from_bit(spec_cimmj(c));
    }
}

/// A value with a clear low bit is even.
proof fn lemma_even_from_bit(i: i32)
    requires
        (i as u32) & 1 == 0,
    ensures
        i % 2 == 0,
{
    assert((i as u32) & 1 == 0 ==> i % 2 == 0) by (bit_vector);
}

/// The field values of the one fixed expansion, `ebreak`.
proof fn lemma_enc_ebreak()
    ensures
        spec_opcode(0x0010_0073) == 0b111_0011,
        spec_funct3(0x0010_0073) == 0,
        spec_rd(0x0010_0073) == 0,
        spec_rs1(0x0010_0073) == 0,
        spec_funct12(0x0010_0073) == 1,
{
    assert((0x0010_0073u32 & 0x7f) == 0x73 && ((0x0010_0073u32 & 0x0000_7000) >> 12) == 0 && ((
    0x0010_0073u32 >> 7) & 0x1f) == 0 && ((0x0010_0073u32 >> 15) & 0x1f) == 0 && ((0x0010_0073u32
        & 0xfff0_0000) >> 20) == 1) by (bit_vector);
}

/// The compressed shift rows can carry a shift amount with bit 5 set, which
/// the 32-bit shift field cannot; such amounts are reserved in RV32 and have
/// no full-width alias.
pub open spec fn spec_wide_shamt(op: Op) -> bool {
    match op {
        Op::Slli { shamt, .. } => shamt >= 32,
        Op::Srli { shamt, .. } => shamt >= 32,
        Op::Srai { shamt, .. } => shamt >= 32,
        _ => false,
    }
}

/// Compressed forms are exact aliases: whatever operation the compressed
/// decoder produces, some 32-bit instruction word decodes to the very same
/// operation, so both fetch paths execute through one dispatch and can only
/// differ in how far the program counter advances. The one exception is a
/// compressed shift whose amount does not fit the full-width shift field.
pub proof fn lemma_compressed_is_alias(c: u16)
    ensures
        spec_decode16(c) matches Some(op) ==> spec_wide_shamt(op) || exists|w: u32|
            spec_decode32(w) == Some(op),
{
    crate::cfields::lemma_mask5_u16(c >> 7);
    crate::cfields::lemma_mask5_u16(c >> 2);
    crate::cfields::lemma_mask3_u16(c >> 7);
    crate::cfields::lemma_mask3_u16(c >> 2);
    lemma_cimm_ranges(c);
    if spec_decode16(c) is Some {
        let op = spec_decode16(c)->Some_0;
        match op {
            Op::Addi { rd, rs1, i_imm } => {
                lemma_enc_i(0b001_0011, 0b000, rd as u32, rs1 as u32, i_imm);
                assert(spec_decode32(spec_enc_i(0b001_0011, 0b000, rd as u32, rs1 as u32, i_imm))
                    == Some(op));
            },
            Op::Lw { rd, rs1, i_imm } => {
                lemma_enc_i(0b000_0011, 0b010, rd as u32, rs1 as u32, i_imm);
                assert(spec_decode32(spec_enc_i(0b000_0011, 0b010, rd as u32, rs1 as u32, i_imm))
                    == Some(op));
            },
            Op::Flw { rd, rs1, i_imm } => {
                lemma_enc_i(0b000_0111, 0b010, rd as u32, rs1 as u32, i_imm);
                assert(spec_decode32(spec_enc_i(0b000_0111, 0b010, rd as u32, rs1 as u32, i_imm))
                    == Some(op));
            },
            Op::Fld { rd, rs1, i_imm } => {
                lemma_enc_i(0b000_0111, 0b011, rd as u32, rs1 as u32, i_imm);
                assert(spec_decode32(spec_enc_i(0b000_0111, 0b011, rd as u32, rs1 as u32, i_imm))
                    == Some(op));
            },
            Op::Jalr { rd, rs1, i_imm } => {
                lemma_enc_i(0b110_0111, 0b000, rd as u32, rs1 as u32, i_imm);
                assert(spec_decode32(spec_enc_i(0b110_0111, 0b000, rd as u32, rs1 as u32, i_imm))
                    == Some(op));
            },
            Op::Andi { rd, rs1, i_imm } => {
                lemma_enc_i(0b001_0011, 0b111, rd as u32, rs1 as u32, i_imm);
                assert(spec_decode32(spec_enc_i(0b001_0011, 0b111, rd as u32, rs1 as u32, i_imm))
                    == Some(op));
            },
            Op::Sw { rs1, rs2, s_imm } => {
                lemma_enc_s(0b010_0011, 0b010, rs1 as u32, rs2 as u32, s_imm);
                assert(spec_decode32(spec_enc_s(0b010_0011, 0b010, rs1 as u32, rs2 as u32, s_imm))
                    == Some(op));
            },
            Op::Fsw { rs1, rs2, s_imm } => {
                lemma_enc_s(0b010_0111, 0b010, rs1 as u32, rs2 as u32, s_imm);
                assert(spec_decode32(spec_enc_s(0b010_0111, 0b010, rs1 as u32, rs2 as u32, s_imm))
                    == Some(op));
            },
            Op::Fsd { rs1, rs2, s_imm } => {
                lemma_enc_s(0b010_0111, 0b011, rs1 as u32, rs2 as u32, s_imm);
                assert(spec_decode32(spec_enc_s(0b010_0111, 0b011, rs1 as u32, rs2 as u32, s_imm))
                    == Some(op));
            },
            Op::Lui { rd, u_imm } => {
                lemma_enc_u(rd as u32, u_imm);
                assert(spec_decode32(spec_enc_u(rd as u32, u_imm)) == Some(op));
            },
            Op::Jal { rd, j_imm } => {
                lemma_enc_j(rd as u32, j_imm);
                assert(spec_decode32(spec_enc_j(rd as u32, j_imm)) == Some(op));
            },
            Op::Beq { rs1, rs2, b_imm } => {
                lemma_enc_b(0b000, rs1 as u32, rs2 as u32, b_imm);
                assert(spec_decode32(spec_enc_b(0b000, rs1 as u32, rs2 as u32, b_imm)) == Some(
                    op,
                ));
            },
            Op::Bne { rs1, rs2, b_imm } => {
                lemma_enc_b(0b001, rs1 as u32, rs2 as u32, b_imm);
                assert(spec_decode32(spec_enc_b(0b001, rs1 as u32, rs2 as u32, b_imm)) == Some(
                    op,
                ));
            },
            Op::Sub { rd, rs1, rs2 } => {
                lemma_enc_r(0b011_0011, 0b000, 0b010_0000, rd as u32, rs1 as u32, rs2 as u32);
                assert(spec_decode32(
                    spec_enc_r(0b011_0011, 0b000, 0b010_0000, rd as u32, rs1 as u32, rs2 as u32),
                ) == Some(op));
            },
            Op::Xor { rd, rs1, rs2 } => {
                lemma_enc_r(0b011_0011, 0b100, 0b000_0000, rd as u32, rs1 as u32, rs2 as u32);
                assert(spec_decode32(
                    spec_enc_r(0b011_0011, 0b100, 0b000_0000, rd as u32, rs1 as u32, rs2 as u32),
                ) == Some(op));
            },
            Op::Or { rd, rs1, rs2 } => {
                lemma_enc_r(0b011_0011, 0b110, 0b000_0000, rd as u32, rs1 as u32, rs2 as u32);
                assert(spec_decode32(
                    spec_enc_r(0b011_0011, 0b110, 0b000_0000, rd as u32, rs1 as u32, rs2 as u32),
                ) == Some(op));
            },
            Op::And { rd, rs1, rs2 } => {
                lemma_enc_r(0b011_0011, 0b111, 0b000_0000, rd as u32, rs1 as u32, rs2 as u32);
                assert(spec_decode32(
                    spec_enc_r(0b011_0011, 0b111, 0b000_0000, rd as u32, rs1 as u32, rs2 as u32),
                ) == Some(op));
            },
            Op::Add { rd, rs1, rs2 } => {
                lemma_enc_r(0b011_0011, 0b000, 0b000_0000, rd as u32, rs1 as u32, rs2 as u32);
                assert(spec_decode32(
                    spec_enc_r(0b011_0011, 0b000, 0b000_0000, rd as u32, rs1 as u32, rs2 as u32),
                ) == Some(op));
            },
            Op::Slli { rd, rs1, shamt } => {
                if shamt < 32 {
                    lemma_enc_r(0b001_0011, 0b001, 0b000_0000, rd as u32, rs1 as u32, shamt);
                    assert(spec_decode32(
                        spec_enc_r(0b001_0011, 0b001, 0b000_0000, rd as u32, rs1 as u32, shamt),
                    ) == Some(op));
                }
            },
            Op::Srli { rd, rs1, shamt } => {
                if shamt < 32 {
                    lemma_enc_r(0b001_0011, 0b101, 0b000_0000, rd as u32, rs1 as u32, shamt);
                    assert(spec_decode32(
                        spec_enc_r(0b001_0011, 0b101, 0b000_0000, rd as u32, rs1 as u32, shamt),
                    ) == Some(op));
                }
            },
            Op::Srai { rd, rs1, shamt } => {
                if shamt < 32 {
                    lemma_enc_r(0b001_0011, 0b101, 0b010_0000, rd as u32, rs1 as u32, shamt);
                    assert(spec_decode32(
                        spec_enc_r(0b001_0011, 0b101, 0b010_0000, rd as u32, rs1 as u32, shamt),
                    ) == Some(op));
                }
            },
            Op::Ebreak => {
                lemma_enc_ebreak();
                assert(spec_decode32(0x0010_0073) == Some(op));
            },
            _ => {
                assert(false);
            },
        }
    }
}

} // verus!



