//! Decoder tests: 32-bit and compressed instruction words map to the
//! expected operations, and unknown patterns decline.

use rvsim::Op;

fn enc_i(opcode: u32, rd: u32, funct3: u32, rs1: u32, imm: u32) -> u32 {
    ((imm & 0xfff) << 20) | (rs1 << 15) | (funct3 << 12) | (rd << 7) | opcode
}

fn enc_r(opcode: u32, rd: u32, funct3: u32, rs1: u32, rs2: u32, funct7: u32) -> u32 {
    (funct7 << 25) | (rs2 << 20) | (rs1 << 15) | (funct3 << 12) | (rd << 7) | opcode
}

fn enc_u(opcode: u32, rd: u32, imm20: u32) -> u32 {
    (imm20 << 12) | (rd << 7) | opcode
}

#[test]
fn parse_lui_auipc() {
    assert_eq!(
        Op::parse(enc_u(0b011_0111, 7, 0xfffff)),
        Some(Op::Lui { rd: 7, u_imm: 0xfffff000u32 as i32 })
    );
    assert_eq!(
        Op::parse(enc_u(0b001_0111, 1, 0x12345)),
        Some(Op::Auipc { rd: 1, u_imm: 0x12345000 })
    );
}

#[test]
fn parse_alu_imm() {
    // addi x5, x6, -1
    assert_eq!(
        Op::parse(enc_i(0b001_0011, 5, 0b000, 6, 0xfff)),
        Some(Op::Addi { rd: 5, rs1: 6, i_imm: -1 })
    );
    // srai x1, x2, 7
    assert_eq!(
        Op::parse(enc_r(0b001_0011, 1, 0b101, 2, 7, 0b010_0000)),
        Some(Op::Srai { rd: 1, rs1: 2, shamt: 7 })
    );
    // srli with a nonzero shtype declines
    assert_eq!(Op::parse(enc_r(0b001_0011, 1, 0b101, 2, 7, 0b011_0000)), None);
}

#[test]
fn parse_alu_reg_and_mul() {
    assert_eq!(
        Op::parse(enc_r(0b011_0011, 3, 0b000, 4, 5, 0b000_0000)),
        Some(Op::Add { rd: 3, rs1: 4, rs2: 5 })
    );
    assert_eq!(
        Op::parse(enc_r(0b011_0011, 3, 0b000, 4, 5, 0b010_0000)),
        Some(Op::Sub { rd: 3, rs1: 4, rs2: 5 })
    );
    assert_eq!(
        Op::parse(enc_r(0b011_0011, 5, 0b100, 6, 0, 0b000_0001)),
        Some(Op::Div { rd: 5, rs1: 6, rs2: 0 })
    );
    assert_eq!(Op::parse(enc_r(0b011_0011, 3, 0b001, 4, 5, 0b010_0000)), None);
}

#[test]
fn parse_branch_offsets() {
    // beq x1, x2, -4: imm[12|10:5]=bits 31:25, imm[4:1|11]=bits 11:7
    // -4 = 0b1_1111_1111_1100 (13 bits)
    let imm: i32 = -4;
    let w = ((((imm >> 12) & 1) as u32) << 31)
        | ((((imm >> 5) & 0x3f) as u32) << 25)
        | (2 << 20)
        | (1 << 15)
        | (0b000 << 12)
        | ((((imm >> 1) & 0xf) as u32) << 8)
        | ((((imm >> 11) & 1) as u32) << 7)
        | 0b110_0011;
    assert_eq!(Op::parse(w), Some(Op::Beq { rs1: 1, rs2: 2, b_imm: -4 }));
}

#[test]
fn parse_system_and_fence() {
    assert_eq!(Op::parse(0x0000_0073), Some(Op::Ecall));
    assert_eq!(Op::parse(0x0010_0073), Some(Op::Ebreak));
    // ebreak with a nonzero rd declines
    assert_eq!(Op::parse(0x0010_0073 | (1 << 7)), None);
    // csrrs x5, fflags, x0
    assert_eq!(
        Op::parse(enc_i(0b111_0011, 5, 0b010, 0, 0x001)),
        Some(Op::Csrrs { rd: 5, rs1: 0, csr: 0x001 })
    );
    // fence with the reserved fields zero
    let fence = (0b0001 << 24) | (0b0010 << 20) | 0b000_1111;
    assert!(matches!(Op::parse(fence), Some(Op::Fence { .. })));
    // fence.i
    assert_eq!(Op::parse((0b001 << 12) | 0b000_1111), Some(Op::FenceI));
}

#[test]
fn parse_atomics() {
    // lr.w x1, (x2)
    assert_eq!(
        Op::parse(enc_r(0b010_1111, 1, 0b010, 2, 0, 0b0001000)),
        Some(Op::LrW { rd: 1, rs1: 2, aq: false, rl: false })
    );
    // lr.w with nonzero rs2 declines
    assert_eq!(Op::parse(enc_r(0b010_1111, 1, 0b010, 2, 3, 0b0001000)), None);
    // sc.w x3, x4, (x2), aq set
    assert_eq!(
        Op::parse(enc_r(0b010_1111, 3, 0b010, 2, 4, 0b0001111)),
        Some(Op::ScW { rd: 3, rs1: 2, rs2: 4, aq: true, rl: true })
    );
    // amoadd.w x3, x4, (x2)
    assert_eq!(
        Op::parse(enc_r(0b010_1111, 3, 0b010, 2, 4, 0b0000000)),
        Some(Op::AmoaddW { rd: 3, rs1: 2, rs2: 4, aq: false, rl: false })
    );
}

#[test]
fn parse_fp() {
    // fadd.s f3, f1, f2, dynamic rounding
    assert_eq!(
        Op::parse(enc_r(0b101_0011, 3, 0b111, 1, 2, 0b000_0000)),
        Some(Op::FaddS { rd: 3, rs1: 1, rs2: 2, rm: 7 })
    );
    // fadd.d
    assert_eq!(
        Op::parse(enc_r(0b101_0011, 3, 0b111, 1, 2, 0b000_0001)),
        Some(Op::FaddD { rd: 3, rs1: 1, rs2: 2, rm: 7 })
    );
    // fmv.w.x f1, x2
    assert_eq!(
        Op::parse(enc_r(0b101_0011, 1, 0b000, 2, 0, 0b111_1000)),
        Some(Op::FmvWX { rd: 1, rs1: 2 })
    );
    // fcvt.w.s x1, f2, rtz
    assert_eq!(
        Op::parse(enc_r(0b101_0011, 1, 0b001, 2, 0, 0b110_0000)),
        Some(Op::FcvtWS { rd: 1, rs1: 2, rm: 1 })
    );
    // fcvt.s.d f1, f2 (rs2 = 1)
    assert_eq!(
        Op::parse(enc_r(0b101_0011, 1, 0b111, 2, 1, 0b010_0000)),
        Some(Op::FcvtSD { rd: 1, rs1: 2, rm: 7 })
    );
    // fclass.s x1, f2
    assert_eq!(
        Op::parse(enc_r(0b101_0011, 1, 0b001, 2, 0, 0b111_0000)),
        Some(Op::FclassS { rd: 1, rs1: 2 })
    );
    // fmadd.s f1, f2, f3, f4
    let w = (4 << 27) | (0b00 << 25) | (3 << 20) | (2 << 15) | (0b000 << 12) | (1 << 7) | 0b100_0011;
    assert_eq!(
        Op::parse(w),
        Some(Op::FmaddS { rd: 1, rs1: 2, rs2: 3, rs3: 4, rm: 0 })
    );
}

#[test]
fn parse_unknown_declines() {
    assert_eq!(Op::parse(0), None);
    assert_eq!(Op::parse(0xffff_ffff), None);
    assert_eq!(Op::parse(0b101_1011), None);
}

#[test]
fn parse_c_wide_low_bits_decline() {
    // Every halfword with low bits 0b11 belongs to a 32-bit instruction.
    for c in [0x0003u16, 0x0073, 0xffff, 0x8f13] {
        assert_eq!(Op::parse_c(c), None);
    }
}

#[test]
fn parse_c_illegal_declines() {
    assert_eq!(Op::parse_c(0x0000), None);
}

#[test]
fn parse_c_quadrant0() {
    // c.addi4spn x8, sp, 4: nzuimm[5:4|9:6|2|3] at bits 12:5, rd' bits 4:2
    // imm 4 -> bit 2 set -> instruction bit 6
    let c = (0b000 << 13) | (1 << 6) | (0 << 2) | 0b00;
    assert_eq!(Op::parse_c(c), Some(Op::Addi { rd: 8, rs1: 2, i_imm: 4 }));
    // c.lw x9, 0(x10): funct3 010, rs1' = x10 -> 2, rd' = x9 -> 1
    let c = (0b010 << 13) | (2 << 7) | (1 << 2) | 0b00;
    assert_eq!(Op::parse_c(c), Some(Op::Lw { rd: 9, rs1: 10, i_imm: 0 }));
    // c.sw x9, 4(x10): offset 4 -> imm[2] -> instruction bit 6
    let c = (0b110 << 13) | (2 << 7) | (1 << 6) | (1 << 2) | 0b00;
    assert_eq!(Op::parse_c(c), Some(Op::Sw { rs1: 10, rs2: 9, s_imm: 4 }));
}

#[test]
fn parse_c_quadrant1() {
    // c.addi x5, -1: imm -1 -> bit12 = 1, bits 6:2 = 0b11111
    let c = (0b000 << 13) | (1 << 12) | (5 << 7) | (0b11111 << 2) | 0b01;
    assert_eq!(Op::parse_c(c), Some(Op::Addi { rd: 5, rs1: 5, i_imm: -1 }));
    // c.li x5, 3
    let c = (0b010 << 13) | (5 << 7) | (3 << 2) | 0b01;
    assert_eq!(Op::parse_c(c), Some(Op::Addi { rd: 5, rs1: 0, i_imm: 3 }));
    // c.lui x5, 1
    let c = (0b011 << 13) | (5 << 7) | (1 << 2) | 0b01;
    assert_eq!(Op::parse_c(c), Some(Op::Lui { rd: 5, u_imm: 0x1000 }));
    // c.addi16sp 16: rd field = 2; imm bits: 16 -> imm[4] -> instruction bit 6
    let c = (0b011 << 13) | (2 << 7) | (1 << 6) | 0b01;
    assert_eq!(Op::parse_c(c), Some(Op::Addi { rd: 2, rs1: 2, i_imm: 16 }));
    // c.sub x8, x9
    let c = (0b100 << 13) | (0b11 << 10) | (0 << 7) | (0b00 << 5) | (1 << 2) | 0b01;
    assert_eq!(Op::parse_c(c), Some(Op::Sub { rd: 8, rs1: 8, rs2: 9 }));
    // c.andi x8, 7
    let c = (0b100 << 13) | (0b10 << 10) | (0 << 7) | (7 << 2) | 0b01;
    assert_eq!(Op::parse_c(c), Some(Op::Andi { rd: 8, rs1: 8, i_imm: 7 }));
    // c.j 0 and c.jal 0
    let c = (0b101 << 13) | 0b01;
    assert_eq!(Op::parse_c(c), Some(Op::Jal { rd: 0, j_imm: 0 }));
    let c = (0b001 << 13) | 0b01;
    assert_eq!(Op::parse_c(c), Some(Op::Jal { rd: 1, j_imm: 0 }));
    // c.beqz x8, 0
    let c = (0b110 << 13) | (0 << 7) | 0b01;
    assert_eq!(Op::parse_c(c), Some(Op::Beq { rs1: 8, rs2: 0, b_imm: 0 }));
}

#[test]
fn parse_c_quadrant2() {
    // c.slli x5, 3
    let c = (0b000 << 13) | (5 << 7) | (3 << 2) | 0b10;
    assert_eq!(Op::parse_c(c), Some(Op::Slli { rd: 5, rs1: 5, shamt: 3 }));
    // c.lwsp x5, 4(sp): offset 4 -> imm[4:2] = 1 -> instruction bit 4
    let c = (0b010 << 13) | (5 << 7) | (1 << 4) | 0b10;
    assert_eq!(Op::parse_c(c), Some(Op::Lw { rd: 5, rs1: 2, i_imm: 4 }));
    // c.jr x5
    let c = (0b100 << 13) | (5 << 7) | 0b10;
    assert_eq!(Op::parse_c(c), Some(Op::Jalr { rd: 0, rs1: 5, i_imm: 0 }));
    // c.mv x5, x6
    let c = (0b100 << 13) | (5 << 7) | (6 << 2) | 0b10;
    assert_eq!(Op::parse_c(c), Some(Op::Addi { rd: 5, rs1: 6, i_imm: 0 }));
    // c.ebreak
    assert_eq!(Op::parse_c(0x9002), Some(Op::Ebreak));
    // c.jalr x5
    let c = (0b100 << 13) | (1 << 12) | (5 << 7) | 0b10;
    assert_eq!(Op::parse_c(c), Some(Op::Jalr { rd: 1, rs1: 5, i_imm: 0 }));
    // c.add x5, x6
    let c = (0b100 << 13) | (1 << 12) | (5 << 7) | (6 << 2) | 0b10;
    assert_eq!(Op::parse_c(c), Some(Op::Add { rd: 5, rs1: 5, rs2: 6 }));
    // c.swsp x6, 4(sp): offset 4 -> imm[5:2] = 1 -> instruction bit 9
    let c = (0b110 << 13) | (1 << 9) | (6 << 2) | 0b10;
    assert_eq!(Op::parse_c(c), Some(Op::Sw { rs1: 2, rs2: 6, s_imm: 4 }));
}
