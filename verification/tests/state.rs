//! State suspension, the byte-buffer memory, and single-instruction
//! semantics that deserve exact expected values.

use rvsim::{CpuError, CpuState, Interp, Memory, MemoryAccess, NoFpu, Op, SimpleClock};

#[test]
fn state_bytes_round_trip() {
    let mut s = CpuState::new(0xdead_bee0);
    for i in 1..32 {
        s.x[i] = (i as u32) * 0x0101_0101;
        s.f[i] = (i as u64) * 0x0102_0304_0506_0708;
    }
    s.fcsr = 0xa5;
    s.reservation = Some(0x8000_0004);
    let bytes = s.to_bytes();
    assert_eq!(bytes.len(), 397);
    let t = CpuState::from_bytes(&bytes).unwrap();
    assert_eq!(t.x, s.x);
    assert_eq!(t.f, s.f);
    assert_eq!(t.pc, s.pc);
    assert_eq!(t.fcsr, s.fcsr);
    assert_eq!(t.reservation, s.reservation);
}

#[test]
fn state_bytes_round_trip_without_reservation() {
    let s = CpuState::new(0x1000_0000);
    let bytes = s.to_bytes();
    let t = CpuState::from_bytes(&bytes).unwrap();
    assert_eq!(t.reservation, None);
    assert_eq!(t.pc, 0x1000_0000);
}

#[test]
fn state_bytes_reject_bad_images() {
    assert!(CpuState::from_bytes(&[]).is_none());
    assert!(CpuState::from_bytes(&[0u8; 396]).is_none());
    assert!(CpuState::from_bytes(&[0u8; 398]).is_none());
    let mut bytes = CpuState::new(0).to_bytes();
    bytes[392] = 2; // presence byte out of range
    assert!(CpuState::from_bytes(&bytes).is_none());
}

#[test]
fn byte_memory_little_endian() {
    let mut ram: Vec<u8> = vec![0; 64];
    assert_eq!(
        Memory::access(&mut ram, 8, MemoryAccess::Store(4, 0x0102_03f4)),
        Some(0)
    );
    assert_eq!(ram[8], 0xf4);
    assert_eq!(ram[9], 0x03);
    assert_eq!(ram[10], 0x02);
    assert_eq!(ram[11], 0x01);
    assert_eq!(Memory::access(&mut ram, 8, MemoryAccess::Load(2)), Some(0x03f4));
    assert_eq!(Memory::access(&mut ram, 10, MemoryAccess::Load(1)), Some(0x02));
    assert_eq!(Memory::access(&mut ram, 8, MemoryAccess::Exec(4)), Some(0x0102_03f4));
    // an eight-byte value straddles the two words
    assert_eq!(
        Memory::access(&mut ram, 12, MemoryAccess::Store(4, 0x0a0b_0c0d)),
        Some(0)
    );
    assert_eq!(
        Memory::access(&mut ram, 8, MemoryAccess::Load(8)),
        Some(0x0a0b_0c0d_0102_03f4)
    );
}

#[test]
fn byte_memory_refuses_out_of_bounds() {
    let mut ram: Vec<u8> = vec![0; 16];
    assert_eq!(Memory::access(&mut ram, 13, MemoryAccess::Load(4)), None);
    assert_eq!(Memory::access(&mut ram, 16, MemoryAccess::Load(1)), None);
    assert_eq!(Memory::access(&mut ram, 12, MemoryAccess::Load(4)), Some(0));
    assert_eq!(Memory::access(&mut ram, 0xffff_fff0, MemoryAccess::Load(1)), None);
    // an unknown width is refused even in bounds
    assert_eq!(Memory::access(&mut ram, 0, MemoryAccess::Load(3)), None);
}

fn enc_i(opcode: u32, rd: u32, funct3: u32, rs1: u32, imm: i32) -> u32 {
    (((imm as u32) & 0xfff) << 20) | (rs1 << 15) | (funct3 << 12) | (rd << 7) | opcode
}

fn enc_s(funct3: u32, rs1: u32, rs2: u32, imm: i32) -> u32 {
    let i = imm as u32;
    (((i >> 5) & 0x7f) << 25) | (rs2 << 20) | (rs1 << 15) | (funct3 << 12) | ((i & 0x1f) << 7)
        | 0b010_0011
}

fn enc_r(opcode: u32, rd: u32, funct3: u32, rs1: u32, rs2: u32, funct7: u32) -> u32 {
    (funct7 << 25) | (rs2 << 20) | (rs1 << 15) | (funct3 << 12) | (rd << 7) | opcode
}

const ECALL: u32 = 0x0000_0073;

fn run_program(words: &[u32], setup: impl FnOnce(&mut CpuState, &mut Vec<u8>)) -> Interp<
    Vec<u8>,
    SimpleClock,
    NoFpu,
> {
    let mut ram: Vec<u8> = vec![0; 0x1000];
    for (i, w) in words.iter().enumerate() {
        ram[4 * i..4 * i + 4].copy_from_slice(&w.to_le_bytes());
    }
    let mut state = CpuState::new(0);
    setup(&mut state, &mut ram);
    let mut interp = Interp::new(state, ram, SimpleClock::new(), NoFpu);
    let (err, _) = interp.run();
    assert_eq!(err, CpuError::Ecall);
    interp
}

#[test]
fn loads_extend_correctly() {
    let interp = run_program(
        &[
            enc_i(0b000_0011, 5, 0b000, 1, 0x100), // lb x5, 0x100(x1)
            enc_i(0b000_0011, 6, 0b100, 1, 0x100), // lbu x6
            enc_i(0b000_0011, 7, 0b001, 1, 0x100), // lh x7
            enc_i(0b000_0011, 8, 0b101, 1, 0x100), // lhu x8
            enc_i(0b000_0011, 9, 0b010, 1, 0x100), // lw x9
            ECALL,
        ],
        |_state, ram| {
            ram[0x100..0x104].copy_from_slice(&0xfedc_ba98u32.to_le_bytes());
        },
    );
    assert_eq!(interp.state.x[5], 0xffff_ff98); // sign-extended byte
    assert_eq!(interp.state.x[6], 0x0000_0098);
    assert_eq!(interp.state.x[7], 0xffff_ba98); // sign-extended halfword
    assert_eq!(interp.state.x[8], 0x0000_ba98);
    assert_eq!(interp.state.x[9], 0xfedc_ba98);
}

#[test]
fn stores_write_their_width() {
    let interp = run_program(
        &[
            enc_s(0b000, 0, 2, 0x200), // sb x2, 0x200(x0)
            enc_s(0b001, 0, 2, 0x204), // sh x2, 0x204(x0)
            enc_s(0b010, 0, 2, 0x208), // sw x2, 0x208(x0)
            ECALL,
        ],
        |state, _ram| {
            state.x[2] = 0x1234_5678;
        },
    );
    assert_eq!(&interp.mem[0x200..0x204], &[0x78, 0, 0, 0]);
    assert_eq!(&interp.mem[0x204..0x208], &[0x78, 0x56, 0, 0]);
    assert_eq!(&interp.mem[0x208..0x20c], &[0x78, 0x56, 0x34, 0x12]);
}

#[test]
fn slt_family_compares_both_ways() {
    let interp = run_program(
        &[
            enc_r(0b011_0011, 5, 0b010, 1, 2, 0), // slt x5, x1, x2
            enc_r(0b011_0011, 6, 0b011, 1, 2, 0), // sltu x6, x1, x2
            enc_i(0b001_0011, 7, 0b010, 1, -1), // slti x7, x1, -1
            enc_i(0b001_0011, 8, 0b011, 1, -1), // sltiu x8, x1, -1 (large unsigned)
            ECALL,
        ],
        |state, _ram| {
            state.x[1] = 0xffff_fffe; // -2 signed
            state.x[2] = 1;
        },
    );
    assert_eq!(interp.state.x[5], 1); // -2 < 1 signed
    assert_eq!(interp.state.x[6], 0); // huge > 1 unsigned
    assert_eq!(interp.state.x[7], 1); // -2 < -1 signed
    assert_eq!(interp.state.x[8], 1); // 0xfffffffe < 0xffffffff unsigned
}

#[test]
fn fclass_masks_are_one_hot() {
    // drive fclass.s through fmv.w.x for a few well-known patterns
    let patterns: &[(u32, u32)] = &[
        (0x0000_0000, 0x010), // +0
        (0x8000_0000, 0x008), // -0
        (0x3f80_0000, 0x040), // +1.0, positive normal
        (0xbf80_0000, 0x002), // -1.0, negative normal
        (0x7f80_0000, 0x080), // +inf
        (0xff80_0000, 0x001), // -inf
        (0x0000_0001, 0x020), // positive subnormal
        (0x8000_0001, 0x004), // negative subnormal
        (0x7fc0_0000, 0x200), // quiet NaN
        (0x7f80_0001, 0x100), // signaling NaN
    ];
    for &(bits, mask) in patterns {
        let interp = run_program(
            &[
                enc_r(0b101_0011, 1, 0b000, 1, 0, 0b111_1000), // fmv.w.x f1, x1
                enc_r(0b101_0011, 5, 0b001, 1, 0, 0b111_0000), // fclass.s x5, f1
                ECALL,
            ],
            |state, _ram| {
                state.x[1] = bits;
            },
        );
        assert_eq!(interp.state.x[5], mask, "pattern {bits:#x}");
    }
}

#[test]
fn fmin_fmax_follow_the_2019_semantics() {
    // (a, b, min, max) over raw single patterns
    let neg_zero = 0x8000_0000u32;
    let pos_zero = 0x0000_0000u32;
    let one = 0x3f80_0000u32;
    let two = 0x4000_0000u32;
    let qnan = 0x7fc0_0000u32;
    let cases: &[(u32, u32, u32, u32)] = &[
        (one, two, one, two),
        (neg_zero, pos_zero, neg_zero, pos_zero),
        (pos_zero, neg_zero, neg_zero, pos_zero),
        (qnan, one, one, one),
        (one, qnan, one, one),
        (qnan, qnan, qnan, qnan),
    ];
    for &(a, b, lo, hi) in cases {
        let interp = run_program(
            &[
                enc_r(0b101_0011, 1, 0b000, 1, 0, 0b111_1000), // fmv.w.x f1, x1
                enc_r(0b101_0011, 2, 0b000, 2, 0, 0b111_1000), // fmv.w.x f2, x2
                enc_r(0b101_0011, 3, 0b000, 1, 2, 0b001_0100), // fmin.s f3, f1, f2
                enc_r(0b101_0011, 4, 0b001, 1, 2, 0b001_0100), // fmax.s f4, f1, f2
                enc_r(0b101_0011, 5, 0b000, 3, 0, 0b111_0000), // fmv.x.w x5, f3
                enc_r(0b101_0011, 6, 0b000, 4, 0, 0b111_0000), // fmv.x.w x6, f4
                ECALL,
            ],
            |state, _ram| {
                state.x[1] = a;
                state.x[2] = b;
            },
        );
        assert_eq!(interp.state.x[5], lo, "min of {a:#x}, {b:#x}");
        assert_eq!(interp.state.x[6], hi, "max of {a:#x}, {b:#x}");
    }
}

#[test]
fn fsgnj_injects_signs() {
    let interp = run_program(
        &[
            enc_r(0b101_0011, 1, 0b000, 1, 0, 0b111_1000), // fmv.w.x f1, x1
            enc_r(0b101_0011, 2, 0b000, 2, 0, 0b111_1000), // fmv.w.x f2, x2
            enc_r(0b101_0011, 3, 0b000, 1, 2, 0b001_0000), // fsgnj.s f3, f1, f2
            enc_r(0b101_0011, 4, 0b001, 1, 2, 0b001_0000), // fsgnjn.s f4, f1, f2
            enc_r(0b101_0011, 5, 0b010, 1, 2, 0b001_0000), // fsgnjx.s f5, f1, f2
            enc_r(0b101_0011, 6, 0b000, 3, 0, 0b111_0000), // fmv.x.w x6, f3
            enc_r(0b101_0011, 7, 0b000, 4, 0, 0b111_0000), // fmv.x.w x7, f4
            enc_r(0b101_0011, 8, 0b000, 5, 0, 0b111_0000), // fmv.x.w x8, f5
            ECALL,
        ],
        |state, _ram| {
            state.x[1] = 0x3f80_0000; // +1.0
            state.x[2] = 0x8000_0000; // -0.0
        },
    );
    assert_eq!(interp.state.x[6], 0xbf80_0000); // sign of f2
    assert_eq!(interp.state.x[7], 0x3f80_0000); // negated sign of f2
    assert_eq!(interp.state.x[8], 0xbf80_0000); // xor of signs
}

#[test]
fn feq_flt_flags_and_results() {
    let interp = run_program(
        &[
            enc_r(0b101_0011, 1, 0b000, 1, 0, 0b111_1000), // fmv.w.x f1, x1
            enc_r(0b101_0011, 2, 0b000, 2, 0, 0b111_1000), // fmv.w.x f2, x2
            enc_r(0b101_0011, 5, 0b010, 1, 2, 0b101_0000), // feq.s x5, f1, f2
            enc_r(0b101_0011, 6, 0b001, 1, 2, 0b101_0000), // flt.s x6, f1, f2
            enc_r(0b101_0011, 7, 0b000, 1, 2, 0b101_0000), // fle.s x7, f1, f2
            ECALL,
        ],
        |state, _ram| {
            state.x[1] = 0x8000_0000; // -0.0
            state.x[2] = 0x0000_0000; // +0.0
        },
    );
    assert_eq!(interp.state.x[5], 1); // -0 == +0
    assert_eq!(interp.state.x[6], 0); // not less
    assert_eq!(interp.state.x[7], 1);
    assert_eq!(interp.state.fcsr & 0x1f, 0); // no NaN, no flags

    // a quiet NaN: feq quietly answers 0, flt raises invalid
    let interp = run_program(
        &[
            enc_r(0b101_0011, 1, 0b000, 1, 0, 0b111_1000),
            enc_r(0b101_0011, 5, 0b010, 1, 1, 0b101_0000), // feq.s x5, f1, f1
            ECALL,
        ],
        |state, _ram| {
            state.x[1] = 0x7fc0_0000;
        },
    );
    assert_eq!(interp.state.x[5], 0);
    assert_eq!(interp.state.fcsr & 0x1f, 0); // quiet NaN raises nothing on feq

    let interp = run_program(
        &[
            enc_r(0b101_0011, 1, 0b000, 1, 0, 0b111_1000),
            enc_r(0b101_0011, 6, 0b001, 1, 1, 0b101_0000), // flt.s x6, f1, f1
            ECALL,
        ],
        |state, _ram| {
            state.x[1] = 0x7fc0_0000;
        },
    );
    assert_eq!(interp.state.x[6], 0);
    assert_eq!(interp.state.fcsr & 0x1f, 0x10); // invalid
}

#[test]
fn fld_fsd_move_doubles_with_boxing_rules() {
    let interp = run_program(
        &[
            enc_i(0b000_0111, 1, 0b011, 0, 0x100), // fld f1, 0x100(x0)
            enc_s(0b011, 0, 1, 0x108) | 0b000_0100, // fsd f1, 0x108(x0): store-fp opcode
            enc_i(0b000_0111, 2, 0b010, 0, 0x100), // flw f2, 0x100(x0)
            enc_r(0b101_0011, 5, 0b000, 2, 0, 0b111_0000), // fmv.x.w x5, f2
            ECALL,
        ],
        |_state, ram| {
            ram[0x100..0x108].copy_from_slice(&0x4045_0000_1234_5678u64.to_le_bytes());
        },
    );
    assert_eq!(
        u64::from_le_bytes(interp.mem[0x108..0x110].try_into().unwrap()),
        0x4045_0000_1234_5678
    );
    assert_eq!(interp.state.f[1], 0x4045_0000_1234_5678);
    // flw boxed the low word
    assert_eq!(interp.state.f[2], 0xffff_ffff_1234_5678);
    assert_eq!(interp.state.x[5], 0x1234_5678);
}

#[test]
fn improper_boxing_reads_as_canonical_nan() {
    let interp = run_program(
        &[
            enc_r(0b101_0011, 5, 0b000, 1, 0, 0b111_0000), // fmv.x.w x5, f1
            ECALL,
        ],
        |state, _ram| {
            state.f[1] = 0x0000_0001_3f80_0000; // 1.0f32 with a broken box
        },
    );
    assert_eq!(interp.state.x[5], 0x7fc0_0000);
}

#[test]
fn nan_conversions_canonicalize_without_a_unit() {
    // A NaN operand of the precision conversions canonicalizes inside the
    // interpreter, with no flags and no call into the rounding unit.
    let interp = run_program(
        &[
            enc_r(0b101_0011, 2, 0b000, 1, 1, 0b010_0000), // fcvt.s.d f2, f1 (rne)
            enc_r(0b101_0011, 4, 0b000, 3, 0, 0b010_0001), // fcvt.d.s f4, f3 (rne)
            ECALL,
        ],
        |state, _ram| {
            state.f[1] = 0x7ff4_0000_0000_0123; // a double signaling NaN
            state.f[3] = 0xffff_ffff_7f80_0001; // a boxed single signaling NaN
        },
    );
    assert_eq!(interp.state.f[2], 0xffff_ffff_7fc0_0000); // boxed canonical NaN
    assert_eq!(interp.state.f[4], 0x7ff8_0000_0000_0000); // canonical double NaN
    assert_eq!(interp.state.fcsr, 0);
}
