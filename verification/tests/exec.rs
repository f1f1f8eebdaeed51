//! End-to-end interpreter scenarios: whole programs run against a small
//! DRAM, a counting clock and a floating-point unit built on the host's
//! arithmetic.

use rvsim::{Clock, CpuError, CpuState, Fpu, Interp, Memory, MemoryAccess, NoFpu, Op, SimpleClock};

const DRAM_BASE: u32 = 0x1000_0000;
const DRAM_SIZE: usize = 0x1_0000;

/// A memory map with one block of DRAM.
struct TestMemory {
    dram: Vec<u8>,
}

impl TestMemory {
    fn new() -> Self {
        Self { dram: vec![0; DRAM_SIZE] }
    }

    fn load_program(&mut self, words: &[u32]) {
        for (i, w) in words.iter().enumerate() {
            self.dram[4 * i..4 * i + 4].copy_from_slice(&w.to_le_bytes());
        }
    }

    fn word_at(&self, offset: usize) -> u32 {
        u32::from_le_bytes(self.dram[offset..offset + 4].try_into().unwrap())
    }
}

impl Memory for TestMemory {
    fn access(&mut self, addr: u32, access: MemoryAccess) -> Option<u64> {
        if addr >= DRAM_BASE {
            Memory::access(&mut self.dram, addr - DRAM_BASE, access)
        } else {
            None
        }
    }
}

/// A clock that always denies quota.
struct DenyClock;

impl Clock for DenyClock {
    fn read_cycle(&self) -> u64 {
        0
    }

    fn read_time(&self) -> u64 {
        0
    }

    fn read_instret(&self) -> u64 {
        0
    }

    fn progress(&mut self, _op: &Op) {}

    fn check_quota(&self) -> bool {
        false
    }
}

/// A floating-point unit built on the host's f32/f64 arithmetic, precise
/// enough for the scenarios below: single-precision addition is computed
/// exactly in double precision and rounded by hand per mode, and the
/// conversions implement the four directed roundings and saturation.
struct TestFpu;

fn f32_next_toward_zero(r: f32) -> f32 {
    let b = r.to_bits();
    if r == 0.0 {
        r
    } else {
        f32::from_bits(b - 1)
    }
}

fn round_f64_to_f32(x: f64, rm: u32) -> f32 {
    let r = x as f32; // round to nearest, ties to even
    match rm {
        1 => {
            if (r as f64).abs() > x.abs() {
                f32_next_toward_zero(r)
            } else {
                r
            }
        }
        2 => {
            if (r as f64) > x {
                if r > 0.0 {
                    f32_next_toward_zero(r)
                } else {
                    f32::from_bits(r.to_bits() + 1)
                }
            } else {
                r
            }
        }
        3 => {
            if (r as f64) < x {
                if r < 0.0 {
                    f32_next_toward_zero(r)
                } else {
                    f32::from_bits(r.to_bits() + 1)
                }
            } else {
                r
            }
        }
        _ => r,
    }
}

fn round_f64_to_int(x: f64, rm: u32) -> f64 {
    match rm {
        0 => {
            let f = x.floor();
            let d = x - f;
            if d > 0.5 {
                f + 1.0
            } else if d < 0.5 {
                f
            } else if (f as i64) % 2 == 0 {
                f
            } else {
                f + 1.0
            }
        }
        1 => x.trunc(),
        2 => x.floor(),
        3 => x.ceil(),
        _ => x.round(),
    }
}

const FLAG_INEXACT: u32 = 0x01;
const FLAG_INVALID: u32 = 0x10;

impl Fpu for TestFpu {
    fn f32_add(&mut self, rm: u32, a: u32, b: u32) -> Option<(u32, u32)> {
        let x = f32::from_bits(a) as f64;
        let y = f32::from_bits(b) as f64;
        let exact = x + y;
        let r = round_f64_to_f32(exact, rm);
        let mut flags = 0;
        if r.is_nan() && !(x.is_nan() || y.is_nan()) {
            flags |= FLAG_INVALID;
        }
        if (r as f64) != exact {
            flags |= FLAG_INEXACT;
        }
        Some((r.to_bits(), flags))
    }

    fn f32_to_i32(&mut self, rm: u32, a: u32) -> Option<(u32, u32)> {
        let f = f32::from_bits(a);
        if f.is_nan() {
            return Some((i32::MAX as u32, FLAG_INVALID));
        }
        let rounded = round_f64_to_int(f as f64, rm);
        if rounded > i32::MAX as f64 {
            return Some((i32::MAX as u32, FLAG_INVALID));
        }
        if rounded < i32::MIN as f64 {
            return Some((i32::MIN as u32, FLAG_INVALID));
        }
        let v = rounded as i32;
        let flags = if rounded != f as f64 { FLAG_INEXACT } else { 0 };
        Some((v as u32, flags))
    }

    fn f32_from_i32(&mut self, rm: u32, x: u32) -> Option<(u32, u32)> {
        let v = x as i32;
        let r = round_f64_to_f32(v as f64, rm);
        let flags = if (r as f64) != v as f64 { FLAG_INEXACT } else { 0 };
        Some((r.to_bits(), flags))
    }

    fn f64_add(&mut self, _rm: u32, a: u64, b: u64) -> Option<(u64, u32)> {
        let r = f64::from_bits(a) + f64::from_bits(b);
        Some((r.to_bits(), 0))
    }
}

//
// Instruction encoders.
//

fn enc_i(opcode: u32, rd: u32, funct3: u32, rs1: u32, imm: i32) -> u32 {
    (((imm as u32) & 0xfff) << 20) | (rs1 << 15) | (funct3 << 12) | (rd << 7) | opcode
}

fn enc_r(opcode: u32, rd: u32, funct3: u32, rs1: u32, rs2: u32, funct7: u32) -> u32 {
    (funct7 << 25) | (rs2 << 20) | (rs1 << 15) | (funct3 << 12) | (rd << 7) | opcode
}

fn enc_b(funct3: u32, rs1: u32, rs2: u32, imm: i32) -> u32 {
    let i = imm as u32;
    (((i >> 12) & 1) << 31)
        | (((i >> 5) & 0x3f) << 25)
        | (rs2 << 20)
        | (rs1 << 15)
        | (funct3 << 12)
        | (((i >> 1) & 0xf) << 8)
        | (((i >> 11) & 1) << 7)
        | 0b110_0011
}

fn enc_jal(rd: u32, imm: i32) -> u32 {
    let i = imm as u32;
    (((i >> 20) & 1) << 31)
        | (((i >> 1) & 0x3ff) << 21)
        | (((i >> 11) & 1) << 20)
        | (((i >> 12) & 0xff) << 12)
        | (rd << 7)
        | 0b110_1111
}

const ECALL: u32 = 0x0000_0073;
const EBREAK: u32 = 0x0010_0073;

fn addi(rd: u32, rs1: u32, imm: i32) -> u32 {
    enc_i(0b001_0011, rd, 0b000, rs1, imm)
}

//
// End-to-end scenarios.
//

#[test]
fn ebreak_halt() {
    let mut mem = TestMemory::new();
    mem.dram[..4].copy_from_slice(&[0x73, 0x00, 0x10, 0x00]);
    let state = CpuState::new(DRAM_BASE);
    let mut interp = Interp::new(state, mem, SimpleClock::new(), NoFpu);
    let (err, op) = interp.run();
    assert_eq!(err, CpuError::Ebreak);
    assert_eq!(op, Some(Op::Ebreak));
    assert_eq!(interp.state.pc, 0x1000_0004);
}

#[test]
fn fibonacci_no_traps() {
    let mut mem = TestMemory::new();
    mem.load_program(&[
        addi(10, 0, 0),
        addi(11, 0, 1),
        addi(12, 0, 10),
        enc_b(0b000, 12, 0, 24), // beq x12, x0, done
        enc_r(0b011_0011, 13, 0b000, 10, 11, 0), // add x13, x10, x11
        addi(10, 11, 0),
        addi(11, 13, 0),
        addi(12, 12, -1),
        enc_jal(0, -20), // back to the beq
        ECALL,
    ]);
    let state = CpuState::new(DRAM_BASE);
    let mut interp = Interp::new(state, mem, SimpleClock::new(), NoFpu);
    let (err, op) = interp.run();
    assert_eq!(err, CpuError::Ecall);
    assert_eq!(op, Some(Op::Ecall));
    assert_eq!(interp.state.x[10], 55);
    assert_eq!(interp.state.x[0], 0);
}

#[test]
fn division_by_zero() {
    let mut mem = TestMemory::new();
    mem.load_program(&[enc_r(0b011_0011, 5, 0b100, 6, 0, 1), ECALL]);
    let mut state = CpuState::new(DRAM_BASE);
    state.x[6] = 42;
    let mut interp = Interp::new(state, mem, SimpleClock::new(), NoFpu);
    let r = interp.step();
    assert!(matches!(r, Ok(Op::Div { .. })));
    assert_eq!(interp.state.x[5], 0xffff_ffff);
    assert_eq!(interp.state.pc, DRAM_BASE + 4);
}

#[test]
fn division_corner_cases() {
    // most-negative dividend divided by minus one, and remainders
    let mut mem = TestMemory::new();
    mem.load_program(&[
        enc_r(0b011_0011, 5, 0b100, 6, 7, 1), // div x5, x6, x7
        enc_r(0b011_0011, 8, 0b110, 6, 7, 1), // rem x8, x6, x7
        enc_r(0b011_0011, 9, 0b101, 6, 0, 1), // divu x9, x6, x0
        enc_r(0b011_0011, 10, 0b111, 6, 0, 1), // remu x10, x6, x0
        ECALL,
    ]);
    let mut state = CpuState::new(DRAM_BASE);
    state.x[6] = 0x8000_0000; // i32::MIN
    state.x[7] = 0xffff_ffff; // -1
    let mut interp = Interp::new(state, mem, SimpleClock::new(), NoFpu);
    let (err, _) = interp.run();
    assert_eq!(err, CpuError::Ecall);
    assert_eq!(interp.state.x[5], 0x8000_0000); // quotient = dividend
    assert_eq!(interp.state.x[8], 0); // remainder = 0
    assert_eq!(interp.state.x[9], 0xffff_ffff); // divu by zero
    assert_eq!(interp.state.x[10], 0x8000_0000); // remu by zero = dividend
}

#[test]
fn lr_sc_pair() {
    let a_off = 0x100usize;
    let a = DRAM_BASE + a_off as u32;
    let v: u32 = 0x1234_5678;
    let w: u32 = 0xdead_beef;
    let mut mem = TestMemory::new();
    mem.load_program(&[
        enc_r(0b010_1111, 1, 0b010, 4, 0, 0b0001000), // lr.w x1, (x4)
        enc_r(0b010_1111, 3, 0b010, 4, 2, 0b0001100), // sc.w x3, x2, (x4)
        enc_r(0b010_1111, 3, 0b010, 4, 2, 0b0001100), // sc.w x3, x2, (x4)
        ECALL,
    ]);
    mem.dram[a_off..a_off + 4].copy_from_slice(&v.to_le_bytes());
    let mut state = CpuState::new(DRAM_BASE);
    state.x[4] = a;
    state.x[2] = w;
    let mut interp = Interp::new(state, mem, SimpleClock::new(), NoFpu);

    assert!(matches!(interp.step(), Ok(Op::LrW { .. })));
    assert_eq!(interp.state.x[1], v);
    assert_eq!(interp.state.reservation, Some(a));

    assert!(matches!(interp.step(), Ok(Op::ScW { .. })));
    assert_eq!(interp.state.x[3], 0);
    assert_eq!(interp.state.reservation, None);
    assert_eq!(interp.mem.word_at(a_off), w);

    // the reservation is gone: the second store-conditional fails
    interp.state.x[2] = 0x5555_5555;
    assert!(matches!(interp.step(), Ok(Op::ScW { .. })));
    assert_eq!(interp.state.x[3], 1);
    assert_eq!(interp.mem.word_at(a_off), w);
}

#[test]
fn misaligned_jump_no_compressed() {
    let mut mem = TestMemory::new();
    mem.load_program(&[enc_jal(0, 2)]);
    let state = CpuState::new(DRAM_BASE);
    let mut interp = Interp::new(state, mem, SimpleClock::new(), NoFpu);
    interp.rvc = false;
    let (err, op) = interp.run();
    assert_eq!(err, CpuError::MisalignedFetch);
    assert!(matches!(op, Some(Op::Jal { .. })));
    assert_eq!(interp.state.pc, 0x1000_0000);
    assert_eq!(interp.state.x[0], 0);
}

#[test]
fn misaligned_jump_with_compressed() {
    let mut mem = TestMemory::new();
    mem.load_program(&[enc_jal(0, 2)]);
    let state = CpuState::new(DRAM_BASE);
    let mut interp = Interp::new(state, mem, SimpleClock::new(), NoFpu);
    assert!(matches!(interp.step(), Ok(Op::Jal { .. })));
    assert_eq!(interp.state.pc, 0x1000_0002);
}

#[test]
fn fetch_at_odd_address_is_not_trapped() {
    // Only branches and jumps enforce alignment; a fetch from an odd
    // address the memory accepts simply proceeds.
    let mut mem = TestMemory::new();
    mem.dram[1] = 0x01; // c.nop at offset 1
    mem.dram[2] = 0x00;
    let state = CpuState::new(DRAM_BASE + 1);
    let mut interp = Interp::new(state, mem, SimpleClock::new(), NoFpu);
    let r = interp.step();
    assert!(matches!(r, Ok(Op::Addi { rd: 0, rs1: 0, i_imm: 0 })));
    assert_eq!(interp.state.pc, DRAM_BASE + 3);
}

#[test]
fn writes_to_x0_are_discarded() {
    let mut mem = TestMemory::new();
    mem.load_program(&[addi(0, 0, 5), ECALL]);
    let state = CpuState::new(DRAM_BASE);
    let mut interp = Interp::new(state, mem, SimpleClock::new(), NoFpu);
    let (err, _) = interp.run();
    assert_eq!(err, CpuError::Ecall);
    assert_eq!(interp.state.x[0], 0);
}

#[test]
fn quota_exceeded_stops_before_any_state_change() {
    // A quota stop changes nothing, and with a clock that keeps denying,
    // re-invoking the step deterministically stops the same way.
    let mut mem = TestMemory::new();
    mem.load_program(&[EBREAK]);
    let state = CpuState::new(DRAM_BASE);
    let mut interp = Interp::new(state, mem, DenyClock, NoFpu);
    let r = interp.step();
    assert!(matches!(r, Err((CpuError::QuotaExceeded, None))));
    assert_eq!(interp.state.pc, DRAM_BASE);
    let r = interp.step();
    assert!(matches!(r, Err((CpuError::QuotaExceeded, None))));
    assert_eq!(interp.state.pc, DRAM_BASE);
}

#[test]
fn illegal_fetch_leaves_state_alone() {
    // A refused fetch changes no state, and against a memory that answers
    // identical requests identically the stop replays.
    let mem = TestMemory::new();
    let state = CpuState::new(0x100); // below the DRAM base
    let mut interp = Interp::new(state, mem, SimpleClock::new(), NoFpu);
    let r = interp.step();
    assert!(matches!(r, Err((CpuError::IllegalFetch, None))));
    assert_eq!(interp.state.pc, 0x100);
    let r = interp.step();
    assert!(matches!(r, Err((CpuError::IllegalFetch, None))));
    assert_eq!(interp.state.pc, 0x100);
}

#[test]
fn undecodable_word_stops_and_replays() {
    // The all-zero halfword is the canonical illegal instruction: the stop
    // carries no operation, leaves the state alone, and replays.
    let mem = TestMemory::new(); // DRAM full of zeros
    let state = CpuState::new(DRAM_BASE);
    let mut interp = Interp::new(state, mem, SimpleClock::new(), NoFpu);
    for _ in 0..2 {
        let r = interp.step();
        assert!(matches!(r, Err((CpuError::IllegalInstruction, None))));
        assert_eq!(interp.state.pc, DRAM_BASE);
        assert_eq!(interp.state.x, [0u32; 32]);
    }
}

#[test]
fn unsupported_csr_stops_and_repeats() {
    // An unrecognized CSR index stops with IllegalInstruction, pc
    // unchanged; re-invoking the step deterministically stops again.
    let mut mem = TestMemory::new();
    mem.load_program(&[enc_i(0b111_0011, 1, 0b001, 0, 0x300)]); // csrrw x1, 0x300, x0
    let state = CpuState::new(DRAM_BASE);
    let mut interp = Interp::new(state, mem, SimpleClock::new(), NoFpu);
    let pc0 = interp.state.pc;
    let x0 = interp.state.x;
    let r1 = interp.step();
    assert!(matches!(r1, Err((CpuError::IllegalInstruction, Some(Op::Csrrw { .. })))));
    assert_eq!(interp.state.pc, pc0);
    assert_eq!(interp.state.x, x0);
    let r2 = interp.step();
    assert!(matches!(r2, Err((CpuError::IllegalInstruction, Some(Op::Csrrw { .. })))));
    assert_eq!(interp.state.pc, pc0);
    assert_eq!(interp.state.x, x0);
}

#[test]
fn fflags_read_equals_fcsr_low_bits() {
    let mut mem = TestMemory::new();
    mem.load_program(&[
        enc_i(0b111_0011, 5, 0b010, 0, 0x001), // csrrs x5, fflags, x0
        enc_i(0b111_0011, 6, 0b010, 0, 0x002), // csrrs x6, frm, x0
        enc_i(0b111_0011, 7, 0b010, 0, 0x003), // csrrs x7, fcsr, x0
        enc_i(0b111_0011, 0, 0b001, 7, 0x003), // csrrw x0, fcsr, x7
        ECALL,
    ]);
    let mut state = CpuState::new(DRAM_BASE);
    state.fcsr = 0xab;
    let mut interp = Interp::new(state, mem, SimpleClock::new(), NoFpu);
    let (err, _) = interp.run();
    assert_eq!(err, CpuError::Ecall);
    assert_eq!(interp.state.x[5], 0xab & 0x1f);
    assert_eq!(interp.state.x[6], (0xab >> 5) & 0x7);
    assert_eq!(interp.state.x[7], 0xab);
    // reading then writing the same value back leaves fcsr unchanged
    assert_eq!(interp.state.fcsr, 0xab);
}

#[test]
fn counter_csr_reads_and_ignores_writes() {
    let mut mem = TestMemory::new();
    mem.load_program(&[
        enc_i(0b111_0011, 5, 0b010, 0, 0xc02), // csrrs x5, instret, x0
        enc_i(0b111_0011, 6, 0b001, 7, 0xc00), // csrrw x6, cycle, x7 (ignored write)
        ECALL,
    ]);
    let mut state = CpuState::new(DRAM_BASE);
    state.x[7] = 999;
    let mut interp = Interp::new(state, mem, SimpleClock::new(), NoFpu);
    let (err, _) = interp.run();
    assert_eq!(err, CpuError::Ecall);
    assert_eq!(interp.state.x[5], 0); // no instruction retired before the read
    assert_eq!(interp.state.x[6], 1); // cycle counted the first instruction
    assert_eq!(interp.clock.instret, 3);
}

#[test]
fn fp_rounding_towards_zero_sets_inexact() {
    // With fcsr[7:5] = RTZ, 1.0 + ulp/2 returns 1.0 and raises inexact.
    let one = 1.0f32.to_bits();
    let half_ulp = (0.5f32 * f32::EPSILON).to_bits();
    let mut mem = TestMemory::new();
    mem.load_program(&[
        enc_r(0b101_0011, 1, 0b000, 1, 0, 0b111_1000), // fmv.w.x f1, x1
        enc_r(0b101_0011, 2, 0b000, 2, 0, 0b111_1000), // fmv.w.x f2, x2
        enc_r(0b101_0011, 3, 0b111, 1, 2, 0b000_0000), // fadd.s f3, f1, f2, dyn
        enc_r(0b101_0011, 4, 0b000, 3, 0, 0b111_0000), // fmv.x.w x4, f3
        ECALL,
    ]);
    let mut state = CpuState::new(DRAM_BASE);
    state.x[1] = one;
    state.x[2] = half_ulp;
    state.fcsr = 1 << 5; // dynamic rounding mode RTZ
    let mut interp = Interp::new(state, mem, SimpleClock::new(), TestFpu);
    let (err, _) = interp.run();
    assert_eq!(err, CpuError::Ecall);
    assert_eq!(interp.state.x[4], one);
    assert_eq!(interp.state.fcsr & 0x1f, 0x01); // inexact accrued
    assert_eq!(interp.state.fcsr >> 5, 1); // rounding mode untouched
}

#[test]
fn fcvt_round_trips_exactly_representable_integers() {
    // fcvt.s.w then fcvt.w.s (RTZ) returns the original value for every
    // integer that single precision represents exactly.
    for &x in &[0i32, 1, -1, 2, 123_456, -123_456, 1 << 24, -(1 << 24), i32::MIN] {
        let mut mem = TestMemory::new();
        mem.load_program(&[
            enc_r(0b101_0011, 1, 0b000, 1, 0, 0b110_1000), // fcvt.s.w f1, x1, rne
            enc_r(0b101_0011, 2, 0b001, 1, 0, 0b110_0000), // fcvt.w.s x2, f1, rtz
            ECALL,
        ]);
        let mut state = CpuState::new(DRAM_BASE);
        state.x[1] = x as u32;
        let mut interp = Interp::new(state, mem, SimpleClock::new(), TestFpu);
        let (err, _) = interp.run();
        assert_eq!(err, CpuError::Ecall);
        assert_eq!(interp.state.x[2], x as u32, "round trip of {}", x);
    }
}

#[test]
fn reserved_rounding_mode_stops_without_effect() {
    let mut mem = TestMemory::new();
    mem.load_program(&[
        enc_r(0b101_0011, 3, 0b101, 1, 2, 0b000_0000), // fadd.s with rm = 5
    ]);
    let state = CpuState::new(DRAM_BASE);
    let mut interp = Interp::new(state, mem, SimpleClock::new(), TestFpu);
    let r = interp.step();
    assert!(matches!(r, Err((CpuError::IllegalInstruction, Some(Op::FaddS { .. })))));
    assert_eq!(interp.state.pc, DRAM_BASE);
    assert_eq!(interp.state.fcsr, 0);
}

#[test]
fn fp_without_unit_stops_as_illegal() {
    let mut mem = TestMemory::new();
    mem.load_program(&[enc_r(0b101_0011, 3, 0b000, 1, 2, 0b000_0000)]);
    let state = CpuState::new(DRAM_BASE);
    let mut interp = Interp::new(state, mem, SimpleClock::new(), NoFpu);
    let r = interp.step();
    assert!(matches!(r, Err((CpuError::IllegalInstruction, Some(Op::FaddS { .. })))));
    assert_eq!(interp.state.pc, DRAM_BASE);
}

#[test]
fn misaligned_atomic_stops_after_advancing() {
    let mut mem = TestMemory::new();
    mem.load_program(&[enc_r(0b010_1111, 3, 0b010, 4, 2, 0b0000000)]); // amoadd.w
    let mut state = CpuState::new(DRAM_BASE);
    state.x[4] = DRAM_BASE + 2; // not 4-byte aligned
    let mut interp = Interp::new(state, mem, SimpleClock::new(), NoFpu);
    let r = interp.step();
    assert!(matches!(r, Err((CpuError::MisalignedAccess, Some(Op::AmoaddW { .. })))));
    assert_eq!(interp.state.pc, DRAM_BASE + 4);
}

#[test]
fn amoadd_reads_and_accumulates() {
    let a_off = 0x200usize;
    let mut mem = TestMemory::new();
    mem.load_program(&[enc_r(0b010_1111, 3, 0b010, 4, 2, 0b0000000), ECALL]);
    mem.dram[a_off..a_off + 4].copy_from_slice(&7u32.to_le_bytes());
    let mut state = CpuState::new(DRAM_BASE);
    state.x[4] = DRAM_BASE + a_off as u32;
    state.x[2] = 5;
    let mut interp = Interp::new(state, mem, SimpleClock::new(), NoFpu);
    let (err, _) = interp.run();
    assert_eq!(err, CpuError::Ecall);
    assert_eq!(interp.state.x[3], 7);
    assert_eq!(interp.mem.word_at(a_off), 12);
}

#[test]
fn compressed_addi_matches_wide_addi() {
    // c.addi x5, -1 against addi x5, x5, -1: same state delta, smaller step.
    let c: u16 = (0b000 << 13) | (1 << 12) | (5 << 7) | (0b11111 << 2) | 0b01;
    let mut mem_c = TestMemory::new();
    mem_c.dram[..2].copy_from_slice(&c.to_le_bytes());
    let mut state = CpuState::new(DRAM_BASE);
    state.x[5] = 10;
    let mut ic = Interp::new(state.clone(), mem_c, SimpleClock::new(), NoFpu);
    assert!(matches!(ic.step(), Ok(Op::Addi { rd: 5, rs1: 5, i_imm: -1 })));

    let mut mem_w = TestMemory::new();
    mem_w.load_program(&[addi(5, 5, -1)]);
    let mut iw = Interp::new(state, mem_w, SimpleClock::new(), NoFpu);
    assert!(matches!(iw.step(), Ok(Op::Addi { rd: 5, rs1: 5, i_imm: -1 })));

    assert_eq!(ic.state.x, iw.state.x);
    assert_eq!(ic.state.x[5], 9);
    assert_eq!(ic.state.pc, DRAM_BASE + 2);
    assert_eq!(iw.state.pc, DRAM_BASE + 4);
}

#[test]
fn compressed_sub_matches_wide_sub() {
    let c: u16 = (0b100 << 13) | (0b11 << 10) | (0 << 7) | (0b00 << 5) | (1 << 2) | 0b01;
    let mut mem_c = TestMemory::new();
    mem_c.dram[..2].copy_from_slice(&c.to_le_bytes());
    let mut state = CpuState::new(DRAM_BASE);
    state.x[8] = 30;
    state.x[9] = 12;
    let mut ic = Interp::new(state.clone(), mem_c, SimpleClock::new(), NoFpu);
    assert!(matches!(ic.step(), Ok(Op::Sub { rd: 8, rs1: 8, rs2: 9 })));

    let mut mem_w = TestMemory::new();
    mem_w.load_program(&[enc_r(0b011_0011, 8, 0b000, 8, 9, 0b010_0000)]);
    let mut iw = Interp::new(state, mem_w, SimpleClock::new(), NoFpu);
    assert!(matches!(iw.step(), Ok(Op::Sub { rd: 8, rs1: 8, rs2: 9 })));

    assert_eq!(ic.state.x, iw.state.x);
    assert_eq!(ic.state.x[8], 18);
    assert_eq!(ic.state.pc, DRAM_BASE + 2);
    assert_eq!(iw.state.pc, DRAM_BASE + 4);
}

#[test]
fn compressed_lw_matches_wide_lw() {
    // c.lw x9, 4(x10) against lw x9, 4(x10)
    let c: u16 = (0b010 << 13) | (2 << 7) | (1 << 6) | (1 << 2) | 0b00;
    let a_off = 0x300usize;
    let mut state = CpuState::new(DRAM_BASE);
    state.x[10] = DRAM_BASE + a_off as u32 - 4;

    let mut mem_c = TestMemory::new();
    mem_c.dram[..2].copy_from_slice(&c.to_le_bytes());
    mem_c.dram[a_off..a_off + 4].copy_from_slice(&0xcafe_f00du32.to_le_bytes());
    let mut ic = Interp::new(state.clone(), mem_c, SimpleClock::new(), NoFpu);
    assert!(matches!(ic.step(), Ok(Op::Lw { rd: 9, rs1: 10, i_imm: 4 })));

    let mut mem_w = TestMemory::new();
    mem_w.load_program(&[enc_i(0b000_0011, 9, 0b010, 10, 4)]);
    mem_w.dram[a_off..a_off + 4].copy_from_slice(&0xcafe_f00du32.to_le_bytes());
    let mut iw = Interp::new(state, mem_w, SimpleClock::new(), NoFpu);
    assert!(matches!(iw.step(), Ok(Op::Lw { rd: 9, rs1: 10, i_imm: 4 })));

    assert_eq!(ic.state.x, iw.state.x);
    assert_eq!(ic.state.x[9], 0xcafe_f00d);
    assert_eq!(ic.state.pc, DRAM_BASE + 2);
    assert_eq!(iw.state.pc, DRAM_BASE + 4);
}

#[test]
fn lui_then_auipc_values() {
    let mut mem = TestMemory::new();
    mem.load_program(&[
        (0xfffff << 12) | (5 << 7) | 0b011_0111, // lui x5, 0xfffff
        (0x00001 << 12) | (6 << 7) | 0b001_0111, // auipc x6, 1
        ECALL,
    ]);
    let state = CpuState::new(DRAM_BASE);
    let mut interp = Interp::new(state, mem, SimpleClock::new(), NoFpu);
    let (err, _) = interp.run();
    assert_eq!(err, CpuError::Ecall);
    assert_eq!(interp.state.x[5], 0xffff_f000);
    // auipc executed at DRAM_BASE + 4 with a 32-bit wrapping add
    assert_eq!(interp.state.x[6], (DRAM_BASE + 4).wrapping_add(0x1000));
}

#[test]
fn shifts_mask_the_amount() {
    let mut mem = TestMemory::new();
    mem.load_program(&[
        enc_r(0b011_0011, 5, 0b001, 6, 7, 0), // sll x5, x6, x7
        enc_r(0b011_0011, 8, 0b101, 6, 7, 0b010_0000), // sra x8, x6, x7
        ECALL,
    ]);
    let mut state = CpuState::new(DRAM_BASE);
    state.x[6] = 0x8000_0001;
    state.x[7] = 33; // masked to 1
    let mut interp = Interp::new(state, mem, SimpleClock::new(), NoFpu);
    let (err, _) = interp.run();
    assert_eq!(err, CpuError::Ecall);
    assert_eq!(interp.state.x[5], 0x0000_0002);
    assert_eq!(interp.state.x[8], 0xc000_0000);
}

#[test]
fn mulh_variants() {
    let mut mem = TestMemory::new();
    mem.load_program(&[
        enc_r(0b011_0011, 5, 0b001, 6, 7, 1), // mulh
        enc_r(0b011_0011, 8, 0b011, 6, 7, 1), // mulhu
        enc_r(0b011_0011, 9, 0b010, 6, 7, 1), // mulhsu
        ECALL,
    ]);
    let mut state = CpuState::new(DRAM_BASE);
    state.x[6] = 0xffff_ffff; // -1 signed
    state.x[7] = 0x0000_0002;
    let mut interp = Interp::new(state, mem, SimpleClock::new(), NoFpu);
    let (err, _) = interp.run();
    assert_eq!(err, CpuError::Ecall);
    assert_eq!(interp.state.x[5], 0xffff_ffff); // (-1 * 2) >> 32
    assert_eq!(interp.state.x[8], 0x0000_0001); // (2^32-1)*2 >> 32
    assert_eq!(interp.state.x[9], 0xffff_ffff); // (-1 * 2) >> 32
}

#[test]
fn refused_load_stops_after_advancing() {
    let mut mem = TestMemory::new();
    mem.load_program(&[enc_i(0b000_0011, 5, 0b010, 0, 0x10)]); // lw x5, 0x10(x0)
    let state = CpuState::new(DRAM_BASE); // x0 + 0x10 lies below the DRAM base
    let mut interp = Interp::new(state, mem, SimpleClock::new(), NoFpu);
    let r = interp.step();
    assert!(matches!(r, Err((CpuError::IllegalAccess, Some(Op::Lw { .. })))));
    assert_eq!(interp.state.pc, DRAM_BASE + 4);
    assert_eq!(interp.state.x[5], 0);
}

#[test]
fn jalr_links_and_jumps_from_the_old_base() {
    // jalr x1, x1, 8: the target comes from the base register as it was
    // before the link write.
    let mut mem = TestMemory::new();
    mem.load_program(&[enc_i(0b110_0111, 1, 0b000, 1, 8), 0, ECALL]);
    let mut state = CpuState::new(DRAM_BASE);
    state.x[1] = DRAM_BASE;
    let mut interp = Interp::new(state, mem, SimpleClock::new(), NoFpu);
    assert!(matches!(interp.step(), Ok(Op::Jalr { .. })));
    assert_eq!(interp.state.x[1], DRAM_BASE + 4); // link
    assert_eq!(interp.state.pc, DRAM_BASE + 8); // old x1 + 8
}
