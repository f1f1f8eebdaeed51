//! The decode-and-dispatch interpreter.
//!
//! An [`Interp`] combines a [`CpuState`] with host-supplied [`Memory`],
//! [`Clock`] and [`Fpu`] implementations, then simulates a virtual CPU one
//! instruction at a time. Each step checks the clock quota, fetches one or
//! two halfwords, decodes, executes, and notifies the clock.

use vstd::prelude::*;

use crate::fp::Fpu;
use crate::op::Op;
use crate::types::{Clock, CpuError, CpuState, Memory, MemoryAccess};

verus! {

/// The interpreter.
///
/// An `Interp` instance owns the state and the host collaborators; the
/// fields stay public so the host can inspect and rebuild the machine
/// between runs.
pub struct Interp<M: Memory, C: Clock, F: Fpu> {
    /// The CPU state.
    pub state: CpuState,
    /// The memory implementation.
    pub mem: M,
    /// The clock implementation.
    pub clock: C,
    /// The floating-point rounding unit.
    pub fpu: F,
    /// Whether the compressed instruction fetch path is enabled. When set,
    /// instruction fetch reads halfwords and jump targets need only 2-byte
    /// alignment; when clear, fetch reads full words and jump targets need
    /// 4-byte alignment.
    pub rvc: bool,
    /// Size in bytes of the instruction being executed (2 or 4).
    pub instsz: u32,
}

/// The register file after a write of `v` to register `rd`: a write to
/// register 0 is suppressed.
pub open spec fn spec_wx(x: Seq<u32>, rd: int, v: u32) -> Seq<u32> {
    if rd == 0 {
        x
    } else {
        x.update(rd, v)
    }
}

/// A fetch target is acceptable when it meets the alignment the fetch path
/// requires: 2 bytes with the compressed extension, 4 bytes without.
pub open spec fn spec_target_ok(pc: u32, rvc: bool) -> bool {
    if rvc {
        pc % 2 == 0
    } else {
        pc % 4 == 0
    }
}

impl<M: Memory, C: Clock, F: Fpu> Interp<M, C, F> {
    /// The interpreter invariant: a well-formed CPU state and a plausible
    /// instruction size.
    pub open spec fn wf(self) -> bool {
        &&& self.state.wf()
        &&& (self.instsz == 2 || self.instsz == 4)
    }

    /// `self` differs from `pre` at most in the CPU state: the collaborators
    /// and the fetch configuration are untouched.
    pub open spec fn env_unchanged(self, pre: Self) -> bool {
        &&& self.mem == pre.mem
        &&& self.clock == pre.clock
        &&& self.fpu == pre.fpu
        &&& self.rvc == pre.rvc
        &&& self.instsz == pre.instsz
    }

    /// `self` differs from `pre` at most in the CPU state and in whatever
    /// the memory implementation did to itself while serving an access.
    pub open spec fn env_unchanged_but_mem(self, pre: Self) -> bool {
        &&& self.clock == pre.clock
        &&& self.fpu == pre.fpu
        &&& self.rvc == pre.rvc
        &&& self.instsz == pre.instsz
    }

    /// `self` differs from `pre` at most in the CPU state and in whatever
    /// the rounding unit did to itself while serving a computation.
    pub open spec fn env_unchanged_but_fpu(self, pre: Self) -> bool {
        &&& self.mem == pre.mem
        &&& self.clock == pre.clock
        &&& self.rvc == pre.rvc
        &&& self.instsz == pre.instsz
    }

    /// Everything but the integer register file and the program counter is
    /// as it was.
    pub open spec fn only_x_pc(self, pre: Self) -> bool {
        &&& self.env_unchanged(pre)
        &&& self.state.f == pre.state.f
        &&& self.state.fcsr == pre.state.fcsr
        &&& self.state.reservation == pre.state.reservation
    }

    /// The shape shared by every straight-line instruction that writes one
    /// register: `rd` takes `v`, the program counter advances past the
    /// instruction, and nothing else moves.
    pub open spec fn only_xw(pre: Self, post: Self, rd: int, v: u32) -> bool {
        &&& post.only_x_pc(pre)
        &&& post.state.x@ == spec_wx(pre.state.x@, rd, v)
        &&& post.state.pc == pre.state.pc.wrapping_add(pre.instsz)
    }

    /// Create a new interpreter around the given state and collaborators,
    /// with the compressed fetch path enabled.
    pub fn new(state: CpuState, mem: M, clock: C, fpu: F) -> (r: Self)
        ensures
            r.state == state,
            r.mem == mem,
            r.clock == clock,
            r.fpu == fpu,
            r.rvc == true,
            r.instsz == 4,
    {
        Self { state, mem, clock, fpu, rvc: true, instsz: 4 }
    }

    /// Write `v` to integer register `rd`, suppressing writes to register 0.
    pub(crate) fn write_rd(&mut self, rd: usize, v: u32)
        requires
            rd < 32,
        ensures
            final(self).state.x@ == spec_wx(old(self).state.x@, rd as int, v),
            *final(self) == (Self { state: CpuState { x: final(self).state.x, ..old(self).state }, ..*old(self) }),
            old(self).state.x@[0] == 0 ==> final(self).state.x@[0] == 0,
    {
        if rd != 0 {
            self.state.x[rd] = v;
        }
    }

    /// Advance the program counter past the current instruction.
    pub(crate) fn advance_pc(&mut self)
        ensures
            final(self).state.pc == old(self).state.pc.wrapping_add(old(self).instsz),
            *final(self) == (Self { state: CpuState { pc: final(self).state.pc, ..old(self).state }, ..*old(self) }),
    {
        self.state.pc = self.state.pc.wrapping_add(self.instsz);
    }

    /// Load upper immediate: `rd` takes the U-immediate.
    pub fn lui(&mut self, rd: usize, u_imm: i32) -> (r: Result<(), CpuError>)
        requires
            rd < 32,
        ensures
            r is Ok,
            Self::only_xw(*old(self), *final(self), rd as int, u_imm as u32),
    {
        self.write_rd(rd, u_imm as u32);
        self.advance_pc();
        Ok(())
    }

    /// Add upper immediate to pc: `rd` takes `pc + U-immediate`, with 32-bit
    /// wrap.
    pub fn auipc(&mut self, rd: usize, u_imm: i32) -> (r: Result<(), CpuError>)
        requires
            rd < 32,
        ensures
            r is Ok,
            Self::only_xw(
                *old(self),
                *final(self),
                rd as int,
                old(self).state.pc.wrapping_add(u_imm as u32),
            ),
    {
        let v = self.state.pc.wrapping_add(u_imm as u32);
        self.write_rd(rd, v);
        self.advance_pc();
        Ok(())
    }

    /// Add immediate.
    pub fn addi(&mut self, rd: usize, rs1: usize, i_imm: i32) -> (r: Result<(), CpuError>)
        requires
            rd < 32,
            rs1 < 32,
        ensures
            r is Ok,
            Self::only_xw(
                *old(self),
                *final(self),
                rd as int,
                old(self).state.x@[rs1 as int].wrapping_add(i_imm as u32),
            ),
    {
        let v = self.state.x[rs1].wrapping_add(i_imm as u32);
        self.write_rd(rd, v);
        self.advance_pc();
        Ok(())
    }
}

/// The operations that enforce fetch alignment on their target: only these
/// can stop with `MisalignedFetch`.
pub open spec fn spec_ctrl_op(op: Op) -> bool {
    match op {
        Op::Jal { .. } => true,
        Op::Jalr { .. } => true,
        Op::Beq { .. } => true,
        Op::Bne { .. } => true,
        Op::Blt { .. } => true,
        Op::Bge { .. } => true,
        Op::Bltu { .. } => true,
        Op::Bgeu { .. } => true,
        _ => false,
    }
}

impl<M: Memory, C: Clock, F: Fpu> Interp<M, C, F> {
    /// Dispatch one decoded, well-formed operation to its handler.
    fn dispatch(&mut self, op: Op) -> (r: Result<(), CpuError>)
        requires
            crate::op::op_wf(op),
            old(self).wf(),
        ensures
            final(self).state.x@[0] == 0,
            final(self).state.fcsr < 0x100,
            final(self).instsz == old(self).instsz,
            final(self).rvc == old(self).rvc,
            final(self).clock == old(self).clock,
            ({
                let e = CpuError::IllegalInstruction;
                let m = CpuError::MisalignedFetch;
                &&& (r == Err::<(), CpuError>(e) ==> final(self).state == old(self).state)
                &&& (r == Err::<(), CpuError>(m) ==> final(self).state.pc == old(self).state.pc
                    && spec_ctrl_op(op))
                &&& r != Err::<(), CpuError>(CpuError::QuotaExceeded)
                &&& r != Err::<(), CpuError>(CpuError::IllegalFetch)
            }),
    {
        match op {
            Op::Lui { rd, u_imm } => self.lui(rd, u_imm),
            Op::Auipc { rd, u_imm } => self.auipc(rd, u_imm),
            Op::Jal { rd, j_imm } => self.jal(rd, j_imm),
            Op::Jalr { rd, rs1, i_imm } => self.jalr(rd, rs1, i_imm),
            Op::Beq { rs1, rs2, b_imm } => self.beq(rs1, rs2, b_imm),
            Op::Bne { rs1, rs2, b_imm } => self.bne(rs1, rs2, b_imm),
            Op::Blt { rs1, rs2, b_imm } => self.blt(rs1, rs2, b_imm),
            Op::Bge { rs1, rs2, b_imm } => self.bge(rs1, rs2, b_imm),
            Op::Bltu { rs1, rs2, b_imm } => self.bltu(rs1, rs2, b_imm),
            Op::Bgeu { rs1, rs2, b_imm } => self.bgeu(rs1, rs2, b_imm),
            Op::Lb { rd, rs1, i_imm } => self.lb(rd, rs1, i_imm),
            Op::Lh { rd, rs1, i_imm } => self.lh(rd, rs1, i_imm),
            Op::Lw { rd, rs1, i_imm } => self.lw(rd, rs1, i_imm),
            Op::Lbu { rd, rs1, i_imm } => self.lbu(rd, rs1, i_imm),
            Op::Lhu { rd, rs1, i_imm } => self.lhu(rd, rs1, i_imm),
            Op::Sb { rs1, rs2, s_imm } => self.sb(rs1, rs2, s_imm),
            Op::Sh { rs1, rs2, s_imm } => self.sh(rs1, rs2, s_imm),
            Op::Sw { rs1, rs2, s_imm } => self.sw(rs1, rs2, s_imm),
            Op::Addi { rd, rs1, i_imm } => self.addi(rd, rs1, i_imm),
            Op::Slti { rd, rs1, i_imm } => self.slti(rd, rs1, i_imm),
            Op::Sltiu { rd, rs1, i_imm } => self.sltiu(rd, rs1, i_imm),
            Op::Xori { rd, rs1, i_imm } => self.xori(rd, rs1, i_imm),
            Op::Ori { rd, rs1, i_imm } => self.ori(rd, rs1, i_imm),
            Op::Andi { rd, rs1, i_imm } => self.andi(rd, rs1, i_imm),
            Op::Slli { rd, rs1, shamt } => self.slli(rd, rs1, shamt),
            Op::Srli { rd, rs1, shamt } => self.srli(rd, rs1, shamt),
            Op::Srai { rd, rs1, shamt } => self.srai(rd, rs1, shamt),
            Op::Add { rd, rs1, rs2 } => self.add(rd, rs1, rs2),
            Op::Sll { rd, rs1, rs2 } => self.sll(rd, rs1, rs2),
            Op::Slt { rd, rs1, rs2 } => self.slt(rd, rs1, rs2),
            Op::Sltu { rd, rs1, rs2 } => self.sltu(rd, rs1, rs2),
            Op::Xor { rd, rs1, rs2 } => self.xor(rd, rs1, rs2),
            Op::Srl { rd, rs1, rs2 } => self.srl(rd, rs1, rs2),
            Op::Or { rd, rs1, rs2 } => self.or(rd, rs1, rs2),
            Op::And { rd, rs1, rs2 } => self.and(rd, rs1, rs2),
            Op::Sub { rd, rs1, rs2 } => self.sub(rd, rs1, rs2),
            Op::Sra { rd, rs1, rs2 } => self.sra(rd, rs1, rs2),
            Op::Fence { pred, succ } => self.fence(pred, succ),
            Op::FenceI => self.fence_i(),
            Op::Ecall => self.ecall(),
            Op::Ebreak => self.ebreak(),
            Op::Csrrw { rd, rs1, csr } => self.csrrw(rd, rs1, csr),
            Op::Csrrs { rd, rs1, csr } => self.csrrs(rd, rs1, csr),
            Op::Csrrc { rd, rs1, csr } => self.csrrc(rd, rs1, csr),
            Op::Csrrwi { rd, zimm, csr } => self.csrrwi(rd, zimm, csr),
            Op::Csrrsi { rd, zimm, csr } => self.csrrsi(rd, zimm, csr),
            Op::Csrrci { rd, zimm, csr } => self.csrrci(rd, zimm, csr),
            Op::Mul { rd, rs1, rs2 } => self.mul(rd, rs1, rs2),
            Op::Mulh { rd, rs1, rs2 } => self.mulh(rd, rs1, rs2),
            Op::Mulhsu { rd, rs1, rs2 } => self.mulhsu(rd, rs1, rs2),
            Op::Mulhu { rd, rs1, rs2 } => self.mulhu(rd, rs1, rs2),
            Op::Div { rd, rs1, rs2 } => self.div(rd, rs1, rs2),
            Op::Divu { rd, rs1, rs2 } => self.divu(rd, rs1, rs2),
            Op::Rem { rd, rs1, rs2 } => self.rem(rd, rs1, rs2),
            Op::Remu { rd, rs1, rs2 } => self.remu(rd, rs1, rs2),
            Op::LrW { rd, rs1, aq, rl } => self.lr_w(rd, rs1, aq, rl),
            Op::ScW { rd, rs1, rs2, aq, rl } => self.sc_w(rd, rs1, rs2, aq, rl),
            Op::AmoswapW { rd, rs1, rs2, aq, rl } => self.amoswap_w(rd, rs1, rs2, aq, rl),
            Op::AmoaddW { rd, rs1, rs2, aq, rl } => self.amoadd_w(rd, rs1, rs2, aq, rl),
            Op::AmoxorW { rd, rs1, rs2, aq, rl } => self.amoxor_w(rd, rs1, rs2, aq, rl),
            Op::AmoandW { rd, rs1, rs2, aq, rl } => self.amoand_w(rd, rs1, rs2, aq, rl),
            Op::AmoorW { rd, rs1, rs2, aq, rl } => self.amoor_w(rd, rs1, rs2, aq, rl),
            Op::AmominW { rd, rs1, rs2, aq, rl } => self.amomin_w(rd, rs1, rs2, aq, rl),
            Op::AmomaxW { rd, rs1, rs2, aq, rl } => self.amomax_w(rd, rs1, rs2, aq, rl),
            Op::AmominuW { rd, rs1, rs2, aq, rl } => self.amominu_w(rd, rs1, rs2, aq, rl),
            Op::AmomaxuW { rd, rs1, rs2, aq, rl } => self.amomaxu_w(rd, rs1, rs2, aq, rl),
            Op::Flw { rd, rs1, i_imm } => self.flw(rd, rs1, i_imm),
            Op::Fsw { rs1, rs2, s_imm } => self.fsw(rs1, rs2, s_imm),
            Op::FmaddS { rd, rs1, rs2, rs3, rm } => self.fmadd_s(rd, rs1, rs2, rs3, rm),
            Op::FmsubS { rd, rs1, rs2, rs3, rm } => self.fmsub_s(rd, rs1, rs2, rs3, rm),
            Op::FnmsubS { rd, rs1, rs2, rs3, rm } => self.fnmsub_s(rd, rs1, rs2, rs3, rm),
            Op::FnmaddS { rd, rs1, rs2, rs3, rm } => self.fnmadd_s(rd, rs1, rs2, rs3, rm),
            Op::FaddS { rd, rs1, rs2, rm } => self.fadd_s(rd, rs1, rs2, rm),
            Op::FsubS { rd, rs1, rs2, rm } => self.fsub_s(rd, rs1, rs2, rm),
            Op::FmulS { rd, rs1, rs2, rm } => self.fmul_s(rd, rs1, rs2, rm),
            Op::FdivS { rd, rs1, rs2, rm } => self.fdiv_s(rd, rs1, rs2, rm),
            Op::FsqrtS { rd, rs1, rm } => self.fsqrt_s(rd, rs1, rm),
            Op::FsgnjS { rd, rs1, rs2 } => self.fsgnj_s(rd, rs1, rs2),
            Op::FsgnjnS { rd, rs1, rs2 } => self.fsgnjn_s(rd, rs1, rs2),
            Op::FsgnjxS { rd, rs1, rs2 } => self.fsgnjx_s(rd, rs1, rs2),
            Op::FminS { rd, rs1, rs2 } => self.fmin_s(rd, rs1, rs2),
            Op::FmaxS { rd, rs1, rs2 } => self.fmax_s(rd, rs1, rs2),
            Op::FcvtWS { rd, rs1, rm } => self.fcvt_w_s(rd, rs1, rm),
            Op::FcvtWuS { rd, rs1, rm } => self.fcvt_wu_s(rd, rs1, rm),
            Op::FmvXW { rd, rs1 } => self.fmv_x_w(rd, rs1),
            Op::FeqS { rd, rs1, rs2 } => self.feq_s(rd, rs1, rs2),
            Op::FltS { rd, rs1, rs2 } => self.flt_s(rd, rs1, rs2),
            Op::FleS { rd, rs1, rs2 } => self.fle_s(rd, rs1, rs2),
            Op::FclassS { rd, rs1 } => self.fclass_s(rd, rs1),
            Op::FcvtSW { rd, rs1, rm } => self.fcvt_s_w(rd, rs1, rm),
            Op::FcvtSWu { rd, rs1, rm } => self.fcvt_s_wu(rd, rs1, rm),
            Op::FmvWX { rd, rs1 } => self.fmv_w_x(rd, rs1),
            Op::Fld { rd, rs1, i_imm } => self.fld(rd, rs1, i_imm),
            Op::Fsd { rs1, rs2, s_imm } => self.fsd(rs1, rs2, s_imm),
            Op::FmaddD { rd, rs1, rs2, rs3, rm } => self.fmadd_d(rd, rs1, rs2, rs3, rm),
            Op::FmsubD { rd, rs1, rs2, rs3, rm } => self.fmsub_d(rd, rs1, rs2, rs3, rm),
            Op::FnmsubD { rd, rs1, rs2, rs3, rm } => self.fnmsub_d(rd, rs1, rs2, rs3, rm),
            Op::FnmaddD { rd, rs1, rs2, rs3, rm } => self.fnmadd_d(rd, rs1, rs2, rs3, rm),
            Op::FaddD { rd, rs1, rs2, rm } => self.fadd_d(rd, rs1, rs2, rm),
            Op::FsubD { rd, rs1, rs2, rm } => self.fsub_d(rd, rs1, rs2, rm),
            Op::FmulD { rd, rs1, rs2, rm } => self.fmul_d(rd, rs1, rs2, rm),
            Op::FdivD { rd, rs1, rs2, rm } => self.fdiv_d(rd, rs1, rs2, rm),
            Op::FsqrtD { rd, rs1, rm } => self.fsqrt_d(rd, rs1, rm),
            Op::FsgnjD { rd, rs1, rs2 } => self.fsgnj_d(rd, rs1, rs2),
            Op::FsgnjnD { rd, rs1, rs2 } => self.fsgnjn_d(rd, rs1, rs2),
            Op::FsgnjxD { rd, rs1, rs2 } => self.fsgnjx_d(rd, rs1, rs2),
            Op::FminD { rd, rs1, rs2 } => self.fmin_d(rd, rs1, rs2),
            Op::FmaxD { rd, rs1, rs2 } => self.fmax_d(rd, rs1, rs2),
            Op::FcvtWD { rd, rs1, rm } => self.fcvt_w_d(rd, rs1, rm),
            Op::FcvtWuD { rd, rs1, rm } => self.fcvt_wu_d(rd, rs1, rm),
            Op::FeqD { rd, rs1, rs2 } => self.feq_d(rd, rs1, rs2),
            Op::FltD { rd, rs1, rs2 } => self.flt_d(rd, rs1, rs2),
            Op::FleD { rd, rs1, rs2 } => self.fle_d(rd, rs1, rs2),
            Op::FclassD { rd, rs1 } => self.fclass_d(rd, rs1),
            Op::FcvtDW { rd, rs1, rm } => self.fcvt_d_w(rd, rs1, rm),
            Op::FcvtDWu { rd, rs1, rm } => self.fcvt_d_wu(rd, rs1, rm),
            Op::FcvtSD { rd, rs1, rm } => self.fcvt_s_d(rd, rs1, rm),
            Op::FcvtDS { rd, rs1, rm } => self.fcvt_d_s(rd, rs1, rm),
        }
    }

    /// Step a single instruction, fetching it from the current `pc` address.
    ///
    /// Returns the parsed instruction that was executed. When the
    /// instruction stops the virtual CPU, additionally returns the stop
    /// reason; the instruction may then be `None` if it failed to load or
    /// parse. The stops with pc-unchanged semantics (`QuotaExceeded`,
    /// `IllegalFetch`, `IllegalInstruction`, `MisalignedFetch`) leave the
    /// program counter alone; `MisalignedFetch` arises only from a branch or
    /// jump, never from the fetch itself; and a stop arrives without its
    /// operation only when the failure preceded decode.
    pub fn step(&mut self) -> (r: Result<Op, (CpuError, Option<Op>)>)
        requires
            old(self).wf(),
        ensures
            final(self).wf(),
            final(self).state.x@[0] == 0,
            final(self).rvc == old(self).rvc,
            r == Err::<Op, (CpuError, Option<Op>)>((CpuError::QuotaExceeded, None::<Op>))
                ==> *final(self) == *old(self),
            ({
                let pc_kept = final(self).state.pc == old(self).state.pc;
                match r {
                    Err(p) => {
                        &&& ((p.0 == CpuError::QuotaExceeded || p.0 == CpuError::IllegalFetch
                            || p.0 == CpuError::IllegalInstruction || p.0
                            == CpuError::MisalignedFetch) ==> pc_kept)
                        &&& (p.0 == CpuError::MisalignedFetch ==> (p.1 matches Some(o)
                            && spec_ctrl_op(o)))
                        &&& (p.1 matches Some(o) ==> crate::op::op_wf(o))
                        &&& (p.1 is None ==> (p.0 == CpuError::QuotaExceeded || p.0
                            == CpuError::IllegalFetch || p.0 == CpuError::IllegalInstruction))
                    },
                    Ok(op) => crate::op::op_wf(op),
                }
            }),
    {
        if !self.clock.check_quota() {
            return Err((CpuError::QuotaExceeded, None));
        }
        let op_opt: Option<Op>;
        if self.rvc {
            let lo = match self.mem.access(self.state.pc, MemoryAccess::Exec(2)) {
                Some(v) => v,
                None => {
                    return Err((CpuError::IllegalFetch, None));
                },
            };
            #[verifier::truncate]
            let lo16 = lo as u16;
            if lo16 & 3 == 3 {
                let target = self.state.pc.wrapping_add(2);
                let hi = match self.mem.access(target, MemoryAccess::Exec(2)) {
                    Some(v) => v,
                    None => {
                        return Err((CpuError::IllegalFetch, None));
                    },
                };
                #[verifier::truncate]
                let hi16 = hi as u16;
                let w = ((hi16 as u32) << 16u32) | (lo16 as u32);
                self.instsz = 4;
                proof {
                    crate::op::lemma_decode32_wf(w);
                }
                op_opt = Op::parse(w);
            } else {
                self.instsz = 2;
                proof {
                    crate::op::lemma_decode16_wf(lo16);
                }
                op_opt = Op::parse_c(lo16);
            }
        } else {
            let w = match self.mem.access(self.state.pc, MemoryAccess::Exec(4)) {
                Some(v) => v,
                None => {
                    return Err((CpuError::IllegalFetch, None));
                },
            };
            self.instsz = 4;
            #[verifier::truncate]
            let w32 = w as u32;
            proof {
                crate::op::lemma_decode32_wf(w32);
            }
            op_opt = Op::parse(w32);
        }
        let op = match op_opt {
            Some(op) => op,
            None => {
                return Err((CpuError::IllegalInstruction, None));
            },
        };
        let res = self.dispatch(op);
        self.clock.progress(&op);
        match res {
            Ok(_) => Ok(op),
            Err(err) => Err((err, Some(op))),
        }
    }

    /// Run continuously until execution stops, starting at the current `pc`
    /// address.
    ///
    /// Returns the stop reason and the instruction that caused the virtual
    /// CPU to stop. The instruction may be `None` if it failed to load or
    /// parse.
    ///
    /// One call retires at most `u64::MAX` instructions; a run that actually
    /// reaches that bound stops with `QuotaExceeded`, exactly as when the
    /// clock denies quota, and the host may simply call `run` again.
    pub fn run(&mut self) -> (r: (CpuError, Option<Op>))
        requires
            old(self).wf(),
        ensures
            final(self).wf(),
            final(self).state.x@[0] == 0,
            r.1 is None ==> (r.0 == CpuError::QuotaExceeded || r.0 == CpuError::IllegalFetch
                || r.0 == CpuError::IllegalInstruction),
            r.0 == CpuError::MisalignedFetch ==> (r.1 matches Some(o) && spec_ctrl_op(o)),
            r.1 matches Some(o) ==> crate::op::op_wf(o),
    {
        let mut fuel: u64 = u64::MAX;
        loop
            invariant
                self.wf(),
            decreases fuel,
        {
            if fuel == 0 {
                return (CpuError::QuotaExceeded, None);
            }
            fuel = fuel - 1;
            match self.step() {
                Ok(_) => {
                },
                Err(err) => {
                    return err;
                },
            }
        }
    }
}

} // verus!

