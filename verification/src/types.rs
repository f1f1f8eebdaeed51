use vstd::prelude::*;

use crate::op::Op;

verus! {

/// Statuses with which virtual CPU execution may stop.
///
/// Some of these may be recovered from. For all errors, the effects on the
/// CPU state are documented.
#[derive(Clone, Copy, Debug, Eq, PartialEq, Structural)]
pub enum CpuError {
    /// Tried to branch or jump to an unaligned address.
    ///
    /// `pc` is unaltered, but the jump or branch may have partially altered
    /// state (a link register write).
    MisalignedFetch,
    /// Tried to fetch the next instruction from a bad address. State is
    /// unaltered.
    IllegalFetch,
    /// Tried to execute an invalid instruction. State is unaltered.
    IllegalInstruction,
    /// Tried to access an invalid address. `pc` is advanced to the next
    /// instruction, but the instruction may have also partially altered
    /// state.
    IllegalAccess,
    /// Tried to access a misaligned address. `pc` is advanced to the next
    /// instruction, no other state is altered.
    MisalignedAccess,
    /// Encountered an ECALL instruction. `pc` is advanced to the next
    /// instruction, no other state is altered.
    Ecall,
    /// Encountered an EBREAK instruction. `pc` is advanced to the next
    /// instruction, no other state is altered.
    Ebreak,
    /// The `Clock` indicated the execution quota was exceeded. State is
    /// unaltered.
    QuotaExceeded,
}

/// Struct containing all virtual CPU state.
#[derive(Clone, Debug)]
pub struct CpuState {
    /// Integer registers. Index 0 always holds zero.
    pub x: [u32; 32],
    /// Floating-point registers, as raw 64-bit patterns. Single-precision
    /// values live NaN-boxed in the low 32 bits.
    pub f: [u64; 32],
    /// Program counter.
    pub pc: u32,
    /// Floating-point CSR. Bits [4:0] are the accrued exception flags, bits
    /// [7:5] the dynamic rounding mode; all higher bits stay zero.
    pub fcsr: u32,
    /// Reservation slot for the atomic extension.
    ///
    /// When modifying memory outside the interpreter, this should usually be
    /// cleared.
    pub reservation: Option<u32>,
}

impl CpuState {
    /// Well-formedness: the architectural invariants every interpreter step
    /// preserves.
    pub open spec fn wf(self) -> bool {
        &&& self.x@[0] == 0u32
        &&& self.fcsr < 0x100
    }

    /// Create a new state instance, with the given `pc` starting value.
    ///
    /// All registers are initialized to zero.
    pub fn new(pc: u32) -> (s: CpuState)
        ensures
            s.wf(),
            s.x@ =~= Seq::<u32>::new(32, |i: int| 0u32),
            s.f@ =~= Seq::<u64>::new(32, |i: int| 0u64),
            s.pc == pc,
            s.fcsr == 0,
            s.reservation is None,
    {
        CpuState { x: [0; 32], f: [0; 32], pc, fcsr: 0, reservation: None }
    }
}

/// Types of memory access used with the `Memory` trait.
///
/// Each access names its width in bytes (1, 2, 4 or 8). Values travel as the
/// low bits of a `u64`.
#[derive(Clone, Copy, Debug, Eq, PartialEq, Structural)]
pub enum MemoryAccess {
    /// Load a value from memory.
    Load(u32),
    /// Store the contained value (width, value).
    Store(u32, u64),
    /// Load an instruction from memory. On success the semantics equal
    /// `Load`; hosts may distinguish the two for access policy.
    Exec(u32),
}

impl MemoryAccess {
    /// The width of the access, in bytes.
    pub open spec fn width(self) -> u32 {
        match self {
            MemoryAccess::Load(w) => w,
            MemoryAccess::Store(w, _) => w,
            MemoryAccess::Exec(w) => w,
        }
    }
}

/// A trait used by the interpreter to implement loads and stores.
pub trait Memory {
    /// Access the given address in memory.
    ///
    /// `None` means the host refuses the access. For `Load` and `Exec`,
    /// `Some(v)` carries the loaded value in the low `8 * width` bits of
    /// `v`; for `Store`, the success payload carries no information.
    fn access(&mut self, addr: u32, access: MemoryAccess) -> Option<u64>;
}

/// A trait used by the interpreter to implement the clock CSRs.
pub trait Clock {
    /// Read the `cycle` CSR, which counts the number of CPU cycles executed.
    fn read_cycle(&self) -> u64;

    /// Read the `time` CSR, which holds wall-clock time.
    ///
    /// The epoch and granularity are arbitrary, but the period must be
    /// constant.
    fn read_time(&self) -> u64;

    /// Read the `instret` CSR, which counts the number of instructions
    /// executed.
    fn read_instret(&self) -> u64;

    /// Progress clocks, after the given instruction was executed.
    ///
    /// This typically increments `instret` and adds some number to `cycle`;
    /// the executed operation is passed so the clock can attribute cost.
    fn progress(&mut self, op: &Op);

    /// Check execution quotas. Called at the very start of a step. When this
    /// returns `false`, the virtual CPU is stopped with
    /// `CpuError::QuotaExceeded`.
    fn check_quota(&self) -> bool {
        true
    }
}

/// A simple implementation of the `Clock` trait.
///
/// This implementation only counts instructions. The CSRs `cycle`, `time`
/// and `instret` all return the same counter.
#[derive(Clone, Copy, Debug)]
pub struct SimpleClock {
    /// Instruction counter CSR.
    pub instret: u64,
}

impl SimpleClock {
    /// Create an instance with the counter starting at 0.
    pub fn new() -> (c: SimpleClock)
        ensures
            c.instret == 0,
    {
        SimpleClock { instret: 0 }
    }
}

impl Clock for SimpleClock {
    fn read_cycle(&self) -> u64 {
        self.instret
    }

    fn read_time(&self) -> u64 {
        self.instret
    }

    fn read_instret(&self) -> u64 {
        self.instret
    }

    fn progress(&mut self, _op: &Op) {
        self.instret = self.instret.wrapping_add(1);
    }
}

} // verus!
