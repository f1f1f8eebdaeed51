//! A RISC-V RV32G[C] interpreter.
//!
//! The interpreter combines a [`CpuState`] with host-supplied implementations
//! of [`Memory`], [`Clock`] and [`Fpu`], and simulates a virtual CPU one
//! instruction at a time.

pub mod bytemem;
pub mod cfields;
pub mod exec_a;
pub mod exec_csr;
pub mod exec_d;
pub mod exec_f;
pub mod exec_i;
pub mod exec_m;
pub mod fields;
pub mod fp;
pub mod interp;
pub mod laws;
pub mod op;
pub mod serial;
pub mod types;

pub use crate::fp::Fpu;
pub use crate::fp::NoFpu;
pub use crate::interp::Interp;
pub use crate::op::Op;

pub use crate::types::Clock;
pub use crate::types::CpuError;
pub use crate::types::CpuState;
pub use crate::types::Memory;
pub use crate::types::MemoryAccess;
pub use crate::types::SimpleClock;
