//! Laws of the interpreter that span more than one call.
//!
//! The stops with pc-unchanged semantics are deterministic wherever the
//! decision rests on the CPU state alone: re-running the same instruction on
//! the state a stop left behind stops the same way again. The lemmas here
//! state that for the three families in which the interpreter itself makes
//! the decision — jumps, branches and CSR accesses. For the quota, fetch and
//! decode stops the decision includes a host answer (the clock's quota, the
//! memory's word), so repetition there is a property of the host, not of the
//! interpreter.

use vstd::prelude::*;

use crate::fp::Fpu;
use crate::interp::{spec_target_ok, spec_wx, Interp};
use crate::types::{Clock, CpuError, Memory};

verus! {

/// A jump that stopped with `MisalignedFetch` left the program counter (and
/// so the target) as it was; running the same jump again from the state it
/// left behind stops the same way, and changes nothing further.
pub proof fn lemma_jump_stop_repeats<M: Memory, C: Clock, F: Fpu>(
    pre: Interp<M, C, F>,
    mid: Interp<M, C, F>,
    post: Interp<M, C, F>,
    r1: Result<(), CpuError>,
    r2: Result<(), CpuError>,
    rd: int,
    target: u32,
)
    requires
        Interp::jumped(pre, mid, r1, rd, target),
        r1 == Err::<(), CpuError>(CpuError::MisalignedFetch),
        Interp::jumped(mid, post, r2, rd, target),
        0 <= rd < 32,
        pre.state.x@.len() == 32,
    ensures
        r2 == r1,
        post.state.pc == mid.state.pc,
        post.state.x@ == mid.state.x@,
{
    assert(!spec_target_ok(target, pre.rvc));
    assert(mid.rvc == pre.rvc);
    let link = pre.state.pc.wrapping_add(pre.instsz);
    assert(mid.state.pc == pre.state.pc);
    assert(mid.state.pc.wrapping_add(mid.instsz) == link);
    assert(spec_wx(spec_wx(pre.state.x@, rd, link), rd, link) =~= spec_wx(
        pre.state.x@,
        rd,
        link,
    ));
}

/// A taken branch that stopped with `MisalignedFetch` changed nothing;
/// running the same branch again stops the same way.
pub proof fn lemma_branch_stop_repeats<M: Memory, C: Clock, F: Fpu>(
    pre: Interp<M, C, F>,
    mid: Interp<M, C, F>,
    post: Interp<M, C, F>,
    r1: Result<(), CpuError>,
    r2: Result<(), CpuError>,
    taken: bool,
    b_imm: i32,
)
    requires
        Interp::branched(pre, mid, r1, taken, b_imm),
        r1 == Err::<(), CpuError>(CpuError::MisalignedFetch),
        Interp::branched(mid, post, r2, taken, b_imm),
    ensures
        r2 == r1,
        post.state == mid.state,
        mid.state == pre.state,
{
}

/// A CSR access that stopped with `IllegalInstruction` rejected its index,
/// which no state change can mend: running it again stops the same way and
/// changes nothing.
pub proof fn lemma_csr_stop_repeats<M: Memory, C: Clock, F: Fpu>(
    pre: Interp<M, C, F>,
    mid: Interp<M, C, F>,
    post: Interp<M, C, F>,
    r1: Result<(), CpuError>,
    r2: Result<(), CpuError>,
    id: u32,
    rd: int,
    wrote: bool,
    wv_of: spec_fn(u32) -> u32,
)
    requires
        Interp::csr_done(pre, mid, r1, id, rd, wrote, wv_of),
        r1 == Err::<(), CpuError>(CpuError::IllegalInstruction),
        Interp::csr_done(mid, post, r2, id, rd, wrote, wv_of),
    ensures
        r2 == r1,
        post == mid,
        mid == pre,
{
    assert(!crate::exec_csr::spec_csr_supported(id));
}

} // verus!
