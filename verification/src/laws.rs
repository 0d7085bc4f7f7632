//! Machine-wide laws of the processor, stated over the ghost model
//! [`State`] and the transition function [`spec_step`] and proved once for
//! every machine state they speak of.

use vstd::prelude::*;
use crate::cpu::{
    CpuError, Opcode, State, high_byte, low_byte, spec_decode, spec_step, SP_BOTTOM, STACK_TOP,
};

verus! {

/// Writing a register through a 6xnn instruction and reading it back gives
/// exactly nn, for every register index x and every immediate nn, and the
/// program counter advances by exactly 2.
pub proof fn lemma_set_vx_then_read(s: State, b: u8)
    requires
        s.wf(),
        s.pc_ok(),
        s.insn_hi() >> 4 == 0x6,
    ensures
        spec_step(s, b) is Ok,
        spec_step(s, b)->Ok_0.v[s.x()] == s.nn(),
        spec_step(s, b)->Ok_0.pc == s.pc + 2,
{
    let hi = s.insn_hi();
    assert(hi != 0x00 && hi & 0xf < 16) by (bit_vector)
        requires
            hi >> 4 == 0x6,
    ;
}

/// A call followed by the return executed at its target restores the
/// program counter to the instruction after the call and the stack pointer
/// to its pre-call value, for every 2nnn instruction whose target holds
/// 00EE and lies below the reserved stack region.
pub proof fn lemma_call_ret_round_trip(s: State, b1: u8, b2: u8)
    requires
        s.wf(),
        s.pc_ok(),
        s.sp_ok(),
        s.sp + 3 <= STACK_TOP,
        s.insn_hi() >> 4 == 0x2,
        s.nnn() + 1 < SP_BOTTOM,
        s.mem[s.nnn()] == 0x00,
        s.mem[s.nnn() + 1] == 0xee,
    ensures
        spec_step(s, b1) is Ok,
        spec_step(spec_step(s, b1)->Ok_0, b2) is Ok,
        spec_step(spec_step(s, b1)->Ok_0, b2)->Ok_0.pc == s.pc + 2,
        spec_step(spec_step(s, b1)->Ok_0, b2)->Ok_0.sp == s.sp,
{
    let hi = s.insn_hi();
    assert(hi != 0x00) by (bit_vector)
        requires
            hi >> 4 == 0x2,
    ;
    let t1 = spec_step(s, b1)->Ok_0;
    // The pushed return address does not clobber the 00EE at the target,
    // which sits below the reserved stack region.
    assert(t1.mem[s.nnn()] == 0x00);
    assert(t1.mem[s.nnn() + 1] == 0xee);
    // The two bytes popped from the stack reassemble the return address.
    let n = s.pc + 2;
    assert(high_byte(n) * 256 + low_byte(n) == n) by {
        assert(n / 256 * 256 + n % 256 == n);
        assert(n / 256 < 256);
    };
    assert(t1.tos16() == n);
}

/// A 3xnn instruction advances the program counter by exactly 4 when
/// v[x] == nn holds, and by exactly 2 otherwise.
pub proof fn lemma_skip_if_vx_eq_nn_pc(s: State, b: u8)
    requires
        s.wf(),
        s.pc_ok(),
        s.insn_hi() >> 4 == 0x3,
    ensures
        spec_step(s, b) is Ok,
        spec_step(s, b)->Ok_0.pc == if s.vx() == s.nn() {
            s.pc + 4
        } else {
            s.pc + 2
        },
{
    let hi = s.insn_hi();
    assert(hi != 0x00) by (bit_vector)
        requires
            hi >> 4 == 0x3,
    ;
}

/// A 4xnn instruction advances the program counter by exactly 4 when
/// v[x] != nn holds, and by exactly 2 otherwise.
pub proof fn lemma_skip_if_vx_ne_nn_pc(s: State, b: u8)
    requires
        s.wf(),
        s.pc_ok(),
        s.insn_hi() >> 4 == 0x4,
    ensures
        spec_step(s, b) is Ok,
        spec_step(s, b)->Ok_0.pc == if s.vx() != s.nn() {
            s.pc + 4
        } else {
            s.pc + 2
        },
{
    let hi = s.insn_hi();
    assert(hi != 0x00) by (bit_vector)
        requires
            hi >> 4 == 0x4,
    ;
}

/// A 5xy0 instruction advances the program counter by exactly 4 when
/// v[x] == v[y] holds, and by exactly 2 otherwise.
pub proof fn lemma_skip_if_vx_eq_vy_pc(s: State, b: u8)
    requires
        s.wf(),
        s.pc_ok(),
        s.insn_hi() >> 4 == 0x5,
    ensures
        spec_step(s, b) is Ok,
        spec_step(s, b)->Ok_0.pc == if s.vx() == s.vy() {
            s.pc + 4
        } else {
            s.pc + 2
        },
{
    let hi = s.insn_hi();
    assert(hi != 0x00) by (bit_vector)
        requires
            hi >> 4 == 0x5,
    ;
}

/// A 9xy0 instruction advances the program counter by exactly 4 when
/// v[x] != v[y] holds, and by exactly 2 otherwise.
pub proof fn lemma_skip_if_vx_ne_vy_pc(s: State, b: u8)
    requires
        s.wf(),
        s.pc_ok(),
        s.insn_hi() >> 4 == 0x9,
    ensures
        spec_step(s, b) is Ok,
        spec_step(s, b)->Ok_0.pc == if s.vx() != s.vy() {
            s.pc + 4
        } else {
            s.pc + 2
        },
{
    let hi = s.insn_hi();
    assert(hi != 0x00) by (bit_vector)
        requires
            hi >> 4 == 0x9,
    ;
}

/// An opcode whose leading-or-trailing nibble combination is unassigned
/// yields a decode error, never a silent no-op.
pub proof fn lemma_unassigned_opcode_is_decode_error(s: State, b: u8)
    requires
        s.wf(),
        s.pc_ok(),
        spec_decode(s.insn_hi(), s.insn_lo()) is None,
    ensures
        spec_step(s, b) == Err::<State, CpuError>(CpuError::Decode),
{
}

/// The unassigned combinations, spelled out: everything in family 0 except
/// the return opcode 00EE, the whole families D, E and F, and the
/// arithmetic/logic family 8 with a trailing nibble above 7 other than E.
pub proof fn lemma_unassigned_nibbles(hi: u8, lo: u8)
    ensures
        spec_decode(hi, lo) is None <==> ({
            let family = hi >> 4;
            let tail = lo & 0xf;
            &&& !(hi == 0x00 && lo == 0xee)
            &&& (family == 0x0 || family == 0x8 || family == 0xd || family == 0xe || family
                == 0xf)
            &&& (family == 0x8 ==> tail > 0x7 && tail != 0xe)
        }),
{
    assert(hi >> 4 <= 0xf) by (bit_vector);
}

/// Every successful step keeps the machine well formed: the memory and the
/// register file keep their sizes and the stack pointer stays inside the
/// reserved stack region.
pub proof fn lemma_step_preserves_invariant(s: State, b: u8, t: State)
    requires
        s.wf(),
        s.sp_ok(),
        spec_step(s, b) == Ok::<State, CpuError>(t),
    ensures
        t.wf(),
        t.sp_ok(),
{
    let hi = s.insn_hi();
    assert(hi & 0xf < 16) by (bit_vector);
}

/// The random source is the only non-deterministic input: on any
/// instruction other than Cxnn the step does not depend on the byte the
/// source supplies.
pub proof fn lemma_step_deterministic_without_random(s: State, b1: u8, b2: u8)
    requires
        spec_decode(s.insn_hi(), s.insn_lo()) != Some(Opcode::RandAndNn),
    ensures
        spec_step(s, b1) == spec_step(s, b2),
{
}

} // verus!
