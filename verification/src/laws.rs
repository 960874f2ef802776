//! Proved laws of the instruction set: what ADD, ADC, CMP and JZ do for
//! every operand value, and the PUSH/POP round trip.

use vstd::prelude::*;

use crate::decode::{Opcode, mode_bit, opcode_of, reg_index};
use crate::error::Error;
use crate::semantics::{addr_ok, sem_execute};
use crate::state::MachineState;

verus! {

/// ADD: for all 8-bit values `a` (held in the destination register) and
/// `b` (the immediate operand), the destination receives `(a + b) mod 256`
/// and CARRY is set exactly when `a + b` exceeds 255. The ZERO flag is not
/// touched, and the program counter moves past the one operand byte.
pub proof fn lemma_add_immediate(s: MachineState, instruction: u8, a: u8, b: u8)
    requires
        s.wf(),
        opcode_of(instruction) == Opcode::Add,
        !mode_bit(instruction),
        reg_index(instruction) < 6,
        s.gr[reg_index(instruction) as int] == a,
        addr_ok(s.pc()),
        s.mem[s.pc() as int] == b,
    ensures
        sem_execute(s, instruction) matches Ok(t) && t.gr[reg_index(instruction) as int] == (a + b)
            % 256 && t.carry_flag() == (a + b > 255) && t.zero_flag() == s.zero_flag() && t.pc()
            == s.pc() + 1,
{
    let s1 = s.with_pc((s.pc() + 1) as u16);
    crate::state::lemma_flag_bit_update(
        s1.flags(),
        crate::state::CARRY_MASK,
        crate::state::ZERO_MASK,
        a + b > 255,
    );
}

/// ADC with CARRY set beforehand: the destination receives exactly one
/// more (wrapped to a byte) than the same ADD would store, and CARRY is
/// re-derived from the combined sum `a + b + 1`.
pub proof fn lemma_adc_with_carry_set(s: MachineState, instruction: u8, a: u8, b: u8)
    requires
        s.wf(),
        opcode_of(instruction) == Opcode::Adc,
        !mode_bit(instruction),
        reg_index(instruction) < 6,
        s.gr[reg_index(instruction) as int] == a,
        s.carry_flag(),
        addr_ok(s.pc()),
        s.mem[s.pc() as int] == b,
    ensures
        sem_execute(s, instruction) matches Ok(t) && t.gr[reg_index(instruction) as int] == (a + b
            + 1) % 256 && (a + b + 1) % 256 == ((a + b) % 256 + 1) % 256 && t.carry_flag() == (a
            + b + 1 > 255) && t.zero_flag() == s.zero_flag(),
{
    let s1 = s.with_pc((s.pc() + 1) as u16);
    crate::state::lemma_flag_bit_update(
        s1.flags(),
        crate::state::CARRY_MASK,
        crate::state::ZERO_MASK,
        a + b + 1 > 255,
    );
    assert((a + b + 1) % 256 == ((a + b) % 256 + 1) % 256) by {
        if a + b < 255 {
            assert((a + b + 1) % 256 == a + b + 1);
            assert((a + b) % 256 == a + b);
        } else if a + b == 255 {
            assert((a + b + 1) % 256 == 0);
        } else {
            assert((a + b) % 256 == a + b - 256);
            assert((a + b + 1) % 256 == a + b + 1 - 256);
        }
    }
}

/// CMP: no register is written, and ZERO is set exactly when the
/// destination register equals the operand (their 8-bit wrapping
/// difference is zero). CARRY is not touched.
pub proof fn lemma_cmp_immediate(s: MachineState, instruction: u8, a: u8, b: u8)
    requires
        s.wf(),
        opcode_of(instruction) == Opcode::Cmp,
        !mode_bit(instruction),
        reg_index(instruction) < 6,
        s.gr[reg_index(instruction) as int] == a,
        addr_ok(s.pc()),
        s.mem[s.pc() as int] == b,
    ensures
        sem_execute(s, instruction) matches Ok(t) && t.gr == s.gr && t.mem == s.mem
            && t.zero_flag() == (a == b) && t.carry_flag() == s.carry_flag() && t.pc() == s.pc()
            + 1,
{
    let s1 = s.with_pc((s.pc() + 1) as u16);
    assert(crate::semantics::sub_result(a, b) == 0 <==> a == b) by {
        if a == b {
            assert((a + 256 - b) % 256 == 0);
        } else {
            assert(0 < a + 256 - b < 512);
            assert(a + 256 - b != 256);
        }
    }
    crate::state::lemma_flag_bit_update(
        s1.flags(),
        crate::state::ZERO_MASK,
        crate::state::CARRY_MASK,
        crate::semantics::sub_result(a, b) == 0,
    );
}

/// JZ with an immediate address: when the ZERO flag is clear the program
/// counter is set to the little-endian address encoded in the two operand
/// bytes; when the flag is set the counter simply moves past those two
/// bytes and nothing else changes.
pub proof fn lemma_jz_immediate(s: MachineState, instruction: u8, low: u8, high: u8)
    requires
        s.wf(),
        opcode_of(instruction) == Opcode::Jz,
        !mode_bit(instruction),
        s.pc() + 1 < crate::state::MEM_SIZE,
        s.mem[s.pc() as int] == low,
        s.mem[s.pc() + 1] == high,
    ensures
        !s.zero_flag() ==> sem_execute(s, instruction) == Ok::<MachineState, Error>(
            s.with_pc((low + high * 256) as u16),
        ),
        s.zero_flag() ==> sem_execute(s, instruction) == Ok::<MachineState, Error>(
            s.with_pc((s.pc() + 2) as u16),
        ),
{
    let s1 = s.with_pc((s.pc() + 1) as u16);
    let s2 = s1.with_pc((s1.pc() + 1) as u16);
    if !s.zero_flag() {
        assert(s2.with_pc((low + high * 256) as u16) =~= s.with_pc((low + high * 256) as u16));
    } else {
        assert(s2 =~= s.with_pc((s.pc() + 2) as u16));
    }
}

/// PUSH then POP round-trip: pushing a register's value and then popping
/// into any register yields that same value, and the stack pointer returns
/// to what it was before the push.
pub proof fn lemma_push_pop_round_trip(
    s: MachineState,
    push_instruction: u8,
    pop_instruction: u8,
)
    requires
        s.wf(),
        opcode_of(push_instruction) == Opcode::Push,
        mode_bit(push_instruction),
        reg_index(push_instruction) < 6,
        opcode_of(pop_instruction) == Opcode::Pop,
        reg_index(pop_instruction) < 6,
        s.sp() >= 1,
    ensures
        sem_execute(s, push_instruction) matches Ok(s1) && sem_execute(s1, pop_instruction)
            matches Ok(t) && t.gr[reg_index(pop_instruction) as int] == s.gr[reg_index(
            push_instruction,
        ) as int] && t.sp() == s.sp(),
{
}

} // verus!
