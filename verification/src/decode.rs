//! Instruction decoding: the opcode enumeration, the three fields of an
//! instruction byte, and the proof that decoding inverts encoding.

use vstd::prelude::*;

verus! {

/// The sixteen operations of the instruction set, one per value of the
/// 4-bit opcode field (the high nibble of an instruction byte), in opcode
/// order starting at zero.
#[derive(Clone, Copy, Debug, PartialEq, Eq, Structural)]
pub enum Opcode {
    Nop,
    Mov,
    Ldr,
    Str,
    Lhl,
    Push,
    Pop,
    Jmp,
    Jz,
    Add,
    Adc,
    Cmp,
    Sub,
    Nand,
    Nor,
    Hlt,
}

/// The operation selected by a 4-bit opcode value.
pub open spec fn opcode_from_nibble(n: u8) -> Opcode {
    match n {
        0u8 => Opcode::Nop,
        1u8 => Opcode::Mov,
        2u8 => Opcode::Ldr,
        3u8 => Opcode::Str,
        4u8 => Opcode::Lhl,
        5u8 => Opcode::Push,
        6u8 => Opcode::Pop,
        7u8 => Opcode::Jmp,
        8u8 => Opcode::Jz,
        9u8 => Opcode::Add,
        10u8 => Opcode::Adc,
        11u8 => Opcode::Cmp,
        12u8 => Opcode::Sub,
        13u8 => Opcode::Nand,
        14u8 => Opcode::Nor,
        _ => Opcode::Hlt,
    }
}

/// The 4-bit opcode value of an operation; inverse of
/// [`opcode_from_nibble`] on values below sixteen.
pub open spec fn opcode_nibble(op: Opcode) -> u8 {
    match op {
        Opcode::Nop => 0u8,
        Opcode::Mov => 1u8,
        Opcode::Ldr => 2u8,
        Opcode::Str => 3u8,
        Opcode::Lhl => 4u8,
        Opcode::Push => 5u8,
        Opcode::Pop => 6u8,
        Opcode::Jmp => 7u8,
        Opcode::Jz => 8u8,
        Opcode::Add => 9u8,
        Opcode::Adc => 10u8,
        Opcode::Cmp => 11u8,
        Opcode::Sub => 12u8,
        Opcode::Nand => 13u8,
        Opcode::Nor => 14u8,
        Opcode::Hlt => 15u8,
    }
}

/// The operation encoded in the high nibble of an instruction byte.
pub open spec fn opcode_of(byte: u8) -> Opcode {
    opcode_from_nibble(byte >> 4)
}

/// The addressing-mode bit of an instruction byte (bit 3). When set, an
/// operand that would otherwise come from memory is read from a general
/// register instead.
pub open spec fn mode_bit(byte: u8) -> bool {
    byte & 0x8 != 0
}

/// The register field of an instruction byte (its low three bits).
pub open spec fn reg_index(byte: u8) -> u8 {
    byte & 0x7
}

/// The instruction byte assembled from a 4-bit opcode value, the
/// addressing-mode bit, and a 3-bit register index.
pub open spec fn encode_instruction(op: u8, mode: bool, reg: u8) -> u8 {
    (op << 4) | (if mode {
        8u8
    } else {
        0u8
    }) | reg
}

/// Decoding is the exact inverse of encoding: an instruction byte built
/// from any 4-bit opcode value, mode bit, and 3-bit register index decodes
/// back to exactly those three fields.
pub proof fn lemma_decode_inverts_encode(op: u8, mode: bool, reg: u8)
    requires
        op <= 0xF,
        reg <= 0x7,
    ensures
        encode_instruction(op, mode, reg) >> 4 == op,
        mode_bit(encode_instruction(op, mode, reg)) == mode,
        reg_index(encode_instruction(op, mode, reg)) == reg,
        opcode_of(encode_instruction(op, mode, reg)) == opcode_from_nibble(op),
{
    if mode {
        assert(((op << 4) | 8u8 | reg) >> 4 == op && (((op << 4) | 8u8 | reg) & 0x8 != 0)
            && ((op << 4) | 8u8 | reg) & 0x7 == reg) by (bit_vector)
            requires
                op <= 0xF,
                reg <= 0x7,
        ;
    } else {
        assert(((op << 4) | 0u8 | reg) >> 4 == op && (((op << 4) | 0u8 | reg) & 0x8 == 0)
            && ((op << 4) | 0u8 | reg) & 0x7 == reg) by (bit_vector)
            requires
                op <= 0xF,
                reg <= 0x7,
        ;
    }
}

/// The two nibble maps are mutually inverse bijections between the sixteen
/// operations and the 4-bit opcode values.
pub proof fn lemma_opcode_nibble_bijection(n: u8, op: Opcode)
    requires
        n <= 0xF,
    ensures
        opcode_nibble(opcode_from_nibble(n)) == n,
        opcode_from_nibble(opcode_nibble(op)) == op,
{
}

/// Splits an instruction byte into the operation selected by its high
/// nibble, its addressing-mode bit, and its register field.
pub fn decode(byte: u8) -> (r: (Opcode, bool, u8))
    ensures
        r.0 == opcode_of(byte),
        r.1 == mode_bit(byte),
        r.2 == reg_index(byte),
        r.2 <= 0x7,
{
    let nibble = byte >> 4;
    let op = match nibble {
        0u8 => Opcode::Nop,
        1u8 => Opcode::Mov,
        2u8 => Opcode::Ldr,
        3u8 => Opcode::Str,
        4u8 => Opcode::Lhl,
        5u8 => Opcode::Push,
        6u8 => Opcode::Pop,
        7u8 => Opcode::Jmp,
        8u8 => Opcode::Jz,
        9u8 => Opcode::Add,
        10u8 => Opcode::Adc,
        11u8 => Opcode::Cmp,
        12u8 => Opcode::Sub,
        13u8 => Opcode::Nand,
        14u8 => Opcode::Nor,
        _ => Opcode::Hlt,
    };
    proof {
        assert(byte & 0x7 <= 0x7) by (bit_vector);
    }
    (op, byte & 0x8 != 0, byte & 0x7)
}

} // verus!
