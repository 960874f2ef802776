use emu8::computer::Computer;
use emu8::decode::{Opcode, decode};

const SP: usize = 1;
const FLAGS: usize = 2;

const CARRY: u16 = 0x2;
const ZERO: u16 = 0x1;

fn opcode_table() -> [Opcode; 16] {
    [
        Opcode::Nop,
        Opcode::Mov,
        Opcode::Ldr,
        Opcode::Str,
        Opcode::Lhl,
        Opcode::Push,
        Opcode::Pop,
        Opcode::Jmp,
        Opcode::Jz,
        Opcode::Add,
        Opcode::Adc,
        Opcode::Cmp,
        Opcode::Sub,
        Opcode::Nand,
        Opcode::Nor,
        Opcode::Hlt,
    ]
}

#[test]
fn decode_recovers_every_encoding() {
    let table = opcode_table();
    for opcode in 0u8..16 {
        for mode in [false, true] {
            for reg in 0u8..8 {
                let byte = (opcode << 4) | (if mode { 8 } else { 0 }) | reg;
                let (op, m, r) = decode(byte);
                assert_eq!(op, table[opcode as usize]);
                assert_eq!(m, mode);
                assert_eq!(r, reg);
            }
        }
    }
}

#[test]
fn add_sets_carry_exactly_on_overflow() {
    // Exhaustive over all 8-bit pairs: ADD stores (a + b) mod 256 and sets
    // CARRY exactly when a + b > 255.
    let mut c = Computer::new();
    for a in 0u16..256 {
        for b in 0u16..256 {
            c.set_special(0, 0).unwrap();
            c.set_special(FLAGS, 0).unwrap();
            c.set_general(0, a as u8).unwrap();
            c.memory.write(0, b as u8).unwrap();
            c.execute_instruction(0x90).unwrap(); // ADD immediate into register 0
            assert_eq!(c.get_general(0).unwrap() as u16, (a + b) % 256);
            let carry_set = c.get_special(FLAGS).unwrap() & CARRY != 0;
            assert_eq!(carry_set, a + b > 255);
        }
    }
}

#[test]
fn adc_with_carry_adds_one_more_than_add() {
    for (a, b) in [(10u16, 20u16), (0xFF, 0x00), (0x80, 0x80), (0xFF, 0xFF), (0x7F, 0x80)] {
        // Plain ADD first.
        let mut plain = Computer::new();
        plain.set_general(0, a as u8).unwrap();
        plain.memory.write(0, b as u8).unwrap();
        plain.execute_instruction(0x90).unwrap();
        let add_result = plain.get_general(0).unwrap();

        // ADC with CARRY set beforehand.
        let mut carried = Computer::new();
        carried.set_general(0, a as u8).unwrap();
        carried.set_special(FLAGS, CARRY).unwrap();
        carried.memory.write(0, b as u8).unwrap();
        carried.execute_instruction(0xA0).unwrap();
        let adc_result = carried.get_general(0).unwrap();

        assert_eq!(adc_result, add_result.wrapping_add(1));
        assert_eq!(adc_result as u16, (a + b + 1) % 256);
        let carry_set = carried.get_special(FLAGS).unwrap() & CARRY != 0;
        assert_eq!(carry_set, a + b + 1 > 255);
    }
}

#[test]
fn adc_without_carry_equals_add() {
    let mut c = Computer::new();
    c.set_general(0, 0x30).unwrap();
    c.memory.write(0, 0x12).unwrap();
    c.execute_instruction(0xA0).unwrap(); // ADC, carry clear
    assert_eq!(c.get_general(0).unwrap(), 0x42);
    assert_eq!(c.get_special(FLAGS).unwrap() & CARRY, 0);
}

#[test]
fn cmp_sets_zero_iff_equal_and_writes_no_register() {
    for (a, b) in [(5u8, 5u8), (5, 6), (0, 0xFF), (0xFF, 0xFF), (0, 0)] {
        let mut c = Computer::new();
        c.set_general(2, a).unwrap();
        c.memory.write(0, b).unwrap();
        c.execute_instruction(0xB2).unwrap(); // CMP immediate against register 2
        assert_eq!(c.get_general(2).unwrap(), a); // destination untouched
        let zero_set = c.get_special(FLAGS).unwrap() & ZERO != 0;
        assert_eq!(zero_set, a == b);
    }
}

#[test]
fn jz_jumps_when_zero_clear() {
    let mut c = Computer::new();
    c.load(0, vec![0x80, 0x34, 0x12]).unwrap(); // JZ immediate 0x1234
    c.step().unwrap();
    assert_eq!(c.get_special(0).unwrap(), 0x1234);
}

#[test]
fn jz_skips_operands_when_zero_set() {
    let mut c = Computer::new();
    c.set_special(FLAGS, ZERO).unwrap();
    c.load(0, vec![0x80, 0x34, 0x12]).unwrap();
    c.step().unwrap();
    // The branch is not taken; the counter has moved past the opcode byte
    // and both address bytes.
    assert_eq!(c.get_special(0).unwrap(), 3);
}

#[test]
fn push_pop_round_trip_restores_sp() {
    let mut c = Computer::new();
    c.set_special(SP, 0x2000).unwrap();
    c.set_general(0, 0x42).unwrap();
    c.execute_instruction(0x58).unwrap(); // PUSH register 0
    c.execute_instruction(0x63).unwrap(); // POP into register 3
    assert_eq!(c.get_general(3).unwrap(), 0x42);
    assert_eq!(c.get_special(SP).unwrap(), 0x2000);
}

#[test]
fn hlt_stops_run_before_later_bytes() {
    let mut c = Computer::new();
    // HLT first; the MOV that follows must never execute.
    c.load(0, vec![0xF0, 0x10, 0x99]).unwrap();
    c.run().unwrap();
    assert!(c.halted());
    assert_eq!(c.get_special(0).unwrap(), 1); // stopped right after HLT
    assert_eq!(c.get_general(0).unwrap(), 0);
}

#[test]
fn run_executes_mov_then_halts() {
    let mut c = Computer::new();
    c.load(0, vec![0x10, 0x06, 0xF0]).unwrap();
    c.run().unwrap();
    assert_eq!(c.get_general(0).unwrap(), 0x06);
    assert!(c.halted());
}

#[test]
fn run_add_immediate_from_zero() {
    let mut c = Computer::new();
    c.load(0, vec![0x91, 0x01, 0xF0]).unwrap();
    c.run().unwrap();
    assert_eq!(c.get_general(1).unwrap(), 1);
    assert_eq!(c.get_special(FLAGS).unwrap() & CARRY, 0);
    assert!(c.halted());
}

#[test]
fn run_add_immediate_wraps_with_carry() {
    let mut c = Computer::new();
    c.set_general(1, 0xFF).unwrap();
    c.load(0, vec![0x91, 0x01, 0xF0]).unwrap();
    c.run().unwrap();
    assert_eq!(c.get_general(1).unwrap(), 0x00);
    assert!(c.get_special(FLAGS).unwrap() & CARRY != 0);
}

#[test]
fn run_clears_stale_halt_bit_first() {
    let mut c = Computer::new();
    c.execute_instruction(0xF0).unwrap(); // leave HALT set
    c.load(0, vec![0x10, 0x07, 0xF0]).unwrap();
    c.run().unwrap();
    assert_eq!(c.get_general(0).unwrap(), 0x07);
    assert!(c.halted());
}
