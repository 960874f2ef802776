use emu8::computer::Computer;
use emu8::error::Error;

// Special register indices.
const PC: usize = 0;
const SP: usize = 1;
const FLAGS: usize = 2;

fn pc_of(c: &Computer) -> u16 {
    c.get_special(PC).unwrap()
}

fn flags_of(c: &Computer) -> u16 {
    c.get_special(FLAGS).unwrap()
}

#[test]
fn new_machine_is_zeroed() {
    let c = Computer::new();
    for i in 0..6 {
        assert_eq!(c.get_general(i).unwrap(), 0);
    }
    for i in 0..4 {
        assert_eq!(c.get_special(i).unwrap(), 0);
    }
    assert_eq!(c.memory.read(0).unwrap(), 0);
    assert_eq!(c.memory.read(0xFFFE).unwrap(), 0);
    assert!(!c.halted());
}

#[test]
fn nop_changes_nothing() {
    let mut c = Computer::new();
    c.execute_instruction(0x00).unwrap();
    assert_eq!(pc_of(&c), 0);
    assert_eq!(c.get_general(0).unwrap(), 0);
}

#[test]
fn mov_immediate_loads_value() {
    let mut c = Computer::new();
    c.memory.write(0, 0x2A).unwrap();
    c.execute_instruction(0x13).unwrap(); // MOV immediate into register 3
    assert_eq!(c.get_general(3).unwrap(), 0x2A);
    assert_eq!(pc_of(&c), 1);
}

#[test]
fn mov_register_direct_copies_register() {
    let mut c = Computer::new();
    c.set_general(2, 0x77).unwrap();
    c.memory.write(0, 0x02).unwrap(); // operand byte selects register 2
    c.execute_instruction(0x19).unwrap(); // MOV register-direct into register 1
    assert_eq!(c.get_general(1).unwrap(), 0x77);
    // The operand byte is still fetched, so the program counter advanced.
    assert_eq!(pc_of(&c), 1);
}

#[test]
fn ldr_immediate_address() {
    let mut c = Computer::new();
    c.memory.write(0, 0x34).unwrap(); // low byte of address
    c.memory.write(1, 0x12).unwrap(); // high byte of address
    c.memory.write(0x1234, 0x99).unwrap();
    c.execute_instruction(0x20).unwrap(); // LDR into register 0
    assert_eq!(c.get_general(0).unwrap(), 0x99);
    assert_eq!(pc_of(&c), 2);
}

#[test]
fn ldr_hl_mode() {
    let mut c = Computer::new();
    c.set_general(4, 0x34).unwrap(); // L
    c.set_general(5, 0x12).unwrap(); // H
    c.memory.write(0x1234, 0x5A).unwrap();
    c.execute_instruction(0x28).unwrap(); // LDR through HL into register 0
    assert_eq!(c.get_general(0).unwrap(), 0x5A);
    assert_eq!(pc_of(&c), 0); // no operand bytes consumed
}

#[test]
fn str_immediate_address() {
    let mut c = Computer::new();
    c.set_general(2, 0xAB).unwrap();
    c.memory.write(0, 0x00).unwrap();
    c.memory.write(1, 0x40).unwrap();
    c.execute_instruction(0x32).unwrap(); // STR register 2
    assert_eq!(c.memory.read(0x4000).unwrap(), 0xAB);
}

#[test]
fn str_hl_mode() {
    let mut c = Computer::new();
    c.set_general(1, 0xCD).unwrap();
    c.set_general(4, 0x10).unwrap();
    c.set_general(5, 0x20).unwrap();
    c.execute_instruction(0x39).unwrap(); // STR register 1 through HL
    assert_eq!(c.memory.read(0x2010).unwrap(), 0xCD);
}

#[test]
fn lhl_loads_low_then_high() {
    let mut c = Computer::new();
    c.memory.write(0, 0xEF).unwrap();
    c.memory.write(1, 0xBE).unwrap();
    c.execute_instruction(0x40).unwrap(); // LHL
    assert_eq!(c.get_general(4).unwrap(), 0xEF);
    assert_eq!(c.get_general(5).unwrap(), 0xBE);
    assert_eq!(pc_of(&c), 2);
}

#[test]
fn push_decrements_sp_then_writes() {
    let mut c = Computer::new();
    c.set_special(SP, 0x1000).unwrap();
    c.set_general(0, 0x42).unwrap();
    c.execute_instruction(0x58).unwrap(); // PUSH register 0
    assert_eq!(c.get_special(SP).unwrap(), 0x0FFF);
    assert_eq!(c.memory.read(0x0FFF).unwrap(), 0x42);
}

#[test]
fn push_immediate_value() {
    let mut c = Computer::new();
    c.set_special(SP, 0x1000).unwrap();
    c.memory.write(0, 0x66).unwrap();
    c.execute_instruction(0x50).unwrap(); // PUSH immediate
    assert_eq!(c.get_special(SP).unwrap(), 0x0FFF);
    assert_eq!(c.memory.read(0x0FFF).unwrap(), 0x66);
    assert_eq!(pc_of(&c), 1);
}

#[test]
fn pop_reads_then_increments_sp() {
    let mut c = Computer::new();
    c.set_special(SP, 0x0FFF).unwrap();
    c.memory.write(0x0FFF, 0x42).unwrap();
    c.execute_instruction(0x63).unwrap(); // POP into register 3
    assert_eq!(c.get_general(3).unwrap(), 0x42);
    assert_eq!(c.get_special(SP).unwrap(), 0x1000);
}

#[test]
fn jmp_immediate_sets_pc() {
    let mut c = Computer::new();
    c.memory.write(0, 0x00).unwrap();
    c.memory.write(1, 0x80).unwrap();
    c.execute_instruction(0x70).unwrap(); // JMP immediate
    assert_eq!(pc_of(&c), 0x8000);
}

#[test]
fn jmp_hl_sets_pc() {
    let mut c = Computer::new();
    c.set_general(4, 0x21).unwrap();
    c.set_general(5, 0x43).unwrap();
    c.execute_instruction(0x78).unwrap(); // JMP through HL
    assert_eq!(pc_of(&c), 0x4321);
}

#[test]
fn sub_wraps_and_leaves_flags() {
    let mut c = Computer::new();
    c.set_general(0, 0x05).unwrap();
    c.memory.write(0, 0x07).unwrap();
    c.execute_instruction(0xC0).unwrap(); // SUB immediate 7 from register 0
    assert_eq!(c.get_general(0).unwrap(), 0xFE); // 5 - 7 wraps
    assert_eq!(flags_of(&c), 0); // SUB updates no flags
}

#[test]
fn nand_exact_value() {
    let mut c = Computer::new();
    c.set_general(0, 0b1100_1010).unwrap();
    c.memory.write(0, 0b1010_1010).unwrap();
    c.execute_instruction(0xD0).unwrap(); // NAND immediate
    assert_eq!(c.get_general(0).unwrap(), !(0b1100_1010u8 & 0b1010_1010u8));
}

#[test]
fn nor_exact_value() {
    let mut c = Computer::new();
    c.set_general(0, 0b1100_0000).unwrap();
    c.memory.write(0, 0b0000_0101).unwrap();
    c.execute_instruction(0xE0).unwrap(); // NOR immediate
    assert_eq!(c.get_general(0).unwrap(), !(0b1100_0000u8 | 0b0000_0101u8));
}

#[test]
fn hlt_sets_halt_bit_only() {
    let mut c = Computer::new();
    c.execute_instruction(0xF0).unwrap();
    assert!(c.halted());
    assert_eq!(pc_of(&c), 0);
    assert_eq!(flags_of(&c), 0);
}

#[test]
fn step_fetches_and_executes() {
    let mut c = Computer::new();
    c.load(0, vec![0x12, 0x55]).unwrap(); // MOV immediate 0x55 into register 2
    c.step().unwrap();
    assert_eq!(c.get_general(2).unwrap(), 0x55);
    assert_eq!(pc_of(&c), 2);
}

#[test]
fn step_on_halted_machine_does_nothing() {
    let mut c = Computer::new();
    c.load(0, vec![0x12, 0x55]).unwrap();
    c.execute_instruction(0xF0).unwrap(); // halt first
    c.step().unwrap();
    assert_eq!(c.get_general(2).unwrap(), 0);
    assert_eq!(pc_of(&c), 0);
}

#[test]
fn load_writes_bytes_in_order() {
    let mut c = Computer::new();
    c.load(0x0100, vec![1, 2, 3]).unwrap();
    assert_eq!(c.memory.read(0x0100).unwrap(), 1);
    assert_eq!(c.memory.read(0x0101).unwrap(), 2);
    assert_eq!(c.memory.read(0x0102).unwrap(), 3);
    assert_eq!(c.memory.read(0x0103).unwrap(), 0);
}

#[test]
fn load_empty_program_changes_nothing() {
    let mut c = Computer::new();
    c.load(0x0100, vec![]).unwrap();
    assert_eq!(c.memory.read(0x0100).unwrap(), 0);
}

#[test]
fn load_past_end_stores_prefix_and_fails() {
    let mut c = Computer::new();
    let r = c.load(0xFFFD, vec![7, 8, 9]);
    assert_eq!(r, Err(Error::OutOfBounds));
    assert_eq!(c.memory.read(0xFFFD).unwrap(), 7);
    assert_eq!(c.memory.read(0xFFFE).unwrap(), 8);
}

#[test]
fn memory_write_and_read_round_trip() {
    let mut m = emu8::computer::Memory::new();
    m.write(0x00FF, 0xA5).unwrap();
    assert_eq!(m.read(0x00FF).unwrap(), 0xA5);
}

#[test]
fn flag_getters_follow_flag_bits() {
    let mut c = Computer::new();
    assert!(!c.zero_flag());
    assert!(!c.carry_flag());
    c.set_special(FLAGS, 0x1).unwrap();
    assert!(c.zero_flag());
    assert!(!c.carry_flag());
    c.set_special(FLAGS, 0x2).unwrap();
    assert!(!c.zero_flag());
    assert!(c.carry_flag());
}

#[test]
fn cpu_hl_combines_low_and_high() {
    let mut c = Computer::new();
    c.set_general(4, 0xCD).unwrap();
    c.set_general(5, 0xAB).unwrap();
    assert_eq!(c.cpu.hl(), 0xABCD);
}
