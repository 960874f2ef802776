use emu8::computer::Computer;
use emu8::error::Error;
use emu8::literal::parse_program_line;

#[test]
fn dump_of_fresh_machine() {
    let c = Computer::new();
    let expected = "PC: 0x0000 SP: 0x0000\n\n\
                    A: 0x00\nB: 0x00\nC: 0x00\nD: 0x00\nL: 0x00\nH: 0x00\n\n\
                    ZERO: false\nCARRY: false\n\nHALT: false\n";
    assert_eq!(c.dump(), expected);
}

#[test]
fn dump_shows_registers_flags_and_halt() {
    let mut c = Computer::new();
    c.set_special(0, 0x1234).unwrap(); // PC
    c.set_special(1, 0xBEEF).unwrap(); // SP
    c.set_special(2, 0x3).unwrap(); // ZERO and CARRY set
    c.set_general(0, 0xAB).unwrap();
    c.set_general(5, 0x7F).unwrap();
    c.execute_instruction(0xF0).unwrap(); // set HALT
    let expected = "PC: 0x1234 SP: 0xBEEF\n\n\
                    A: 0xAB\nB: 0x00\nC: 0x00\nD: 0x00\nL: 0x00\nH: 0x7F\n\n\
                    ZERO: true\nCARRY: true\n\nHALT: true\n";
    assert_eq!(c.dump(), expected);
}

#[test]
fn mem_dump_renders_requested_range() {
    let mut c = Computer::new();
    c.load(0x10, vec![0x01, 0x02, 0xFF]).unwrap();
    assert_eq!(c.mem_dump(0x10, 3).unwrap(), "0x01 0x02 0xFF \n");
}

#[test]
fn mem_dump_of_zero_bytes_is_bare_newline() {
    let c = Computer::new();
    assert_eq!(c.mem_dump(0, 0).unwrap(), "\n");
}

#[test]
fn mem_dump_past_end_is_out_of_bounds() {
    let c = Computer::new();
    assert_eq!(c.mem_dump(0xFFFE, 2), Err(Error::OutOfBounds));
    assert!(c.mem_dump(0xFFFE, 1).is_ok());
}

#[test]
fn parse_decimal_line() {
    assert_eq!(parse_program_line(b"123"), Ok(Some(123)));
    assert_eq!(parse_program_line(b"0"), Ok(Some(0)));
    assert_eq!(parse_program_line(b"255"), Ok(Some(255)));
}

#[test]
fn parse_hex_line() {
    assert_eq!(parse_program_line(b"0x1F"), Ok(Some(0x1F)));
    assert_eq!(parse_program_line(b"0X2a"), Ok(Some(0x2A)));
    assert_eq!(parse_program_line(b"0xff"), Ok(Some(0xFF)));
}

#[test]
fn parse_binary_line() {
    assert_eq!(parse_program_line(b"0b1010"), Ok(Some(10)));
    assert_eq!(parse_program_line(b"0b0"), Ok(Some(0)));
}

#[test]
fn parse_trims_whitespace_and_comment() {
    assert_eq!(parse_program_line(b"  0x10  ; opcode byte"), Ok(Some(0x10)));
    assert_eq!(parse_program_line(b"\t7\r"), Ok(Some(7)));
}

#[test]
fn parse_blank_lines_carry_no_byte() {
    assert_eq!(parse_program_line(b""), Ok(None));
    assert_eq!(parse_program_line(b"   "), Ok(None));
    assert_eq!(parse_program_line(b"; comment only"), Ok(None));
}

#[test]
fn parse_accepts_one_leading_plus() {
    assert_eq!(parse_program_line(b"+7"), Ok(Some(7)));
    assert_eq!(parse_program_line(b"0x+1A"), Ok(Some(0x1A)));
    assert_eq!(parse_program_line(b"++7"), Err(Error::MalformedOperand));
}

#[test]
fn parse_rejects_malformed_operands() {
    assert_eq!(parse_program_line(b"256"), Err(Error::MalformedOperand));
    assert_eq!(parse_program_line(b"0xGG"), Err(Error::MalformedOperand));
    assert_eq!(parse_program_line(b"0x"), Err(Error::MalformedOperand));
    assert_eq!(parse_program_line(b"+"), Err(Error::MalformedOperand));
    assert_eq!(parse_program_line(b"12 34"), Err(Error::MalformedOperand));
    assert_eq!(parse_program_line(b"0b2"), Err(Error::MalformedOperand));
    assert_eq!(parse_program_line(b"999999999999"), Err(Error::MalformedOperand));
}
