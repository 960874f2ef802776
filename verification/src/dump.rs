//! Human-readable renderings of the machine state: the register and
//! flag dump and the memory-range dump, with their exact character
//! sequences specified.

use vstd::prelude::*;

use crate::computer::Computer;
use crate::error::Error;
use crate::state::{CARRY_MASK, HALT_MASK, MEM_SIZE, MachineState, ZERO_MASK};

verus! {

/// The uppercase hexadecimal digit for a value below sixteen.
pub open spec fn hex_digit_char(n: u8) -> char {
    match n {
        0u8 => '0',
        1u8 => '1',
        2u8 => '2',
        3u8 => '3',
        4u8 => '4',
        5u8 => '5',
        6u8 => '6',
        7u8 => '7',
        8u8 => '8',
        9u8 => '9',
        10u8 => 'A',
        11u8 => 'B',
        12u8 => 'C',
        13u8 => 'D',
        14u8 => 'E',
        15u8 => 'F',
        _ => '?',
    }
}

/// A byte rendered as `0x` followed by two uppercase hexadecimal digits.
pub open spec fn byte_hex_chars(v: u8) -> Seq<char> {
    seq!['0', 'x', hex_digit_char(v >> 4), hex_digit_char(v & 0xF)]
}

/// A 16-bit word rendered as `0x` followed by four uppercase hexadecimal
/// digits.
pub open spec fn word_hex_chars(v: u16) -> Seq<char> {
    seq![
        '0',
        'x',
        hex_digit_char((v >> 12) as u8),
        hex_digit_char(((v >> 8) & 0xF) as u8),
        hex_digit_char(((v >> 4) & 0xF) as u8),
        hex_digit_char((v & 0xF) as u8),
    ]
}

/// `true` or `false`, as written in the state dump.
pub open spec fn bool_chars(b: bool) -> Seq<char> {
    if b {
        "true"@
    } else {
        "false"@
    }
}

/// The complete human-readable state dump: the program counter and stack
/// pointer, then each general register by name, then the two flag bits,
/// then the halt bit, one line each with a blank line between the groups.
pub open spec fn dump_chars(s: MachineState) -> Seq<char> {
    "PC: "@ + word_hex_chars(s.pc()) + " SP: "@ + word_hex_chars(s.sp()) + "\n\n"@ + "A: "@
        + byte_hex_chars(s.gr[0]) + "\n"@ + "B: "@ + byte_hex_chars(s.gr[1]) + "\n"@ + "C: "@
        + byte_hex_chars(s.gr[2]) + "\n"@ + "D: "@ + byte_hex_chars(s.gr[3]) + "\n"@ + "L: "@
        + byte_hex_chars(s.gr[4]) + "\n"@ + "H: "@ + byte_hex_chars(s.gr[5]) + "\n\n"@ + "ZERO: "@
        + bool_chars(s.flags() & ZERO_MASK != 0) + "\n"@ + "CARRY: "@ + bool_chars(
        s.flags() & CARRY_MASK != 0,
    ) + "\n\n"@ + "HALT: "@ + bool_chars(s.status() & HALT_MASK != 0) + "\n"@
}

/// The memory-range dump body: each of the `count` bytes starting at
/// `start`, rendered in hexadecimal and followed by one space.
pub open spec fn mem_bytes_chars(mem: Seq<u8>, start: int, count: int) -> Seq<char>
    decreases count,
{
    if count <= 0 {
        Seq::empty()
    } else {
        mem_bytes_chars(mem, start, count - 1) + byte_hex_chars(mem[start + count - 1]) + " "@
    }
}

/// The uppercase hexadecimal digit for a value below sixteen.
fn hex_digit_str(n: u8) -> (d: &'static str)
    requires
        n < 16,
    ensures
        d@ == seq![hex_digit_char(n)],
{
    match n {
        0u8 => {
            proof {
                reveal_strlit("0");
            }
            "0"
        },
        1u8 => {
            proof {
                reveal_strlit("1");
            }
            "1"
        },
        2u8 => {
            proof {
                reveal_strlit("2");
            }
            "2"
        },
        3u8 => {
            proof {
                reveal_strlit("3");
            }
            "3"
        },
        4u8 => {
            proof {
                reveal_strlit("4");
            }
            "4"
        },
        5u8 => {
            proof {
                reveal_strlit("5");
            }
            "5"
        },
        6u8 => {
            proof {
                reveal_strlit("6");
            }
            "6"
        },
        7u8 => {
            proof {
                reveal_strlit("7");
            }
            "7"
        },
        8u8 => {
            proof {
                reveal_strlit("8");
            }
            "8"
        },
        9u8 => {
            proof {
                reveal_strlit("9");
            }
            "9"
        },
        10u8 => {
            proof {
                reveal_strlit("A");
            }
            "A"
        },
        11u8 => {
            proof {
                reveal_strlit("B");
            }
            "B"
        },
        12u8 => {
            proof {
                reveal_strlit("C");
            }
            "C"
        },
        13u8 => {
            proof {
                reveal_strlit("D");
            }
            "D"
        },
        14u8 => {
            proof {
                reveal_strlit("E");
            }
            "E"
        },
        _ => {
            proof {
                reveal_strlit("F");
            }
            "F"
        },
    }
}

/// Appends a byte in `0x##` form.
fn push_byte_hex(out: &mut String, v: u8)
    ensures
        final(out)@ == old(out)@ + byte_hex_chars(v),
{
    proof {
        assert(v >> 4 < 16 && v & 0xF < 16) by (bit_vector);
        reveal_strlit("0x");
    }
    out.append("0x");
    out.append(hex_digit_str(v >> 4));
    out.append(hex_digit_str(v & 0xF));
    proof {
        assert(out@ =~= old(out)@ + byte_hex_chars(v));
    }
}

/// Appends a 16-bit word in `0x####` form.
fn push_word_hex(out: &mut String, v: u16)
    ensures
        final(out)@ == old(out)@ + word_hex_chars(v),
{
    proof {
        assert(v >> 12 < 16 && (v >> 8) & 0xF < 16 && (v >> 4) & 0xF < 16 && v & 0xF < 16)
            by (bit_vector);
        reveal_strlit("0x");
    }
    out.append("0x");
    out.append(hex_digit_str((v >> 12) as u8));
    out.append(hex_digit_str(((v >> 8) & 0xF) as u8));
    out.append(hex_digit_str(((v >> 4) & 0xF) as u8));
    out.append(hex_digit_str((v & 0xF) as u8));
    proof {
        assert(out@ =~= old(out)@ + word_hex_chars(v));
    }
}

/// Appends `true` or `false`.
fn push_bool(out: &mut String, b: bool)
    ensures
        final(out)@ == old(out)@ + bool_chars(b),
{
    if b {
        out.append("true");
    } else {
        out.append("false");
    }
}

impl Computer {
    /// The human-readable state dump: every register value, the two flag
    /// bits and the halt bit, by name.
    pub fn dump(&self) -> (text: String)
        ensures
            text@ == dump_chars(self@),
    {
        let mut out = String::new();
        out.append("PC: ");
        push_word_hex(&mut out, self.get_special_unchecked(0));
        out.append(" SP: ");
        push_word_hex(&mut out, self.get_special_unchecked(1));
        out.append("\n\n");
        out.append("A: ");
        push_byte_hex(&mut out, self.get_general_unchecked(0));
        out.append("\n");
        out.append("B: ");
        push_byte_hex(&mut out, self.get_general_unchecked(1));
        out.append("\n");
        out.append("C: ");
        push_byte_hex(&mut out, self.get_general_unchecked(2));
        out.append("\n");
        out.append("D: ");
        push_byte_hex(&mut out, self.get_general_unchecked(3));
        out.append("\n");
        out.append("L: ");
        push_byte_hex(&mut out, self.get_general_unchecked(4));
        out.append("\n");
        out.append("H: ");
        push_byte_hex(&mut out, self.get_general_unchecked(5));
        out.append("\n\n");
        out.append("ZERO: ");
        push_bool(&mut out, self.get_special_unchecked(2) & ZERO_MASK != 0);
        out.append("\n");
        out.append("CARRY: ");
        push_bool(&mut out, self.get_special_unchecked(2) & CARRY_MASK != 0);
        out.append("\n\n");
        out.append("HALT: ");
        push_bool(&mut out, self.get_special_unchecked(3) & HALT_MASK != 0);
        out.append("\n");
        proof {
            assert(out@ =~= dump_chars(self@));
        }
        out
    }

    /// A memory-range dump: `bytes` bytes starting at `start_addr`, each
    /// in hexadecimal followed by a space, ending with a newline; or
    /// [`Error::OutOfBounds`] when the range runs past the last valid
    /// address.
    pub fn mem_dump(&self, start_addr: u16, bytes: usize) -> (r: Result<String, Error>)
        ensures
            start_addr + bytes <= MEM_SIZE ==> (r matches Ok(text) && text@ == mem_bytes_chars(
                self@.mem,
                start_addr as int,
                bytes as int,
            ) + "\n"@),
            start_addr + bytes > MEM_SIZE ==> r == Err::<String, Error>(Error::OutOfBounds),
    {
        if bytes > MEM_SIZE - (start_addr as usize) {
            return Err(Error::OutOfBounds);
        }
        let mut out = String::new();
        let mut i: usize = 0;
        while i < bytes
            invariant
                i <= bytes,
                start_addr + bytes <= MEM_SIZE,
                out@ == mem_bytes_chars(self@.mem, start_addr as int, i as int),
            decreases bytes - i,
        {
            let v = self.memory.memory[start_addr as usize + i];
            push_byte_hex(&mut out, v);
            out.append(" ");
            proof {
                assert(out@ =~= mem_bytes_chars(self@.mem, start_addr as int, i + 1));
            }
            i = i + 1;
        }
        out.append("\n");
        Ok(out)
    }

    /// The value of a known-valid general register; internal.
    fn get_general_unchecked(&self, index: usize) -> (v: u8)
        requires
            index < 6,
        ensures
            v == self@.gr[index as int],
    {
        self.cpu.general_registers[index].value
    }

    /// The value of a known-valid special register; internal.
    fn get_special_unchecked(&self, index: usize) -> (v: u16)
        requires
            index < 4,
        ensures
            v == self@.sr[index as int],
    {
        self.cpu.special_registers[index].value
    }
}

} // verus!
