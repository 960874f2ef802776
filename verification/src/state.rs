//! The mathematical model of the machine state, with its named registers,
//! flag bits, and update operations.

use vstd::prelude::*;

verus! {

/// Number of bytes in the machine's memory. Addresses are 16-bit values;
/// every address below this bound is readable and writable, and the one
/// address at the bound is out of range.
pub const MEM_SIZE: usize = 0xFFFF;

/// Bit of the flags register F that holds the ZERO flag.
pub const ZERO_MASK: u16 = 0x1;

/// Bit of the flags register F that holds the CARRY flag.
pub const CARRY_MASK: u16 = 0x2;

/// Bit of the status register S that holds the HALT bit.
pub const HALT_MASK: u16 = 0x1;

/// Index of the program counter in the special register file.
pub const PC_INDEX: usize = 0;

/// Index of the stack pointer in the special register file.
pub const SP_INDEX: usize = 1;

/// Index of the flags register F in the special register file.
pub const FLAGS_INDEX: usize = 2;

/// Index of the status register S in the special register file.
pub const STATUS_INDEX: usize = 3;

/// The mathematical model of the whole machine: the values of the six
/// general registers A, B, C, D, L, H (in that order), the four special
/// registers PC, SP, F, S (in that order), and the memory bytes.
#[verifier::ext_equal]
pub struct MachineState {
    /// General register values, indexed 0 through 5.
    pub gr: Seq<u8>,
    /// Special register values: PC, SP, F, S.
    pub sr: Seq<u16>,
    /// Memory contents, one byte per address.
    pub mem: Seq<u8>,
}

impl MachineState {
    /// The shape every reachable machine state has.
    pub open spec fn wf(self) -> bool {
        &&& self.gr.len() == 6
        &&& self.sr.len() == 4
        &&& self.mem.len() == MEM_SIZE
    }

    /// The machine with every register and memory byte zero.
    pub open spec fn initial() -> MachineState {
        MachineState {
            gr: Seq::new(6, |i: int| 0u8),
            sr: Seq::new(4, |i: int| 0u16),
            mem: Seq::new(MEM_SIZE as nat, |i: int| 0u8),
        }
    }

    /// The program counter: address of the next byte to fetch.
    pub open spec fn pc(self) -> u16 {
        self.sr[PC_INDEX as int]
    }

    /// The stack pointer.
    pub open spec fn sp(self) -> u16 {
        self.sr[SP_INDEX as int]
    }

    /// The flags register F.
    pub open spec fn flags(self) -> u16 {
        self.sr[FLAGS_INDEX as int]
    }

    /// The status register S.
    pub open spec fn status(self) -> u16 {
        self.sr[STATUS_INDEX as int]
    }

    /// The 16-bit composite address register HL: L (register 4) is the low
    /// byte and H (register 5) the high byte.
    pub open spec fn hl(self) -> u16 {
        (self.gr[4] + self.gr[5] * 256) as u16
    }

    /// Whether the ZERO flag bit is set.
    pub open spec fn zero_flag(self) -> bool {
        self.flags() & ZERO_MASK != 0
    }

    /// Whether the CARRY flag bit is set.
    pub open spec fn carry_flag(self) -> bool {
        self.flags() & CARRY_MASK != 0
    }

    /// Whether the HALT status bit is set.
    pub open spec fn halted(self) -> bool {
        self.status() & HALT_MASK != 0
    }

    /// The same machine with general register `i` set to `v`.
    pub open spec fn with_gr(self, i: int, v: u8) -> MachineState {
        MachineState { gr: self.gr.update(i, v), ..self }
    }

    /// The same machine with special register `i` set to `v`.
    pub open spec fn with_sr(self, i: int, v: u16) -> MachineState {
        MachineState { sr: self.sr.update(i, v), ..self }
    }

    /// The same machine with the memory byte at `a` set to `v`.
    pub open spec fn with_mem(self, a: int, v: u8) -> MachineState {
        MachineState { mem: self.mem.update(a, v), ..self }
    }

    /// The same machine with the program counter set to `v`.
    pub open spec fn with_pc(self, v: u16) -> MachineState {
        self.with_sr(PC_INDEX as int, v)
    }

    /// The same machine with the flags register set to `f`.
    pub open spec fn with_flags(self, f: u16) -> MachineState {
        self.with_sr(FLAGS_INDEX as int, f)
    }
}

/// The flags value `f` with the single bit `mask` set when `on` is true and
/// cleared when it is false.
pub open spec fn with_flag_bit(f: u16, mask: u16, on: bool) -> u16 {
    if on {
        f | mask
    } else {
        f & !mask
    }
}

/// Updating one flag bit sets exactly that bit to the requested value and
/// leaves the other flag bit alone.
pub proof fn lemma_flag_bit_update(f: u16, mask: u16, other: u16, on: bool)
    requires
        mask == 1 || mask == 2,
        other == 1 || other == 2,
        other != mask,
    ensures
        (with_flag_bit(f, mask, on) & mask != 0) == on,
        with_flag_bit(f, mask, on) & other == f & other,
{
    if on {
        assert((f | mask) & mask != 0 && (f | mask) & other == f & other) by (bit_vector)
            requires
                mask == 1 || mask == 2,
                other == 1 || other == 2,
                other != mask,
        ;
    } else {
        assert((f & !mask) & mask == 0 && (f & !mask) & other == f & other) by (bit_vector)
            requires
                mask == 1 || mask == 2,
                other == 1 || other == 2,
                other != mask,
        ;
    }
}

/// Setting the HALT bit makes the status halted; clearing it makes it not
/// halted.
pub proof fn lemma_halt_bit(st: u16)
    ensures
        (st | HALT_MASK) & HALT_MASK != 0,
        (st & !HALT_MASK) & HALT_MASK == 0,
{
    assert((st | 1u16) & 1u16 != 0 && (st & !1u16) & 1u16 == 0) by (bit_vector);
}

/// The bitwise form in which a 16-bit little-endian address is assembled
/// from its two bytes equals the arithmetic value `low + 256 * high`.
pub proof fn lemma_le_address(low: u8, high: u8)
    ensures
        (low as u16) | ((high as u16) << 8) == low + high * 256,
{
    assert((low as u16) | ((high as u16) << 8) == low + high * 256) by (bit_vector);
}

} // verus!
