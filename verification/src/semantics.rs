//! The semantic model: what each instruction, one machine cycle, and the
//! run loop do to a [`crate::state::MachineState`].

use vstd::prelude::*;

use crate::decode::{Opcode, mode_bit, opcode_of, reg_index};
use crate::error::Error;
use crate::state::{
    CARRY_MASK, HALT_MASK, MEM_SIZE, MachineState, SP_INDEX, STATUS_INDEX, ZERO_MASK,
    with_flag_bit,
};

verus! {

/// Whether a 16-bit value is a valid memory address.
pub open spec fn addr_ok(a: u16) -> bool {
    a < MEM_SIZE
}

/// Reading one byte at the program counter and advancing the counter past
/// it. Fails when the counter points outside the memory, in which case the
/// machine is unchanged.
pub open spec fn sem_fetch(s: MachineState) -> Result<(MachineState, u8), Error> {
    if addr_ok(s.pc()) {
        Ok((s.with_pc((s.pc() + 1) as u16), s.mem[s.pc() as int]))
    } else {
        Err(Error::OutOfBounds)
    }
}

/// Reading a little-endian 16-bit address from the two bytes at the
/// program counter: low byte first, high byte second, each advancing the
/// counter by one.
pub open spec fn sem_fetch_addr(s: MachineState) -> Result<(MachineState, u16), Error> {
    match sem_fetch(s) {
        Err(e) => Err(e),
        Ok((s1, low)) => match sem_fetch(s1) {
            Err(e) => Err(e),
            Ok((s2, high)) => Ok((s2, (low + high * 256) as u16)),
        },
    }
}

/// The 16-bit address operand of LDR, STR, JMP and JZ: the HL composite
/// register in register-direct mode, otherwise a little-endian immediate
/// address fetched from the instruction stream.
pub open spec fn sem_address(s: MachineState, mode: bool) -> Result<(MachineState, u16), Error> {
    if mode {
        Ok((s, s.hl()))
    } else {
        sem_fetch_addr(s)
    }
}

/// The byte operand of MOV, ADD, ADC, CMP, SUB, NAND and NOR. A byte is
/// always fetched from the instruction stream, advancing the program
/// counter; in register-direct mode only its low three bits are used, to
/// select the source general register.
pub open spec fn sem_value(s: MachineState, mode: bool) -> Result<(MachineState, u8), Error> {
    match sem_fetch(s) {
        Err(e) => Err(e),
        Ok((s1, b)) => {
            if mode {
                if (b & 0x7) < 6 {
                    Ok((s1, s1.gr[(b & 0x7) as int]))
                } else {
                    Err(Error::OutOfBounds)
                }
            } else {
                Ok((s1, b))
            }
        },
    }
}

/// 8-bit addition with an optional carry-in: the sum wrapped to a byte,
/// and whether the true sum exceeded the byte range.
pub open spec fn sum_result(a: u8, b: u8, carry_in: bool) -> (u8, bool) {
    let total = a + b + (if carry_in {
        1int
    } else {
        0int
    });
    (((total % 256) as u8, total > 255))
}

/// 8-bit wrapping subtraction.
pub open spec fn sub_result(a: u8, b: u8) -> u8 {
    ((a + 256 - b) % 256) as u8
}

/// The effect of ADD and ADC on machine `s` with destination register
/// field `r`: the destination receives the wrapped sum of its value, the
/// resolved operand, and (for ADC) one more when CARRY was set; CARRY is
/// then set exactly when the combined true sum exceeded the byte range.
pub open spec fn sem_add(s: MachineState, r: u8, mode: bool, use_carry: bool) -> Result<
    MachineState,
    Error,
> {
    if r < 6 {
        match sem_value(s, mode) {
            Err(e) => Err(e),
            Ok((s1, v)) => {
                let outcome = sum_result(s1.gr[r as int], v, use_carry && s1.carry_flag());
                Ok(s1.with_gr(r as int, outcome.0).with_flags(
                    with_flag_bit(s1.flags(), CARRY_MASK, outcome.1),
                ))
            },
        }
    } else {
        Err(Error::OutOfBounds)
    }
}

/// The complete effect of executing one already-fetched instruction byte
/// on machine `s`. `Ok` carries the next machine; `Err` means the
/// instruction faulted (an invalid address or register index), in which
/// case the machine is left exactly as it was.
pub open spec fn sem_execute(s: MachineState, instruction: u8) -> Result<MachineState, Error> {
    let mode = mode_bit(instruction);
    let r = reg_index(instruction);
    match opcode_of(instruction) {
        Opcode::Nop => Ok(s),
        Opcode::Mov => if r < 6 {
            match sem_value(s, mode) {
                Err(e) => Err(e),
                Ok((s1, v)) => Ok(s1.with_gr(r as int, v)),
            }
        } else {
            Err(Error::OutOfBounds)
        },
        Opcode::Ldr => if r < 6 {
            match sem_address(s, mode) {
                Err(e) => Err(e),
                Ok((s1, a)) => if addr_ok(a) {
                    Ok(s1.with_gr(r as int, s1.mem[a as int]))
                } else {
                    Err(Error::OutOfBounds)
                },
            }
        } else {
            Err(Error::OutOfBounds)
        },
        Opcode::Str => if r < 6 {
            match sem_address(s, mode) {
                Err(e) => Err(e),
                Ok((s1, a)) => if addr_ok(a) {
                    Ok(s1.with_mem(a as int, s1.gr[r as int]))
                } else {
                    Err(Error::OutOfBounds)
                },
            }
        } else {
            Err(Error::OutOfBounds)
        },
        Opcode::Lhl => match sem_fetch(s) {
            Err(e) => Err(e),
            Ok((s1, low)) => match sem_fetch(s1) {
                Err(e) => Err(e),
                Ok((s2, high)) => Ok(s2.with_gr(4, low).with_gr(5, high)),
            },
        },
        Opcode::Push => if s.sp() == 0 {
            Err(Error::OutOfBounds)
        } else {
            let fetched = if mode {
                if r < 6 {
                    Ok((s, s.gr[r as int]))
                } else {
                    Err(Error::OutOfBounds)
                }
            } else {
                sem_fetch(s)
            };
            match fetched {
                Err(e) => Err(e),
                Ok((s1, v)) => Ok(s1.with_sr(SP_INDEX as int, (s1.sp() - 1) as u16).with_mem(
                    s1.sp() - 1,
                    v,
                )),
            }
        },
        Opcode::Pop => if r < 6 {
            if addr_ok(s.sp()) {
                Ok(s.with_gr(r as int, s.mem[s.sp() as int]).with_sr(
                    SP_INDEX as int,
                    (s.sp() + 1) as u16,
                ))
            } else {
                Err(Error::OutOfBounds)
            }
        } else {
            Err(Error::OutOfBounds)
        },
        Opcode::Jmp => match sem_address(s, mode) {
            Err(e) => Err(e),
            Ok((s1, a)) => Ok(s1.with_pc(a)),
        },
        Opcode::Jz => match sem_address(s, mode) {
            Err(e) => Err(e),
            Ok((s1, a)) => if !s.zero_flag() {
                Ok(s1.with_pc(a))
            } else {
                Ok(s1)
            },
        },
        Opcode::Add => sem_add(s, r, mode, false),
        Opcode::Adc => sem_add(s, r, mode, true),
        Opcode::Cmp => if r < 6 {
            match sem_value(s, mode) {
                Err(e) => Err(e),
                Ok((s1, v)) => Ok(s1.with_flags(
                    with_flag_bit(s1.flags(), ZERO_MASK, sub_result(s1.gr[r as int], v) == 0),
                )),
            }
        } else {
            Err(Error::OutOfBounds)
        },
        Opcode::Sub => if r < 6 {
            match sem_value(s, mode) {
                Err(e) => Err(e),
                Ok((s1, v)) => Ok(s1.with_gr(r as int, sub_result(s1.gr[r as int], v))),
            }
        } else {
            Err(Error::OutOfBounds)
        },
        Opcode::Nand => if r < 6 {
            match sem_value(s, mode) {
                Err(e) => Err(e),
                Ok((s1, v)) => Ok(s1.with_gr(r as int, !(s1.gr[r as int] & v))),
            }
        } else {
            Err(Error::OutOfBounds)
        },
        Opcode::Nor => if r < 6 {
            match sem_value(s, mode) {
                Err(e) => Err(e),
                Ok((s1, v)) => Ok(s1.with_gr(r as int, !(s1.gr[r as int] | v))),
            }
        } else {
            Err(Error::OutOfBounds)
        },
        Opcode::Hlt => Ok(s.with_sr(STATUS_INDEX as int, s.status() | HALT_MASK)),
    }
}

/// One cycle of the machine: nothing when halted; otherwise the
/// instruction byte at the program counter is fetched, the counter
/// advanced past it, and the instruction executed. The pair holds the
/// machine afterwards and the fault, if one occurred: a fault during the
/// opcode fetch leaves the machine unchanged, and a fault during execution
/// leaves it advanced past the opcode byte only.
pub open spec fn sem_step(s: MachineState) -> (MachineState, Option<Error>) {
    if s.halted() {
        (s, Option::None)
    } else {
        match sem_fetch(s) {
            Err(e) => (s, Option::Some(e)),
            Ok((s1, instruction)) => match sem_execute(s1, instruction) {
                Ok(t) => (t, Option::None),
                Err(e) => (s1, Option::Some(e)),
            },
        }
    }
}

/// The machine after `n` fault-free cycles from `s`; `None` when one of
/// those cycles faults.
pub open spec fn run_steps(s: MachineState, n: nat) -> Option<MachineState>
    decreases n,
{
    if n == 0 {
        Option::Some(s)
    } else {
        match run_steps(s, (n - 1) as nat) {
            Option::None => Option::None,
            Option::Some(t) => {
                let next = sem_step(t);
                if next.1 is Some {
                    Option::None
                } else {
                    Option::Some(next.0)
                }
            },
        }
    }
}

/// After `n` cycles from `s` the run loop is over: the machine has halted,
/// or the next cycle faults.
pub open spec fn run_finished_at(s: MachineState, n: nat) -> bool {
    match run_steps(s, n) {
        Option::None => false,
        Option::Some(t) => t.halted() || sem_step(t).1 is Some,
    }
}

/// The run loop started from `s` eventually stops, by reaching a halted
/// machine or a faulting cycle. A program that never executes HLT and
/// never faults runs forever; whether that happens is the caller's
/// responsibility, not detected by the machine.
pub open spec fn run_terminates(s: MachineState) -> bool {
    exists|n: nat| run_finished_at(s, n)
}

/// The machine with the HALT status bit cleared, as the run loop leaves it
/// before its first cycle.
pub open spec fn halt_cleared(s: MachineState) -> MachineState {
    s.with_sr(STATUS_INDEX as int, s.status() & !HALT_MASK)
}

} // verus!
