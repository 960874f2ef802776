//! The executable machine: register file, memory, and the
//! fetch-decode-execute engine, each operation proved to agree with the
//! semantic model in [`crate::semantics`].

use vstd::prelude::*;

use crate::decode::{Opcode, decode};
use crate::error::Error;
use crate::semantics::{
    sem_address, sem_execute, sem_fetch, sem_step, sem_value,
};
use crate::state::{
    CARRY_MASK, FLAGS_INDEX, HALT_MASK, MachineState, MEM_SIZE, PC_INDEX, SP_INDEX, STATUS_INDEX,
    ZERO_MASK, lemma_le_address,
};

verus! {

/// An 8-bit general-purpose register.
#[derive(Clone, Copy)]
pub struct GeneralRegister {
    pub value: u8,
}

/// A 16-bit special-purpose register.
#[derive(Clone, Copy)]
pub struct SpecialRegister {
    pub value: u16,
}

/// The register file: six general registers, conventionally named
/// A, B, C, D, L, H (indices 0 through 5), and four special registers
/// PC, SP, F, S (indices 0 through 3).
pub struct CPU {
    pub general_registers: [GeneralRegister; 6],
    pub special_registers: [SpecialRegister; 4],
}

impl CPU {
    /// The general register values as a sequence of bytes.
    pub open spec fn gr_values(self) -> Seq<u8> {
        self.general_registers@.map_values(|r: GeneralRegister| r.value)
    }

    /// The special register values as a sequence of 16-bit words.
    pub open spec fn sr_values(self) -> Seq<u16> {
        self.special_registers@.map_values(|r: SpecialRegister| r.value)
    }

    /// A register file with every register zero.
    pub fn new() -> (cpu: CPU)
        ensures
            forall|i: int| 0 <= i < 6 ==> cpu.gr_values()[i] == 0,
            forall|i: int| 0 <= i < 4 ==> cpu.sr_values()[i] == 0,
    {
        CPU {
            general_registers: [
                GeneralRegister { value: 0 },
                GeneralRegister { value: 0 },
                GeneralRegister { value: 0 },
                GeneralRegister { value: 0 },
                GeneralRegister { value: 0 },
                GeneralRegister { value: 0 },
            ],
            special_registers: [
                SpecialRegister { value: 0 },
                SpecialRegister { value: 0 },
                SpecialRegister { value: 0 },
                SpecialRegister { value: 0 },
            ],
        }
    }

    /// The 16-bit composite address held in HL: register L (index 4) is
    /// the low byte, register H (index 5) the high byte.
    pub fn hl(&self) -> (addr: u16)
        ensures
            addr == self.gr_values()[4] + self.gr_values()[5] * 256,
    {
        let low = self.general_registers[4].value;
        let high = self.general_registers[5].value;
        proof {
            lemma_le_address(low, high);
        }
        (low as u16) | ((high as u16) << 8)
    }
}

/// The machine's memory: a flat array of bytes, one per address below
/// [`MEM_SIZE`].
pub struct Memory {
    pub memory: [u8; MEM_SIZE],
}

impl View for Memory {
    type V = Seq<u8>;

    open spec fn view(&self) -> Seq<u8> {
        self.memory@
    }
}

impl Memory {
    /// A memory with every byte zero.
    pub fn new() -> (m: Memory)
        ensures
            forall|i: int| 0 <= i < MEM_SIZE ==> m@[i] == 0,
    {
        Memory { memory: [0u8; MEM_SIZE] }
    }

    /// The byte at `addr`, or [`Error::OutOfBounds`] when the address is
    /// outside the memory.
    pub fn read(&self, addr: u16) -> (r: Result<u8, Error>)
        ensures
            addr < MEM_SIZE ==> r == Ok::<u8, Error>(self@[addr as int]),
            addr >= MEM_SIZE ==> r == Err::<u8, Error>(Error::OutOfBounds),
    {
        if (addr as usize) < MEM_SIZE {
            Ok(self.memory[addr as usize])
        } else {
            Err(Error::OutOfBounds)
        }
    }

    /// Stores `value` at `addr`, or reports [`Error::OutOfBounds`] and
    /// leaves the memory unchanged when the address is outside it.
    pub fn write(&mut self, addr: u16, value: u8) -> (r: Result<(), Error>)
        ensures
            addr < MEM_SIZE ==> r == Ok::<(), Error>(()) && final(self)@ == old(self)@.update(
                addr as int,
                value,
            ),
            addr >= MEM_SIZE ==> r == Err::<(), Error>(Error::OutOfBounds) && final(self)@ == old(
                self,
            )@,
    {
        if (addr as usize) < MEM_SIZE {
            self.memory[addr as usize] = value;
            Ok(())
        } else {
            Err(Error::OutOfBounds)
        }
    }
}

/// The memory contents after the first `count` bytes of `data` have been
/// stored at consecutive addresses starting at `start`.
pub open spec fn loaded_mem(mem: Seq<u8>, start: u16, data: Seq<u8>, count: int) -> Seq<u8> {
    Seq::new(mem.len(), |a: int| if start <= a < start + count {
        data[a - start]
    } else {
        mem[a]
    })
}

/// The whole machine: one CPU and one memory, exclusively owned.
pub struct Computer {
    pub cpu: CPU,
    pub memory: Memory,
}

impl View for Computer {
    type V = MachineState;

    open spec fn view(&self) -> MachineState {
        MachineState { gr: self.cpu.gr_values(), sr: self.cpu.sr_values(), mem: self.memory@ }
    }
}

impl Computer {
    /// A machine with every register and memory byte zero.
    pub fn new() -> (c: Computer)
        ensures
            c@ == MachineState::initial(),
    {
        let c = Computer { cpu: CPU::new(), memory: Memory::new() };
        proof {
            assert(c@.gr =~= MachineState::initial().gr);
            assert(c@.sr =~= MachineState::initial().sr);
            assert(c@.mem =~= MachineState::initial().mem);
            assert(c@ =~= MachineState::initial());
        }
        c
    }

    /// Sets general register `i` without an index check; internal.
    fn set_gr(&mut self, i: usize, v: u8)
        requires
            i < 6,
        ensures
            final(self)@ == old(self)@.with_gr(i as int, v),
    {
        self.cpu.general_registers[i] = GeneralRegister { value: v };
        proof {
            assert(self@.gr =~= old(self)@.gr.update(i as int, v));
            assert(self@ =~= old(self)@.with_gr(i as int, v));
        }
    }

    /// Sets special register `i` without an index check; internal.
    fn set_sr(&mut self, i: usize, v: u16)
        requires
            i < 4,
        ensures
            final(self)@ == old(self)@.with_sr(i as int, v),
    {
        self.cpu.special_registers[i] = SpecialRegister { value: v };
        proof {
            assert(self@.sr =~= old(self)@.sr.update(i as int, v));
            assert(self@ =~= old(self)@.with_sr(i as int, v));
        }
    }

    /// Stores `v` at a checked-valid address; internal.
    fn set_mem(&mut self, addr: u16, v: u8)
        requires
            addr < MEM_SIZE,
        ensures
            final(self)@ == old(self)@.with_mem(addr as int, v),
    {
        self.memory.memory[addr as usize] = v;
        proof {
            assert(self@ =~= old(self)@.with_mem(addr as int, v));
        }
    }

    /// The value of general register `index`, or [`Error::OutOfBounds`]
    /// when the index is not one of the six general registers.
    pub fn get_general(&self, index: usize) -> (r: Result<u8, Error>)
        ensures
            index < 6 ==> r == Ok::<u8, Error>(self@.gr[index as int]),
            index >= 6 ==> r == Err::<u8, Error>(Error::OutOfBounds),
    {
        if index < 6 {
            Ok(self.cpu.general_registers[index].value)
        } else {
            Err(Error::OutOfBounds)
        }
    }

    /// Sets general register `index` to `value`, or reports
    /// [`Error::OutOfBounds`] and changes nothing when the index is not one
    /// of the six general registers.
    pub fn set_general(&mut self, index: usize, value: u8) -> (r: Result<(), Error>)
        ensures
            index < 6 ==> r == Ok::<(), Error>(()) && final(self)@ == old(self)@.with_gr(
                index as int,
                value,
            ),
            index >= 6 ==> r == Err::<(), Error>(Error::OutOfBounds) && final(self)@ == old(self)@,
    {
        if index < 6 {
            self.set_gr(index, value);
            Ok(())
        } else {
            Err(Error::OutOfBounds)
        }
    }

    /// The value of special register `index` (PC, SP, F, S in order), or
    /// [`Error::OutOfBounds`] when the index is not one of the four.
    pub fn get_special(&self, index: usize) -> (r: Result<u16, Error>)
        ensures
            index < 4 ==> r == Ok::<u16, Error>(self@.sr[index as int]),
            index >= 4 ==> r == Err::<u16, Error>(Error::OutOfBounds),
    {
        if index < 4 {
            Ok(self.cpu.special_registers[index].value)
        } else {
            Err(Error::OutOfBounds)
        }
    }

    /// Sets special register `index` to `value`, or reports
    /// [`Error::OutOfBounds`] and changes nothing when the index is not one
    /// of the four special registers.
    pub fn set_special(&mut self, index: usize, value: u16) -> (r: Result<(), Error>)
        ensures
            index < 4 ==> r == Ok::<(), Error>(()) && final(self)@ == old(self)@.with_sr(
                index as int,
                value,
            ),
            index >= 4 ==> r == Err::<(), Error>(Error::OutOfBounds) && final(self)@ == old(self)@,
    {
        if index < 4 {
            self.set_sr(index, value);
            Ok(())
        } else {
            Err(Error::OutOfBounds)
        }
    }

    /// Whether the HALT status bit is set.
    pub fn halted(&self) -> (b: bool)
        ensures
            b == self@.halted(),
    {
        (self.cpu.special_registers[STATUS_INDEX].value & HALT_MASK) != 0
    }

    /// Whether the ZERO flag bit is set.
    pub fn zero_flag(&self) -> (b: bool)
        ensures
            b == self@.zero_flag(),
    {
        (self.cpu.special_registers[FLAGS_INDEX].value & ZERO_MASK) != 0
    }

    /// Whether the CARRY flag bit is set.
    pub fn carry_flag(&self) -> (b: bool)
        ensures
            b == self@.carry_flag(),
    {
        (self.cpu.special_registers[FLAGS_INDEX].value & CARRY_MASK) != 0
    }

    /// Writes `data` to consecutive memory addresses starting at
    /// `start_addr`. When the sequence would run past the last valid
    /// address, the bytes up to that point are stored, the rest are not,
    /// and the call reports [`Error::OutOfBounds`].
    pub fn load(&mut self, start_addr: u16, data: Vec<u8>) -> (r: Result<(), Error>)
        ensures
            final(self)@.gr == old(self)@.gr,
            final(self)@.sr == old(self)@.sr,
            data@.len() <= MEM_SIZE - start_addr ==> r == Ok::<(), Error>(()) && final(self)@.mem
                == loaded_mem(old(self)@.mem, start_addr, data@, data@.len() as int),
            data@.len() > MEM_SIZE - start_addr ==> r == Err::<(), Error>(Error::OutOfBounds)
                && final(self)@.mem == loaded_mem(
                old(self)@.mem,
                start_addr,
                data@,
                MEM_SIZE - start_addr,
            ),
    {
        let count = data.len();
        let mut i: usize = 0;
        while i < count
            invariant
                i <= count,
                count == data@.len(),
                start_addr + i <= MEM_SIZE,
                self@.gr == old(self)@.gr,
                self@.sr == old(self)@.sr,
                self@.mem =~= loaded_mem(old(self)@.mem, start_addr, data@, i as int),
            decreases count - i,
        {
            let addr = start_addr as usize + i;
            if addr >= MEM_SIZE {
                return Err(Error::OutOfBounds);
            }
            self.set_mem(addr as u16, data[i]);
            proof {
                assert(self@.mem =~= loaded_mem(
                    old(self)@.mem,
                    start_addr,
                    data@,
                    i + 1,
                ));
            }
            i = i + 1;
        }
        Ok(())
    }

    /// Fetches the byte at the program counter and advances the counter
    /// past it; internal.
    fn fetch_byte(&mut self) -> (r: Result<u8, Error>)
        ensures
            match sem_fetch(old(self)@) {
                Ok(sv) => r == Ok::<u8, Error>(sv.1) && final(self)@ == sv.0,
                Err(e) => r == Err::<u8, Error>(e) && final(self)@ == old(self)@,
            },
    {
        let pc = self.cpu.special_registers[PC_INDEX].value;
        if (pc as usize) >= MEM_SIZE {
            return Err(Error::OutOfBounds);
        }
        let b = self.memory.memory[pc as usize];
        self.set_sr(PC_INDEX, pc + 1);
        Ok(b)
    }

    /// Resolves the 16-bit address operand of LDR, STR, JMP and JZ:
    /// the HL composite register in register-direct mode, otherwise a
    /// little-endian immediate address fetched from the instruction
    /// stream; internal.
    fn resolve_address(&mut self, mode: bool) -> (r: Result<u16, Error>)
        ensures
            match sem_address(old(self)@, mode) {
                Ok(sa) => r == Ok::<u16, Error>(sa.1) && final(self)@ == sa.0,
                Err(e) => r == Err::<u16, Error>(e) && final(self)@ == old(self)@,
            },
    {
        if mode {
            return Ok(self.cpu.hl());
        }
        let pc = self.cpu.special_registers[PC_INDEX].value;
        if (pc as usize) >= MEM_SIZE {
            return Err(Error::OutOfBounds);
        }
        let low = self.memory.memory[pc as usize];
        if (pc as usize) + 1 >= MEM_SIZE {
            return Err(Error::OutOfBounds);
        }
        let high = self.memory.memory[pc as usize + 1];
        self.set_sr(PC_INDEX, pc + 2);
        proof {
            lemma_le_address(low, high);
            let s0 = old(self)@;
            let s1 = s0.with_pc((s0.pc() + 1) as u16);
            assert(self@ =~= s1.with_pc((s1.pc() + 1) as u16));
        }
        Ok((low as u16) | ((high as u16) << 8))
    }

    /// Resolves the byte operand of MOV, ADD, ADC, CMP, SUB, NAND and NOR:
    /// a byte is always fetched from the instruction stream; in
    /// register-direct mode its low three bits select the source general
    /// register; internal.
    fn resolve_value(&mut self, mode: bool) -> (r: Result<u8, Error>)
        ensures
            match sem_value(old(self)@, mode) {
                Ok(sv) => r == Ok::<u8, Error>(sv.1) && final(self)@ == sv.0,
                Err(e) => r == Err::<u8, Error>(e) && final(self)@ == old(self)@,
            },
    {
        let pc = self.cpu.special_registers[PC_INDEX].value;
        if (pc as usize) >= MEM_SIZE {
            return Err(Error::OutOfBounds);
        }
        let b = self.memory.memory[pc as usize];
        let v = if mode {
            let src = (b & 0x7) as usize;
            if src >= 6 {
                return Err(Error::OutOfBounds);
            }
            self.cpu.general_registers[src].value
        } else {
            b
        };
        self.set_sr(PC_INDEX, pc + 1);
        Ok(v)
    }

    /// Executes one already-fetched instruction byte: decodes it and
    /// performs the operation, fetching any operand bytes from the
    /// instruction stream and advancing the program counter past them.
    /// On a fault (an invalid address or register index) the machine is
    /// left exactly as it was and the error is reported.
    #[verifier::rlimit(100)]
    pub fn execute_instruction(&mut self, instruction: u8) -> (r: Result<(), Error>)
        ensures
            match sem_execute(old(self)@, instruction) {
                Ok(t) => r == Ok::<(), Error>(()) && final(self)@ == t,
                Err(e) => r == Err::<(), Error>(e) && final(self)@ == old(self)@,
            },
    {
        let (op, mode, reg) = decode(instruction);
        let dst = reg as usize;
        match op {
            Opcode::Nop => Ok(()),
            Opcode::Mov => {
                if dst >= 6 {
                    return Err(Error::OutOfBounds);
                }
                let v = match self.resolve_value(mode) {
                    Ok(v) => v,
                    Err(e) => return Err(e),
                };
                self.set_gr(dst, v);
                return Ok(());
            },
            Opcode::Ldr => {
                if dst >= 6 {
                    return Err(Error::OutOfBounds);
                }
                let pc0 = self.cpu.special_registers[PC_INDEX].value;
                let a = match self.resolve_address(mode) {
                    Ok(a) => a,
                    Err(e) => return Err(e),
                };
                if (a as usize) >= MEM_SIZE {
                    // A faulting instruction leaves the machine unchanged,
                    // so undo the operand fetch before reporting.
                    self.set_sr(PC_INDEX, pc0);
                    proof {
                        assert(self@ =~= old(self)@);
                    }
                    return Err(Error::OutOfBounds);
                }
                let m = self.memory.memory[a as usize];
                self.set_gr(dst, m);
                return Ok(());
            },
            Opcode::Str => {
                if dst >= 6 {
                    return Err(Error::OutOfBounds);
                }
                let pc0 = self.cpu.special_registers[PC_INDEX].value;
                let a = match self.resolve_address(mode) {
                    Ok(a) => a,
                    Err(e) => return Err(e),
                };
                if (a as usize) >= MEM_SIZE {
                    // As in LDR: undo the operand fetch before reporting.
                    self.set_sr(PC_INDEX, pc0);
                    proof {
                        assert(self@ =~= old(self)@);
                    }
                    return Err(Error::OutOfBounds);
                }
                let v = self.cpu.general_registers[dst].value;
                self.set_mem(a, v);
                return Ok(());
            },
            Opcode::Lhl => {
                let pc = self.cpu.special_registers[PC_INDEX].value;
                if (pc as usize) >= MEM_SIZE {
                    return Err(Error::OutOfBounds);
                }
                let low = self.memory.memory[pc as usize];
                if (pc as usize) + 1 >= MEM_SIZE {
                    return Err(Error::OutOfBounds);
                }
                let high = self.memory.memory[pc as usize + 1];
                self.set_sr(PC_INDEX, pc + 2);
                self.set_gr(4, low);
                self.set_gr(5, high);
                proof {
                    let s0 = old(self)@;
                    let s1 = s0.with_pc((s0.pc() + 1) as u16);
                    assert(self@ =~= s1.with_pc((s1.pc() + 1) as u16).with_gr(4, low).with_gr(
                        5,
                        high,
                    ));
                }
                return Ok(());
            },
            Opcode::Push => {
                let sp = self.cpu.special_registers[SP_INDEX].value;
                if sp == 0 {
                    return Err(Error::OutOfBounds);
                }
                let v = if mode {
                    if dst >= 6 {
                        return Err(Error::OutOfBounds);
                    }
                    self.cpu.general_registers[dst].value
                } else {
                    match self.fetch_byte() {
                        Ok(b) => b,
                        Err(e) => return Err(e),
                    }
                };
                self.set_sr(SP_INDEX, sp - 1);
                self.set_mem(sp - 1, v);
                return Ok(());
            },
            Opcode::Pop => {
                if dst >= 6 {
                    return Err(Error::OutOfBounds);
                }
                let sp = self.cpu.special_registers[SP_INDEX].value;
                let m = match self.memory.read(sp) {
                    Ok(m) => m,
                    Err(e) => return Err(e),
                };
                self.set_gr(dst, m);
                self.set_sr(SP_INDEX, sp + 1);
                return Ok(());
            },
            Opcode::Jmp => {
                let a = match self.resolve_address(mode) {
                    Ok(a) => a,
                    Err(e) => return Err(e),
                };
                self.set_sr(PC_INDEX, a);
                return Ok(());
            },
            Opcode::Jz => {
                let ghost s0 = self@;
                let a = match self.resolve_address(mode) {
                    Ok(a) => a,
                    Err(e) => return Err(e),
                };
                let ghost s1 = self@;
                let f = self.cpu.special_registers[FLAGS_INDEX].value;
                proof {
                    assert(f == s1.flags() && s1.flags() == s0.flags());
                }
                if f & ZERO_MASK == 0 {
                    self.set_sr(PC_INDEX, a);
                }
                return Ok(());
            },
            Opcode::Add => self.add_op(mode, dst, false),
            Opcode::Adc => self.add_op(mode, dst, true),
            Opcode::Cmp => {
                if dst >= 6 {
                    return Err(Error::OutOfBounds);
                }
                let v = match self.resolve_value(mode) {
                    Ok(v) => v,
                    Err(e) => return Err(e),
                };
                let a = self.cpu.general_registers[dst].value;
                let diff = ((a as u16 + 256 - v as u16) % 256) as u8;
                let f = self.cpu.special_registers[FLAGS_INDEX].value;
                let nf = if diff == 0 {
                    f | ZERO_MASK
                } else {
                    f & !ZERO_MASK
                };
                self.set_sr(FLAGS_INDEX, nf);
                return Ok(());
            },
            Opcode::Sub => {
                if dst >= 6 {
                    return Err(Error::OutOfBounds);
                }
                let v = match self.resolve_value(mode) {
                    Ok(v) => v,
                    Err(e) => return Err(e),
                };
                let a = self.cpu.general_registers[dst].value;
                let diff = ((a as u16 + 256 - v as u16) % 256) as u8;
                self.set_gr(dst, diff);
                return Ok(());
            },
            Opcode::Nand => {
                if dst >= 6 {
                    return Err(Error::OutOfBounds);
                }
                let v = match self.resolve_value(mode) {
                    Ok(v) => v,
                    Err(e) => return Err(e),
                };
                let a = self.cpu.general_registers[dst].value;
                self.set_gr(dst, !(a & v));
                return Ok(());
            },
            Opcode::Nor => {
                if dst >= 6 {
                    return Err(Error::OutOfBounds);
                }
                let v = match self.resolve_value(mode) {
                    Ok(v) => v,
                    Err(e) => return Err(e),
                };
                let a = self.cpu.general_registers[dst].value;
                self.set_gr(dst, !(a | v));
                return Ok(());
            },
            Opcode::Hlt => {
                let st = self.cpu.special_registers[STATUS_INDEX].value;
                self.set_sr(STATUS_INDEX, st | HALT_MASK);
                return Ok(());
            },
        }
    }

    /// One machine cycle: nothing when halted; otherwise fetches the
    /// instruction byte at the program counter, advances the counter past
    /// it, and executes the instruction. A fault is reported to the
    /// caller; a fault during the opcode fetch leaves the machine
    /// unchanged, and one during execution leaves it advanced past the
    /// opcode byte only.
    pub fn step(&mut self) -> (r: Result<(), Error>)
        ensures
            ({
                let outcome = sem_step(old(self)@);
                &&& final(self)@ == outcome.0
                &&& (outcome.1 is None <==> r is Ok)
                &&& (outcome.1 matches Some(e) ==> r == Err::<(), Error>(e))
            }),
    {
        if self.halted() {
            return Ok(());
        }
        let instruction = match self.fetch_byte() {
            Ok(b) => b,
            Err(e) => return Err(e),
        };
        self.execute_instruction(instruction)
    }

    /// Clears the HALT status bit, then repeats [`Self::step`] until the
    /// bit is set again by a HLT instruction, or until a cycle faults.
    /// The machine afterwards is one reached from the starting machine by
    /// fault-free cycles (followed by the one faulting cycle when a fault
    /// is reported). A machine whose program never halts and never faults
    /// would run forever; the caller owes the promise that it stops.
    pub fn run(&mut self) -> (r: Result<(), Error>)
        requires
            crate::semantics::run_terminates(crate::semantics::halt_cleared(old(self)@)),
        ensures
            ({
                let start = crate::semantics::halt_cleared(old(self)@);
                match r {
                    Ok(_) => final(self)@.halted() && exists|n: nat|
                        #[trigger] crate::semantics::run_steps(start, n) == Option::Some(
                            final(self)@,
                        ),
                    Err(e) => exists|n: nat|
                        #[trigger] crate::semantics::run_steps(start, n) matches Option::Some(t)
                            && sem_step(t) == (final(self)@, Option::Some(e)),
                }
            }),
    {
        proof {
            let s0 = old(self)@;
            assert(self.cpu.special_registers@[STATUS_INDEX as int].value == s0.status());
        }
        let st = self.cpu.special_registers[STATUS_INDEX].value;
        self.set_sr(STATUS_INDEX, st & !HALT_MASK);
        proof {
            crate::state::lemma_halt_bit(st);
            assert(self@ == crate::semantics::halt_cleared(old(self)@));
            assert(!self@.halted());
        }
        let ghost start = self@;
        let ghost done_n = choose|n: nat| crate::semantics::run_finished_at(start, n);
        let ghost mut i: nat = 0;
        loop
            invariant
                start == crate::semantics::halt_cleared(old(self)@),
                crate::semantics::run_finished_at(start, done_n),
                crate::semantics::run_steps(start, i) == Option::Some(self@),
                !self@.halted(),
                i <= done_n,
            decreases done_n - i,
        {
            let ghost pre = self@;
            match self.step() {
                Ok(_) => {},
                Err(e) => {
                    proof {
                        assert(crate::semantics::run_steps(start, i) matches Option::Some(t)
                            && sem_step(t) == (self@, Option::Some(e)));
                    }
                    return Err(e);
                },
            }
            proof {
                i = i + 1;
                assert(crate::semantics::run_steps(start, i) == Option::Some(self@));
            }
            if self.halted() {
                return Ok(());
            }
            proof {
                if i > done_n {
                    assert(crate::semantics::run_steps(start, done_n) == Option::Some(pre));
                    assert(false);
                }
            }
        }
    }

    /// Shared body of ADD and ADC; internal.
    fn add_op(&mut self, mode: bool, dst: usize, use_carry: bool) -> (r: Result<(), Error>)
        requires
            dst <= 7,
        ensures
            match crate::semantics::sem_add(old(self)@, dst as u8, mode, use_carry) {
                Ok(t) => r == Ok::<(), Error>(()) && final(self)@ == t,
                Err(e) => r == Err::<(), Error>(e) && final(self)@ == old(self)@,
            },
    {
        if dst >= 6 {
            return Err(Error::OutOfBounds);
        }
        let v = match self.resolve_value(mode) {
            Ok(v) => v,
            Err(e) => return Err(e),
        };
        let a = self.cpu.general_registers[dst].value;
        let f = self.cpu.special_registers[FLAGS_INDEX].value;
        let carry_in: u16 = if use_carry && (f & CARRY_MASK != 0) {
            1
        } else {
            0
        };
        let total = a as u16 + v as u16 + carry_in;
        self.set_gr(dst, (total % 256) as u8);
        let nf = if total > 255 {
            f | CARRY_MASK
        } else {
            f & !CARRY_MASK
        };
        self.set_sr(FLAGS_INDEX, nf);
        Ok(())
    }
}

} // verus!
