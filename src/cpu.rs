use vstd::prelude::*;

use crate::flags::{flags_for, update_flags};
use crate::memory::{byte_at, with_bytes, with_word, word_at, Memory, MEMORY_SIZE};
use crate::opcode::{decode, decode_spec, ExecError, Opcode};

verus! {

/// Address at which `load` places a program.
pub const PROGRAM_ORIGIN: u16 = 0x8000;

/// Address of the 16-bit reset vector (low byte; high byte follows).
pub const RESET_VECTOR: u16 = 0xFFFC;

/// Largest program that fits between the origin and the top of memory.
pub const PROGRAM_CAPACITY: usize = 0x8000;

/// The whole observable state of a processor, as mathematical values.
pub struct MachineState {
    pub register_a: u8,
    pub register_x: u8,
    pub status: u8,
    pub program_counter: u16,
    pub memory: Seq<u8>,
}

/// The power-on state: all registers zero, memory zero-filled.
pub open spec fn initial_state() -> MachineState {
    MachineState {
        register_a: 0,
        register_x: 0,
        status: 0,
        program_counter: 0,
        memory: Seq::new(MEMORY_SIZE as nat, |_i: int| 0u8),
    }
}

/// `s` with the program counter set to `pc`.
pub open spec fn with_pc(s: MachineState, pc: u16) -> MachineState {
    MachineState { program_counter: pc, ..s }
}

/// `s` after the flag rule is applied to `result`.
pub open spec fn flagged(s: MachineState, result: u8) -> MachineState {
    MachineState { status: flags_for(s.status, result), ..s }
}

/// LDA: the accumulator takes `value`; flags follow it.
pub open spec fn lda_spec(s: MachineState, value: u8) -> MachineState {
    flagged(MachineState { register_a: value, ..s }, value)
}

/// TAX: index X takes the accumulator; flags follow index X.
pub open spec fn tax_spec(s: MachineState) -> MachineState {
    flagged(MachineState { register_x: s.register_a, ..s }, s.register_a)
}

/// The successor of a byte, wrapping from 255 to 0.
pub open spec fn inc_wrap(x: u8) -> u8 {
    ((x as int + 1) % 256) as u8
}

/// INX: index X is incremented with wrap-around; flags follow index X.
pub open spec fn inx_spec(s: MachineState) -> MachineState {
    flagged(MachineState { register_x: inc_wrap(s.register_x), ..s }, inc_wrap(s.register_x))
}

/// Reset: registers and status cleared, program counter read from the reset vector.
pub open spec fn reset_spec(s: MachineState) -> MachineState {
    MachineState {
        register_a: 0,
        register_x: 0,
        status: 0,
        program_counter: word_at(s.memory, RESET_VECTOR),
        memory: s.memory,
    }
}

/// Load: the program is copied to the origin and the origin stored in the reset vector.
pub open spec fn load_spec(s: MachineState, program: Seq<u8>) -> MachineState {
    MachineState {
        memory: with_word(with_bytes(s.memory, PROGRAM_ORIGIN as int, program), RESET_VECTOR, PROGRAM_ORIGIN),
        ..s
    }
}

/// The state in which a run from `s` stops, and whether it stopped on a halt
/// instruction. Each instruction fetches its bytes from the program counter
/// onward; fetching from the last address is an error, since the program
/// counter could not advance past it.
pub open spec fn run_spec(s: MachineState) -> (MachineState, Result<(), ExecError>)
    decreases 0xFFFF - s.program_counter,
{
    let pc = s.program_counter;
    if pc == 0xFFFF {
        (s, Err(ExecError::AddressSpaceExhausted))
    } else {
        let opcode = byte_at(s.memory, pc);
        let t = with_pc(s, (pc + 1) as u16);
        match decode_spec(opcode) {
            None => (t, Err(ExecError::UnknownOpcode(opcode))),
            Some(Opcode::Brk) => (t, Ok(())),
            Some(Opcode::Tax) => run_spec(tax_spec(t)),
            Some(Opcode::Inx) => run_spec(inx_spec(t)),
            Some(Opcode::LdaImmediate) => {
                if pc + 1 == 0xFFFF {
                    (t, Err(ExecError::AddressSpaceExhausted))
                } else {
                    run_spec(lda_spec(with_pc(s, (pc + 2) as u16), byte_at(s.memory, (pc + 1) as u16)))
                }
            },
        }
    }
}

/// An 8-bit processor: accumulator, index X, status flags, program counter
/// and its own 64 KiB of memory.
pub struct CPU {
    pub register_a: u8,
    pub register_x: u8,
    pub status: u8,
    pub program_counter: u16,
    pub memory: Memory,
}

impl View for CPU {
    type V = MachineState;

    open spec fn view(&self) -> MachineState {
        MachineState {
            register_a: self.register_a,
            register_x: self.register_x,
            status: self.status,
            program_counter: self.program_counter,
            memory: self.memory@,
        }
    }
}

impl CPU {
    /// The processor's memory covers the whole address space.
    pub open spec fn wf(&self) -> bool {
        self.memory.wf()
    }

    /// A processor with all registers zero and zero-filled memory.
    pub fn new() -> (c: CPU)
        ensures
            c.wf(),
            c@ == initial_state(),
    {
        CPU { register_a: 0, register_x: 0, status: 0, program_counter: 0, memory: Memory::new() }
    }

    /// LDA: loads `param` into the accumulator.
    fn lda(&mut self, param: u8)
        requires
            old(self).wf(),
        ensures
            final(self).wf(),
            final(self)@ == lda_spec(old(self)@, param),
    {
        self.register_a = param;
        self.update_zero_and_negative_flags(self.register_a);
    }

    /// TAX: copies the accumulator into index X.
    fn tax(&mut self)
        requires
            old(self).wf(),
        ensures
            final(self).wf(),
            final(self)@ == tax_spec(old(self)@),
    {
        self.register_x = self.register_a;
        self.update_zero_and_negative_flags(self.register_x);
    }

    /// INX: increments index X, wrapping from 255 to 0.
    fn inx(&mut self)
        requires
            old(self).wf(),
        ensures
            final(self).wf(),
            final(self)@ == inx_spec(old(self)@),
    {
        self.register_x = self.register_x.wrapping_add(1);
        self.update_zero_and_negative_flags(self.register_x);
    }

    /// The shared flag rule, applied to the result of an instruction.
    fn update_zero_and_negative_flags(&mut self, result: u8)
        requires
            old(self).wf(),
        ensures
            final(self).wf(),
            final(self)@ == flagged(old(self)@, result),
    {
        self.status = update_flags(self.status, result);
    }

    /// The byte at `addr`.
    pub fn mem_read(&self, addr: u16) -> (r: u8)
        requires
            self.wf(),
        ensures
            r == byte_at(self@.memory, addr),
    {
        self.memory.read(addr)
    }

    /// The little-endian 16-bit value at `addr` (high byte at the next address, wrapping).
    pub fn mem_read_u16(&self, addr: u16) -> (r: u16)
        requires
            self.wf(),
        ensures
            r == word_at(self@.memory, addr),
    {
        self.memory.read16(addr)
    }

    /// Stores `data` at `addr`.
    pub fn mem_write(&mut self, addr: u16, data: u8)
        requires
            old(self).wf(),
        ensures
            final(self).wf(),
            final(self)@ == (MachineState { memory: old(self)@.memory.update(addr as int, data), ..old(self)@ }),
    {
        self.memory.write(addr, data);
    }

    /// Stores `data` little-endian at `addr` and the next address (wrapping).
    pub fn mem_write_u16(&mut self, addr: u16, data: u16)
        requires
            old(self).wf(),
        ensures
            final(self).wf(),
            final(self)@ == (MachineState { memory: with_word(old(self)@.memory, addr, data), ..old(self)@ }),
    {
        self.memory.write16(addr, data);
    }

    /// Clears the accumulator, index X and status, and sets the program
    /// counter from the reset vector.
    pub fn reset(&mut self)
        requires
            old(self).wf(),
        ensures
            final(self).wf(),
            final(self)@ == reset_spec(old(self)@),
    {
        self.register_a = 0;
        self.register_x = 0;
        self.status = 0;
        self.program_counter = self.mem_read_u16(RESET_VECTOR);
    }

    /// Loads `program`, resets, and runs until the processor stops.
    pub fn load_and_run(&mut self, program: Vec<u8>) -> (r: Result<(), ExecError>)
        requires
            old(self).wf(),
            program@.len() <= PROGRAM_CAPACITY,
        ensures
            final(self).wf(),
            (final(self)@, r) == run_spec(reset_spec(load_spec(old(self)@, program@))),
    {
        self.load(program);
        self.reset();
        self.run()
    }

    /// Copies `program` to memory at the origin and stores the origin in the
    /// reset vector. A program longer than the space from the origin to the
    /// top of memory (`PROGRAM_CAPACITY` bytes) is a precondition violation;
    /// a program that reaches the reset vector has those two bytes replaced.
    pub fn load(&mut self, program: Vec<u8>)
        requires
            old(self).wf(),
            program@.len() <= PROGRAM_CAPACITY,
        ensures
            final(self).wf(),
            final(self)@ == load_spec(old(self)@, program@),
    {
        self.memory.write_bytes(PROGRAM_ORIGIN, &program);
        self.mem_write_u16(RESET_VECTOR, PROGRAM_ORIGIN);
    }

    /// Fetches, decodes and executes instructions from the program counter on
    /// until a halt instruction (`Ok`) or a fault (`Err`).
    pub fn run(&mut self) -> (r: Result<(), ExecError>)
        requires
            old(self).wf(),
        ensures
            final(self).wf(),
            (final(self)@, r) == run_spec(old(self)@),
    {
        loop
            invariant
                self.wf(),
                run_spec(self@) == run_spec(old(self)@),
            decreases 0xFFFF - self.program_counter,
        {
            if self.program_counter == 0xFFFF {
                return Err(ExecError::AddressSpaceExhausted);
            }
            let opcode = self.mem_read(self.program_counter);
            self.program_counter = self.program_counter + 1;
            match decode(opcode) {
                Some(Opcode::LdaImmediate) => {
                    if self.program_counter == 0xFFFF {
                        return Err(ExecError::AddressSpaceExhausted);
                    }
                    let param = self.mem_read(self.program_counter);
                    self.program_counter = self.program_counter + 1;
                    self.lda(param);
                },
                Some(Opcode::Tax) => self.tax(),
                Some(Opcode::Inx) => self.inx(),
                Some(Opcode::Brk) => {
                    return Ok(());
                },
                None => {
                    return Err(ExecError::UnknownOpcode(opcode));
                },
            }
        }
    }
}

} // verus!
