//! The processor: its registers, the memory it runs on, and the
//! fetch-decode-execute cycle.

use vstd::prelude::*;

use crate::machine::{self, Machine};
use crate::memory::{word_at, wrap16, wrap8, Memory};
use crate::opcode::lookup;
use crate::register::{Register, RegisterModel, Status};

mod execute;
mod fetch;

verus! {

/// Why a step could not be carried out.
#[derive(Clone, Copy, Debug, PartialEq, Eq, Structural)]
pub enum StepError {
    /// The byte `opcode`, fetched at `pc`, has no entry in the opcode table.
    UnknownOpcode { opcode: u8, pc: u16 },
}

/// A processor with its register file, running on the memory `mem`.
pub struct Cpu<M: Memory> {
    pub reg: Register,
    pub mem: M,
}

impl<M: Memory> View for Cpu<M> {
    type V = Machine;

    open spec fn view(&self) -> Machine {
        Machine { reg: self.reg@, mem: self.mem.cells() }
    }
}

impl<M: Memory> Cpu<M> {
    /// A processor with all registers zero and the status cleared but for
    /// the reserved bit.
    pub fn new(mem: M) -> (r: Cpu<M>)
        ensures
            r@ == (Machine {
                reg: RegisterModel { a: 0, x: 0, y: 0, pc: 0, s: 0, p: Status::ALWAYS },
                mem: mem.cells(),
            }),
    {
        Cpu { reg: Register::new(), mem }
    }

    /// Pushing a word and then pulling one gives the word back, with the
    /// stack pointer and the other registers as they were.
    pub proof fn lemma_word_round_trip(&self, w: u16)
        ensures
            machine::pull_word(machine::push_word(self@, w)).0 == w,
            machine::pull_word(machine::push_word(self@, w)).1.reg == self@.reg,
    {
        self.mem.lemma_cells_len();
        machine::lemma_stack_word_round_trip(self@, w);
    }

    /// Pushing a byte and then pulling one gives the byte back, with the
    /// stack pointer and the other registers as they were.
    pub proof fn lemma_byte_round_trip(&self, b: u8)
        ensures
            machine::pull_byte(machine::push_byte(self@, b)).0 == b,
            machine::pull_byte(machine::push_byte(self@, b)).1.reg == self@.reg,
    {
        self.mem.lemma_cells_len();
        machine::lemma_stack_byte_round_trip(self@, b);
    }

    /// JSR to a routine that starts with RTS, taken as two steps, resumes at
    /// the byte after the three-byte JSR with the other registers restored.
    pub proof fn lemma_jsr_rts(&self)
        requires
            self@.mem[self.reg.pc as int] == 0x20,
            self@.mem[word_at(self@.mem, wrap16(self.reg.pc + 1)) as int] == 0x60,
            word_at(self@.mem, wrap16(self.reg.pc + 1)) as int != machine::stack_cell(self.reg.s),
            word_at(self@.mem, wrap16(self.reg.pc + 1)) as int != machine::stack_cell(
                wrap8(self.reg.s - 1),
            ),
        ensures
            machine::step(machine::step(self@).1).0 == Ok::<(), StepError>(()),
            machine::step(machine::step(self@).1).1.reg == (RegisterModel {
                pc: wrap16(self.reg.pc + 3),
                ..self@.reg
            }),
    {
        self.mem.lemma_cells_len();
        machine::lemma_jsr_rts_steps(self@);
    }

    /// Runs one fetch-decode-execute cycle.
    ///
    /// An opcode byte with no table entry gives `UnknownOpcode` with that byte
    /// and the address it was fetched from, and leaves the processor as it was.
    pub fn step(&mut self) -> (r: Result<(), StepError>)
        ensures
            (r, final(self)@) == machine::step(old(self)@),
    {
        let pc = self.reg.pc;
        let opcode = self.fetch_opcode();
        match lookup(opcode) {
            None => {
                self.reg.pc = pc;
                Err(StepError::UnknownOpcode { opcode, pc })
            },
            Some(info) => {
                let addr = self.fetch_address(&info);
                self.execute(addr, &info.name, &info.mode);
                Ok(())
            },
        }
    }
}

} // verus!
