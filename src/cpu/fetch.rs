//! Fetching the opcode and resolving the effective address.

use vstd::prelude::*;

use super::Cpu;
use crate::machine::{self, signed, with_pc};
use crate::memory::{word_at, wrap16, wrap8, Memory};
use crate::opcode::{AddressingMode, OpcodeInfo};

verus! {

impl<M: Memory> Cpu<M> {
    /// Reads the opcode byte at the program counter and moves past it.
    pub fn fetch_opcode(&mut self) -> (r: u8)
        ensures
            r == old(self)@.mem[old(self).reg.pc as int],
            final(self)@ == with_pc(old(self)@, wrap16(old(self).reg.pc + 1)),
    {
        self.fetch_byte()
    }

    /// Consumes the operand bytes of `info.mode` and returns the effective address.
    #[verifier::spinoff_prover]
    pub fn fetch_address(&mut self, info: &OpcodeInfo) -> (r: u16)
        ensures
            r == machine::resolve(old(self)@, info.mode).0,
            final(self)@ == with_pc(old(self)@, machine::resolve(old(self)@, info.mode).1),
    {
        let ghost m = self@;
        let ghost w = word_at(m.mem, m.reg.pc);
        let ghost b = m.mem[m.reg.pc as int];
        match info.mode {
            AddressingMode::Accumulator | AddressingMode::Implied => 0,
            AddressingMode::Absolute => {
                let r = self.fetch_absolute_with_index(0);
                assert(wrap16(w + 0) == w);
                r
            },
            AddressingMode::AbsoluteX => {
                let x = self.reg.x;
                self.fetch_absolute_with_index(x)
            },
            AddressingMode::AbsoluteY => {
                let y = self.reg.y;
                self.fetch_absolute_with_index(y)
            },
            AddressingMode::Immediate => self.fetch_immediate(),
            AddressingMode::Indirect => self.fetch_indirect(),
            AddressingMode::IndirectX => {
                let x = self.reg.x;
                let r = self.fetch_indirect_with_index((x, 0));
                assert(wrap16(word_at(m.mem, wrap8(b + x) as u16) + 0) == word_at(m.mem, wrap8(b + x) as u16));
                r
            },
            AddressingMode::IndirectY => {
                let y = self.reg.y;
                let r = self.fetch_indirect_with_index((0, y));
                assert(wrap8(b + 0) == b);
                r
            },
            AddressingMode::Relative => self.fetch_relative(),
            AddressingMode::ZeroPage => {
                let r = self.fetch_zeropage_with_index(0);
                assert(wrap8(b + 0) == b);
                r
            },
            AddressingMode::ZeroPageX => {
                let x = self.reg.x;
                self.fetch_zeropage_with_index(x)
            },
            AddressingMode::ZeroPageY => {
                let y = self.reg.y;
                self.fetch_zeropage_with_index(y)
            },
        }
    }

    fn fetch_byte(&mut self) -> (r: u8)
        ensures
            r == old(self)@.mem[old(self).reg.pc as int],
            final(self)@ == with_pc(old(self)@, wrap16(old(self).reg.pc + 1)),
    {
        let r = self.mem.read_byte(self.reg.pc);
        self.reg.pc = self.reg.pc.wrapping_add(1);
        r
    }

    fn fetch_word(&mut self) -> (r: u16)
        ensures
            r == word_at(old(self)@.mem, old(self).reg.pc),
            final(self)@ == with_pc(old(self)@, wrap16(old(self).reg.pc + 2)),
    {
        let lo = self.fetch_byte();
        let hi = self.fetch_byte();
        lo as u16 + hi as u16 * 256
    }

    fn fetch_absolute_with_index(&mut self, index: u8) -> (r: u16)
        ensures
            r == wrap16(word_at(old(self)@.mem, old(self).reg.pc) + index),
            final(self)@ == with_pc(old(self)@, wrap16(old(self).reg.pc + 2)),
    {
        self.fetch_word().wrapping_add(index as u16)
    }

    fn fetch_immediate(&mut self) -> (r: u16)
        ensures
            r == old(self).reg.pc,
            final(self)@ == with_pc(old(self)@, wrap16(old(self).reg.pc + 1)),
    {
        let addr = self.reg.pc;
        let _ = self.fetch_byte();
        addr
    }

    fn fetch_indirect(&mut self) -> (r: u16)
        ensures
            r == word_at(old(self)@.mem, word_at(old(self)@.mem, old(self).reg.pc)),
            final(self)@ == with_pc(old(self)@, wrap16(old(self).reg.pc + 2)),
    {
        let addr = self.fetch_word();
        self.mem.read_word(addr)
    }

    /// `index.0` is added to the pointer byte within page zero, `index.1` to
    /// the word the pointer leads to.
    fn fetch_indirect_with_index(&mut self, index: (u8, u8)) -> (r: u16)
        ensures
            r == wrap16(
                word_at(
                    old(self)@.mem,
                    wrap8(old(self)@.mem[old(self).reg.pc as int] + index.0) as u16,
                ) + index.1,
            ),
            final(self)@ == with_pc(old(self)@, wrap16(old(self).reg.pc + 1)),
    {
        let pointer = self.fetch_byte().wrapping_add(index.0) as u16;
        self.mem.read_word(pointer).wrapping_add(index.1 as u16)
    }

    fn fetch_relative(&mut self) -> (r: u16)
        ensures
            r == wrap16(wrap16(old(self).reg.pc + 1) + signed(old(self)@.mem[old(self).reg.pc as int])),
            final(self)@ == with_pc(old(self)@, wrap16(old(self).reg.pc + 1)),
    {
        let offset = self.fetch_byte();
        if offset >= 0x80 {
            self.reg.pc.wrapping_sub(0x100 - offset as u16)
        } else {
            self.reg.pc.wrapping_add(offset as u16)
        }
    }

    fn fetch_zeropage_with_index(&mut self, index: u8) -> (r: u16)
        ensures
            r == wrap8(old(self)@.mem[old(self).reg.pc as int] + index) as u16,
            final(self)@ == with_pc(old(self)@, wrap16(old(self).reg.pc + 1)),
    {
        self.fetch_byte().wrapping_add(index) as u16
    }
}

} // verus!
