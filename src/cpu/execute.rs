//! The instruction handlers, and the dispatch from mnemonic to handler.

use vstd::prelude::*;

use super::Cpu;
use crate::machine::{
    self, load_a, load_x, load_y, operand, with_cell, with_p, with_pc, Machine, BREAK_VECTOR,
    STACK_BASE,
};
use crate::memory::{wrap8, Memory};
use crate::opcode::{AddressingMode, Mnemonic};
use crate::register::{flag, with_flag, RegisterModel, Status};

verus! {

impl<M: Memory> Cpu<M> {
    /// Carries out the instruction `name`, addressing in `mode`, on the
    /// effective address `addr`.
    pub fn execute(&mut self, addr: u16, name: &Mnemonic, mode: &AddressingMode)
        ensures
            final(self)@ == machine::execute(old(self)@, addr, *name, *mode),
    {
        match name {
            Mnemonic::Adc => self.adc(addr),
            Mnemonic::And => self.and(addr),
            Mnemonic::Asl => if *mode == AddressingMode::Accumulator {
                self.asl_acc()
            } else {
                self.asl(addr)
            },
            Mnemonic::Bcc => self.bcc(addr),
            Mnemonic::Bcs => self.bcs(addr),
            Mnemonic::Beq => self.beq(addr),
            Mnemonic::Bit => self.bit(addr),
            Mnemonic::Bmi => self.bmi(addr),
            Mnemonic::Bne => self.bne(addr),
            Mnemonic::Bpl => self.bpl(addr),
            Mnemonic::Brk => self.brk(),
            Mnemonic::Bvc => self.bvc(addr),
            Mnemonic::Bvs => self.bvs(addr),
            Mnemonic::Clc => self.clc(),
            Mnemonic::Cld => self.cld(),
            Mnemonic::Cli => self.cli(),
            Mnemonic::Clv => self.clv(),
            Mnemonic::Cmp => self.cmp(addr),
            Mnemonic::Cpx => self.cpx(addr),
            Mnemonic::Cpy => self.cpy(addr),
            Mnemonic::Dec => self.dec(addr),
            Mnemonic::Dex => self.dex(),
            Mnemonic::Dey => self.dey(),
            Mnemonic::Eor => self.eor(addr),
            Mnemonic::Inc => self.inc(addr),
            Mnemonic::Inx => self.inx(),
            Mnemonic::Iny => self.iny(),
            Mnemonic::Jmp => self.jmp(addr),
            Mnemonic::Jsr => self.jsr(addr),
            Mnemonic::Lda => self.lda(addr),
            Mnemonic::Ldx => self.ldx(addr),
            Mnemonic::Ldy => self.ldy(addr),
            Mnemonic::Lsr => if *mode == AddressingMode::Accumulator {
                self.lsr_acc()
            } else {
                self.lsr(addr)
            },
            Mnemonic::Nop => self.nop(),
            Mnemonic::Ora => self.ora(addr),
            Mnemonic::Pha => self.pha(),
            Mnemonic::Php => self.php(),
            Mnemonic::Pla => self.pla(),
            Mnemonic::Plp => self.plp(),
            Mnemonic::Rol => if *mode == AddressingMode::Accumulator {
                self.rol_acc()
            } else {
                self.rol(addr)
            },
            Mnemonic::Ror => if *mode == AddressingMode::Accumulator {
                self.ror_acc()
            } else {
                self.ror(addr)
            },
            Mnemonic::Rti => self.rti(),
            Mnemonic::Rts => self.rts(),
            Mnemonic::Sbc => self.sbc(addr),
            Mnemonic::Sec => self.sec(),
            Mnemonic::Sed => self.sed(),
            Mnemonic::Sei => self.sei(),
            Mnemonic::Sta => self.sta(addr),
            Mnemonic::Stx => self.stx(addr),
            Mnemonic::Sty => self.sty(addr),
            Mnemonic::Tax => self.tax(),
            Mnemonic::Tay => self.tay(),
            Mnemonic::Tsx => self.tsx(),
            Mnemonic::Txa => self.txa(),
            Mnemonic::Txs => self.txs(),
            Mnemonic::Tya => self.tya(),
        }
    }

    fn adc(&mut self, addr: u16)
        ensures
            final(self)@ == machine::adc(old(self)@, addr),
    {
        let a = self.reg.a;
        let value = self.mem.read_byte(addr);
        let carry: u8 = if self.reg.p.contains(Status::CARRY) { 1 } else { 0 };
        let sum: u16 = a as u16 + value as u16 + carry as u16;
        let result = (sum % 256) as u8;
        let overflow = (a >= 0x80) == (value >= 0x80) && (a >= 0x80) != (result >= 0x80);
        self.reg.a = result;
        self.reg.p.set(Status::CARRY, sum > 0xFF);
        self.reg.p.set(Status::OVERFLOW, overflow);
        self.reg.p.update_zero_and_negative(result);
    }

    fn sbc(&mut self, addr: u16)
        ensures
            final(self)@ == machine::sbc(old(self)@, addr),
    {
        let a = self.reg.a;
        let value = self.mem.read_byte(addr);
        let borrow: u8 = if self.reg.p.contains(Status::CARRY) { 0 } else { 1 };
        let taken: u16 = value as u16 + borrow as u16;
        let no_borrow = a as u16 >= taken;
        let result = a.wrapping_sub(value).wrapping_sub(borrow);
        let overflow = (a >= 0x80) == (value >= 0x80) && (a >= 0x80) != (result >= 0x80);
        self.reg.a = result;
        self.reg.p.set(Status::CARRY, no_borrow);
        self.reg.p.set(Status::OVERFLOW, overflow);
        self.reg.p.update_zero_and_negative(result);
    }

    fn and(&mut self, addr: u16)
        ensures
            final(self)@ == machine::and(old(self)@, addr),
    {
        self.reg.a = self.reg.a & self.mem.read_byte(addr);
        self.reg.p.update_zero_and_negative(self.reg.a);
    }

    fn ora(&mut self, addr: u16)
        ensures
            final(self)@ == machine::ora(old(self)@, addr),
    {
        self.reg.a = self.reg.a | self.mem.read_byte(addr);
        self.reg.p.update_zero_and_negative(self.reg.a);
    }

    fn eor(&mut self, addr: u16)
        ensures
            final(self)@ == machine::eor(old(self)@, addr),
    {
        self.reg.a = self.reg.a ^ self.mem.read_byte(addr);
        self.reg.p.update_zero_and_negative(self.reg.a);
    }

    fn asl_acc(&mut self)
        ensures
            final(self)@ == machine::asl_acc(old(self)@),
    {
        let value = self.reg.a;
        let is_carry = value >= 0x80;
        let result = (value as u16 * 2 % 256) as u8;
        self.reg.a = result;
        self.reg.p.set(Status::CARRY, is_carry);
        self.reg.p.update_zero_and_negative(result);
    }

    fn lsr_acc(&mut self)
        ensures
            final(self)@ == machine::lsr_acc(old(self)@),
    {
        let value = self.reg.a;
        let is_carry = value % 2 == 1;
        let result = value / 2;
        self.reg.a = result;
        self.reg.p.set(Status::CARRY, is_carry);
        self.reg.p.update_zero_and_negative(result);
    }

    fn rol_acc(&mut self)
        ensures
            final(self)@ == machine::rol_acc(old(self)@),
    {
        let value = self.reg.a;
        let is_carry = value >= 0x80;
        let carry: u16 = if self.reg.p.contains(Status::CARRY) { 1 } else { 0 };
        let result = ((value as u16 * 2 + carry) % 256) as u8;
        self.reg.a = result;
        self.reg.p.set(Status::CARRY, is_carry);
        self.reg.p.update_zero_and_negative(result);
    }

    fn ror_acc(&mut self)
        ensures
            final(self)@ == machine::ror_acc(old(self)@),
    {
        let value = self.reg.a;
        let is_carry = value % 2 == 1;
        let carry: u16 = if self.reg.p.contains(Status::CARRY) { 1 } else { 0 };
        let result = (value as u16 / 2 + 128 * carry) as u8;
        self.reg.a = result;
        self.reg.p.set(Status::CARRY, is_carry);
        self.reg.p.update_zero_and_negative(result);
    }

    fn asl(&mut self, addr: u16)
        ensures
            final(self)@ == machine::asl(old(self)@, addr),
    {
        let value = self.mem.read_byte(addr);
        let is_carry = value >= 0x80;
        let result = (value as u16 * 2 % 256) as u8;
        self.mem.write_byte(addr, result);
        self.reg.p.set(Status::CARRY, is_carry);
        self.reg.p.update_zero_and_negative(result);
    }

    fn lsr(&mut self, addr: u16)
        ensures
            final(self)@ == machine::lsr(old(self)@, addr),
    {
        let value = self.mem.read_byte(addr);
        let is_carry = value % 2 == 1;
        let result = value / 2;
        self.mem.write_byte(addr, result);
        self.reg.p.set(Status::CARRY, is_carry);
        self.reg.p.update_zero_and_negative(result);
    }

    fn rol(&mut self, addr: u16)
        ensures
            final(self)@ == machine::rol(old(self)@, addr),
    {
        let value = self.mem.read_byte(addr);
        let is_carry = value >= 0x80;
        let carry: u16 = if self.reg.p.contains(Status::CARRY) { 1 } else { 0 };
        let result = ((value as u16 * 2 + carry) % 256) as u8;
        self.mem.write_byte(addr, result);
        self.reg.p.set(Status::CARRY, is_carry);
        self.reg.p.update_zero_and_negative(result);
    }

    fn ror(&mut self, addr: u16)
        ensures
            final(self)@ == machine::ror(old(self)@, addr),
    {
        let value = self.mem.read_byte(addr);
        let is_carry = value % 2 == 1;
        let carry: u16 = if self.reg.p.contains(Status::CARRY) { 1 } else { 0 };
        let result = (value as u16 / 2 + 128 * carry) as u8;
        self.mem.write_byte(addr, result);
        self.reg.p.set(Status::CARRY, is_carry);
        self.reg.p.update_zero_and_negative(result);
    }

    fn bcc(&mut self, addr: u16)
        ensures
            final(self)@ == machine::branch(old(self)@, addr, !flag(old(self)@.reg.p, Status::CARRY)),
    {
        let taken = !self.reg.p.contains(Status::CARRY);
        self.branch(addr, taken);
    }

    fn bcs(&mut self, addr: u16)
        ensures
            final(self)@ == machine::branch(old(self)@, addr, flag(old(self)@.reg.p, Status::CARRY)),
    {
        let taken = self.reg.p.contains(Status::CARRY);
        self.branch(addr, taken);
    }

    fn beq(&mut self, addr: u16)
        ensures
            final(self)@ == machine::branch(old(self)@, addr, flag(old(self)@.reg.p, Status::ZERO)),
    {
        let taken = self.reg.p.contains(Status::ZERO);
        self.branch(addr, taken);
    }

    fn bmi(&mut self, addr: u16)
        ensures
            final(self)@ == machine::branch(old(self)@, addr, flag(old(self)@.reg.p, Status::NEGATIVE)),
    {
        let taken = self.reg.p.contains(Status::NEGATIVE);
        self.branch(addr, taken);
    }

    fn bne(&mut self, addr: u16)
        ensures
            final(self)@ == machine::branch(old(self)@, addr, !flag(old(self)@.reg.p, Status::ZERO)),
    {
        let taken = !self.reg.p.contains(Status::ZERO);
        self.branch(addr, taken);
    }

    fn bpl(&mut self, addr: u16)
        ensures
            final(self)@ == machine::branch(old(self)@, addr, !flag(old(self)@.reg.p, Status::NEGATIVE)),
    {
        let taken = !self.reg.p.contains(Status::NEGATIVE);
        self.branch(addr, taken);
    }

    fn bvc(&mut self, addr: u16)
        ensures
            final(self)@ == machine::branch(old(self)@, addr, !flag(old(self)@.reg.p, Status::OVERFLOW)),
    {
        let taken = !self.reg.p.contains(Status::OVERFLOW);
        self.branch(addr, taken);
    }

    fn bvs(&mut self, addr: u16)
        ensures
            final(self)@ == machine::branch(old(self)@, addr, flag(old(self)@.reg.p, Status::OVERFLOW)),
    {
        let taken = self.reg.p.contains(Status::OVERFLOW);
        self.branch(addr, taken);
    }

    fn bit(&mut self, addr: u16)
        ensures
            final(self)@ == machine::bit(old(self)@, addr),
    {
        let value = self.mem.read_byte(addr);
        self.reg.p.set(Status::NEGATIVE, value & 0x80 != 0);
        self.reg.p.set(Status::OVERFLOW, value & 0x40 != 0);
        self.reg.p.set(Status::ZERO, value & self.reg.a == 0);
    }

    fn brk(&mut self)
        ensures
            final(self)@ == machine::brk(old(self)@),
    {
        if !self.reg.p.contains(Status::INTERRUPT) {
            let pc = self.reg.pc;
            self.push_word(pc);
            self.reg.p.insert(Status::BREAK);
            let p = self.reg.p.as_bits();
            self.push_byte(p);
            self.reg.pc = self.mem.read_word(BREAK_VECTOR);
        }
    }

    fn clc(&mut self)
        ensures
            final(self)@ == with_p(old(self)@, with_flag(old(self)@.reg.p, Status::CARRY, false)),
    {
        self.reg.p.remove(Status::CARRY);
    }

    fn cld(&mut self)
        ensures
            final(self)@ == with_p(old(self)@, with_flag(old(self)@.reg.p, Status::DECIMAL, false)),
    {
        self.reg.p.remove(Status::DECIMAL);
    }

    fn cli(&mut self)
        ensures
            final(self)@ == with_p(old(self)@, with_flag(old(self)@.reg.p, Status::INTERRUPT, false)),
    {
        self.reg.p.remove(Status::INTERRUPT);
    }

    fn clv(&mut self)
        ensures
            final(self)@ == with_p(old(self)@, with_flag(old(self)@.reg.p, Status::OVERFLOW, false)),
    {
        self.reg.p.remove(Status::OVERFLOW);
    }

    fn sec(&mut self)
        ensures
            final(self)@ == with_p(old(self)@, with_flag(old(self)@.reg.p, Status::CARRY, true)),
    {
        self.reg.p.insert(Status::CARRY);
    }

    fn sed(&mut self)
        ensures
            final(self)@ == with_p(old(self)@, with_flag(old(self)@.reg.p, Status::DECIMAL, true)),
    {
        self.reg.p.insert(Status::DECIMAL);
    }

    fn sei(&mut self)
        ensures
            final(self)@ == with_p(old(self)@, with_flag(old(self)@.reg.p, Status::INTERRUPT, true)),
    {
        self.reg.p.insert(Status::INTERRUPT);
    }

    fn cmp(&mut self, addr: u16)
        ensures
            final(self)@ == machine::compare(old(self)@, old(self)@.reg.a, addr),
    {
        let value = self.mem.read_byte(addr);
        let reg = self.reg.a;
        self.reg.p.set(Status::CARRY, reg >= value);
        self.reg.p.update_zero_and_negative(reg.wrapping_sub(value));
    }

    fn cpx(&mut self, addr: u16)
        ensures
            final(self)@ == machine::compare(old(self)@, old(self)@.reg.x, addr),
    {
        let value = self.mem.read_byte(addr);
        let reg = self.reg.x;
        self.reg.p.set(Status::CARRY, reg >= value);
        self.reg.p.update_zero_and_negative(reg.wrapping_sub(value));
    }

    fn cpy(&mut self, addr: u16)
        ensures
            final(self)@ == machine::compare(old(self)@, old(self)@.reg.y, addr),
    {
        let value = self.mem.read_byte(addr);
        let reg = self.reg.y;
        self.reg.p.set(Status::CARRY, reg >= value);
        self.reg.p.update_zero_and_negative(reg.wrapping_sub(value));
    }

    fn dec(&mut self, addr: u16)
        ensures
            final(self)@ == machine::step_cell(old(self)@, addr, wrap8(operand(old(self)@, addr) - 1)),
    {
        let result = self.mem.read_byte(addr).wrapping_sub(1);
        self.mem.write_byte(addr, result);
        self.reg.p.update_zero_and_negative(result);
    }

    fn inc(&mut self, addr: u16)
        ensures
            final(self)@ == machine::step_cell(old(self)@, addr, wrap8(operand(old(self)@, addr) + 1)),
    {
        let result = self.mem.read_byte(addr).wrapping_add(1);
        self.mem.write_byte(addr, result);
        self.reg.p.update_zero_and_negative(result);
    }

    fn dex(&mut self)
        ensures
            final(self)@ == load_x(old(self)@, wrap8(old(self)@.reg.x - 1)),
    {
        self.reg.x = self.reg.x.wrapping_sub(1);
        self.reg.p.update_zero_and_negative(self.reg.x);
    }

    fn dey(&mut self)
        ensures
            final(self)@ == load_y(old(self)@, wrap8(old(self)@.reg.y - 1)),
    {
        self.reg.y = self.reg.y.wrapping_sub(1);
        self.reg.p.update_zero_and_negative(self.reg.y);
    }

    fn inx(&mut self)
        ensures
            final(self)@ == load_x(old(self)@, wrap8(old(self)@.reg.x + 1)),
    {
        self.reg.x = self.reg.x.wrapping_add(1);
        self.reg.p.update_zero_and_negative(self.reg.x);
    }

    fn iny(&mut self)
        ensures
            final(self)@ == load_y(old(self)@, wrap8(old(self)@.reg.y + 1)),
    {
        self.reg.y = self.reg.y.wrapping_add(1);
        self.reg.p.update_zero_and_negative(self.reg.y);
    }

    fn jmp(&mut self, addr: u16)
        ensures
            final(self)@ == with_pc(old(self)@, addr),
    {
        self.reg.pc = addr;
    }

    fn jsr(&mut self, addr: u16)
        ensures
            final(self)@ == machine::jsr(old(self)@, addr),
    {
        let ret = self.reg.pc.wrapping_sub(1);
        self.push_word(ret);
        self.reg.pc = addr;
    }

    fn lda(&mut self, addr: u16)
        ensures
            final(self)@ == load_a(old(self)@, operand(old(self)@, addr)),
    {
        self.reg.a = self.mem.read_byte(addr);
        self.reg.p.update_zero_and_negative(self.reg.a);
    }

    fn ldx(&mut self, addr: u16)
        ensures
            final(self)@ == load_x(old(self)@, operand(old(self)@, addr)),
    {
        self.reg.x = self.mem.read_byte(addr);
        self.reg.p.update_zero_and_negative(self.reg.x);
    }

    fn ldy(&mut self, addr: u16)
        ensures
            final(self)@ == load_y(old(self)@, operand(old(self)@, addr)),
    {
        self.reg.y = self.mem.read_byte(addr);
        self.reg.p.update_zero_and_negative(self.reg.y);
    }

    fn nop(&mut self)
        ensures
            final(self)@ == old(self)@,
    {
    }

    fn pha(&mut self)
        ensures
            final(self)@ == machine::push_byte(old(self)@, old(self)@.reg.a),
    {
        let a = self.reg.a;
        self.push_byte(a);
    }

    fn php(&mut self)
        ensures
            final(self)@ == machine::push_byte(old(self)@, old(self)@.reg.p | Status::ALWAYS),
    {
        let p = self.reg.p.as_bits();
        self.push_byte(p);
    }

    fn pla(&mut self)
        ensures
            final(self)@ == machine::pla(old(self)@),
    {
        self.reg.a = self.pull_byte();
        self.reg.p.update_zero_and_negative(self.reg.a);
    }

    fn plp(&mut self)
        ensures
            final(self)@ == machine::plp(old(self)@),
    {
        let bits = self.pull_byte();
        self.reg.p = Status::from_bits(bits);
    }

    fn rti(&mut self)
        ensures
            final(self)@ == machine::rti(old(self)@),
    {
        let bits = self.pull_byte();
        self.reg.p = Status::from_bits(bits);
        self.reg.pc = self.pull_word();
    }

    fn rts(&mut self)
        ensures
            final(self)@ == machine::rts(old(self)@),
    {
        self.reg.pc = self.pull_word().wrapping_add(1);
    }

    fn sta(&mut self, addr: u16)
        ensures
            final(self)@ == with_cell(old(self)@, addr, old(self)@.reg.a),
    {
        let value = self.reg.a;
        self.mem.write_byte(addr, value);
    }

    fn stx(&mut self, addr: u16)
        ensures
            final(self)@ == with_cell(old(self)@, addr, old(self)@.reg.x),
    {
        let value = self.reg.x;
        self.mem.write_byte(addr, value);
    }

    fn sty(&mut self, addr: u16)
        ensures
            final(self)@ == with_cell(old(self)@, addr, old(self)@.reg.y),
    {
        let value = self.reg.y;
        self.mem.write_byte(addr, value);
    }

    fn tax(&mut self)
        ensures
            final(self)@ == load_x(old(self)@, old(self)@.reg.a),
    {
        self.reg.x = self.reg.a;
        self.reg.p.update_zero_and_negative(self.reg.x);
    }

    fn tay(&mut self)
        ensures
            final(self)@ == load_y(old(self)@, old(self)@.reg.a),
    {
        self.reg.y = self.reg.a;
        self.reg.p.update_zero_and_negative(self.reg.y);
    }

    fn tsx(&mut self)
        ensures
            final(self)@ == load_x(old(self)@, old(self)@.reg.s),
    {
        self.reg.x = self.reg.s;
        self.reg.p.update_zero_and_negative(self.reg.x);
    }

    fn txa(&mut self)
        ensures
            final(self)@ == load_a(old(self)@, old(self)@.reg.x),
    {
        self.reg.a = self.reg.x;
        self.reg.p.update_zero_and_negative(self.reg.a);
    }

    fn tya(&mut self)
        ensures
            final(self)@ == load_a(old(self)@, old(self)@.reg.y),
    {
        self.reg.a = self.reg.y;
        self.reg.p.update_zero_and_negative(self.reg.a);
    }

    fn txs(&mut self)
        ensures
            final(self)@ == (Machine { reg: RegisterModel { s: old(self)@.reg.x, ..old(self)@.reg }, ..old(self)@ }),
    {
        self.reg.s = self.reg.x;
    }

    fn branch(&mut self, addr: u16, taken: bool)
        ensures
            final(self)@ == machine::branch(old(self)@, addr, taken),
    {
        if taken {
            self.reg.pc = addr;
        }
    }

    /// Writes `byte` at the stack cell, then moves the stack pointer down.
    pub fn push_byte(&mut self, byte: u8)
        ensures
            final(self)@ == machine::push_byte(old(self)@, byte),
    {
        self.mem.write_byte(STACK_BASE + self.reg.s as u16, byte);
        self.reg.s = self.reg.s.wrapping_sub(1);
    }

    /// Moves the stack pointer up, then reads the byte at the stack cell.
    pub fn pull_byte(&mut self) -> (r: u8)
        ensures
            (r, final(self)@) == machine::pull_byte(old(self)@),
    {
        self.reg.s = self.reg.s.wrapping_add(1);
        self.mem.read_byte(STACK_BASE + self.reg.s as u16)
    }

    /// Pushes the low byte of `word`, then the high byte.
    pub fn push_word(&mut self, word: u16)
        ensures
            final(self)@ == machine::push_word(old(self)@, word),
    {
        self.push_byte((word % 256) as u8);
        self.push_byte((word / 256) as u8);
    }

    /// Pulls the high byte, then the low byte.
    pub fn pull_word(&mut self) -> (r: u16)
        ensures
            (r, final(self)@) == machine::pull_word(old(self)@),
    {
        let hi = self.pull_byte();
        let lo = self.pull_byte();
        lo as u16 + hi as u16 * 256
    }
}

} // verus!
