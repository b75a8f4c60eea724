//! The processor as plain values: what each addressing mode resolves to,
//! what each instruction does, and what one step does.

use vstd::prelude::*;

use crate::cpu::StepError;
use crate::memory::{le_word, word_at, wrap16, wrap8};
use crate::opcode::{opcode_entry, AddressingMode, Mnemonic, OpcodeInfo};
use crate::register::{flag, with_flag, with_zn, RegisterModel, Status};

verus! {

/// Registers and memory cells.
pub struct Machine {
    pub reg: RegisterModel,
    pub mem: Seq<u8>,
}

/// First address of the stack page.
pub const STACK_BASE: u16 = 0x0100;

/// Where BRK finds the address it transfers control to.
pub const BREAK_VECTOR: u16 = 0xFFFE;

/// The address of the stack cell that the stack pointer `s` indexes.
pub open spec fn stack_cell(s: u8) -> int {
    STACK_BASE + s
}

/// Whether bit 7 of `v` is set.
pub open spec fn sign(v: u8) -> bool {
    v >= 0x80
}

/// `v` read as a two's-complement byte.
pub open spec fn signed(v: u8) -> int {
    if v >= 0x80 {
        v - 256
    } else {
        v as int
    }
}

/// 1 if CARRY reads as set, else 0.
pub open spec fn carry_in(m: Machine) -> int {
    if flag(m.reg.p, Status::CARRY) {
        1
    } else {
        0
    }
}

/// The byte at `addr`.
pub open spec fn operand(m: Machine, addr: u16) -> u8 {
    m.mem[addr as int]
}

/// The program counter set to `pc`.
pub open spec fn with_pc(m: Machine, pc: u16) -> Machine {
    Machine { reg: RegisterModel { pc, ..m.reg }, ..m }
}

/// The stored status byte set to `p`.
pub open spec fn with_p(m: Machine, p: u8) -> Machine {
    Machine { reg: RegisterModel { p, ..m.reg }, ..m }
}

/// `v` stored at `addr`.
pub open spec fn with_cell(m: Machine, addr: u16, v: u8) -> Machine {
    Machine { mem: m.mem.update(addr as int, v), ..m }
}

/// `v` loaded into the accumulator, with ZERO and NEGATIVE from it.
pub open spec fn load_a(m: Machine, v: u8) -> Machine {
    Machine { reg: RegisterModel { a: v, p: with_zn(m.reg.p, v), ..m.reg }, ..m }
}

/// `v` loaded into X, with ZERO and NEGATIVE from it.
pub open spec fn load_x(m: Machine, v: u8) -> Machine {
    Machine { reg: RegisterModel { x: v, p: with_zn(m.reg.p, v), ..m.reg }, ..m }
}

/// `v` loaded into Y, with ZERO and NEGATIVE from it.
pub open spec fn load_y(m: Machine, v: u8) -> Machine {
    Machine { reg: RegisterModel { y: v, p: with_zn(m.reg.p, v), ..m.reg }, ..m }
}

// ---- the stack ----

/// `b` written at the stack cell, then the stack pointer moved down.
pub open spec fn push_byte(m: Machine, b: u8) -> Machine {
    Machine {
        reg: RegisterModel { s: wrap8(m.reg.s - 1), ..m.reg },
        mem: m.mem.update(stack_cell(m.reg.s), b),
    }
}

/// The stack pointer moved up, then the byte at the stack cell read.
pub open spec fn pull_byte(m: Machine) -> (u8, Machine) {
    let s = wrap8(m.reg.s + 1);
    (m.mem[stack_cell(s)], Machine { reg: RegisterModel { s, ..m.reg }, ..m })
}

/// The low byte of `w` pushed, then the high byte.
pub open spec fn push_word(m: Machine, w: u16) -> Machine {
    push_byte(push_byte(m, (w % 256) as u8), (w / 256) as u8)
}

/// The high byte pulled, then the low byte.
pub open spec fn pull_word(m: Machine) -> (u16, Machine) {
    let (hi, m1) = pull_byte(m);
    let (lo, m2) = pull_byte(m1);
    (le_word(lo, hi), m2)
}

// ---- addressing ----

/// The effective address that `mode` resolves to from the bytes at `pc`,
/// and the program counter after the operand bytes.
pub open spec fn resolve(m: Machine, mode: AddressingMode) -> (u16, u16) {
    let pc = m.reg.pc;
    let b = m.mem[pc as int];
    let w = word_at(m.mem, pc);
    let next1 = wrap16(pc + 1);
    let next2 = wrap16(pc + 2);
    match mode {
        AddressingMode::Accumulator | AddressingMode::Implied => (0, pc),
        AddressingMode::Immediate => (pc, next1),
        AddressingMode::Absolute => (w, next2),
        AddressingMode::AbsoluteX => (wrap16(w + m.reg.x), next2),
        AddressingMode::AbsoluteY => (wrap16(w + m.reg.y), next2),
        AddressingMode::ZeroPage => (b as u16, next1),
        AddressingMode::ZeroPageX => (wrap8(b + m.reg.x) as u16, next1),
        AddressingMode::ZeroPageY => (wrap8(b + m.reg.y) as u16, next1),
        AddressingMode::Relative => (wrap16(next1 + signed(b)), next1),
        AddressingMode::Indirect => (word_at(m.mem, w), next2),
        AddressingMode::IndirectX => (word_at(m.mem, wrap8(b + m.reg.x) as u16), next1),
        AddressingMode::IndirectY => (wrap16(word_at(m.mem, b as u16) + m.reg.y), next1),
    }
}

// ---- instructions ----

/// Adds the operand and the carry to the accumulator. CARRY is the unsigned
/// carry out; OVERFLOW is set when the accumulator and the operand agree in
/// sign and the result does not.
pub open spec fn adc(m: Machine, addr: u16) -> Machine {
    let a = m.reg.a;
    let o = operand(m, addr);
    let sum = a + o + carry_in(m);
    let r = wrap8(sum);
    let p = with_flag(m.reg.p, Status::CARRY, sum > 255);
    let p = with_flag(p, Status::OVERFLOW, sign(a) == sign(o) && sign(a) != sign(r));
    Machine { reg: RegisterModel { a: r, p: with_zn(p, r), ..m.reg }, ..m }
}

/// Subtracts the operand and the borrow (the complement of CARRY) from the
/// accumulator. CARRY is set when no borrow occurred. OVERFLOW follows the
/// same rule as ADC: set when the accumulator and the operand agree in sign
/// and the result does not.
pub open spec fn sbc(m: Machine, addr: u16) -> Machine {
    let a = m.reg.a;
    let o = operand(m, addr);
    let borrow = 1 - carry_in(m);
    let diff = a - o - borrow;
    let r = wrap8(diff);
    let p = with_flag(m.reg.p, Status::CARRY, diff >= 0);
    let p = with_flag(p, Status::OVERFLOW, sign(a) == sign(o) && sign(a) != sign(r));
    Machine { reg: RegisterModel { a: r, p: with_zn(p, r), ..m.reg }, ..m }
}

/// The operand ANDed into the accumulator.
pub open spec fn and(m: Machine, addr: u16) -> Machine {
    load_a(m, m.reg.a & operand(m, addr))
}

/// The operand ORed into the accumulator.
pub open spec fn ora(m: Machine, addr: u16) -> Machine {
    load_a(m, m.reg.a | operand(m, addr))
}

/// The operand XORed into the accumulator.
pub open spec fn eor(m: Machine, addr: u16) -> Machine {
    load_a(m, m.reg.a ^ operand(m, addr))
}

/// A shift or rotate of the accumulator to `r`, with `carry` shifted out.
pub open spec fn shift_acc(m: Machine, r: u8, carry: bool) -> Machine {
    Machine {
        reg: RegisterModel { a: r, p: with_zn(with_flag(m.reg.p, Status::CARRY, carry), r), ..m.reg },
        ..m
    }
}

/// A shift or rotate of the cell at `addr` to `r`, with `carry` shifted out.
pub open spec fn shift_cell(m: Machine, addr: u16, r: u8, carry: bool) -> Machine {
    Machine {
        reg: RegisterModel { p: with_zn(with_flag(m.reg.p, Status::CARRY, carry), r), ..m.reg },
        mem: m.mem.update(addr as int, r),
    }
}

/// The accumulator shifted left; bit 7 goes to CARRY.
pub open spec fn asl_acc(m: Machine) -> Machine {
    shift_acc(m, wrap8(m.reg.a * 2), sign(m.reg.a))
}

/// The cell at `addr` shifted left; bit 7 goes to CARRY.
pub open spec fn asl(m: Machine, addr: u16) -> Machine {
    let o = operand(m, addr);
    shift_cell(m, addr, wrap8(o * 2), sign(o))
}

/// The accumulator shifted right; bit 0 goes to CARRY.
pub open spec fn lsr_acc(m: Machine) -> Machine {
    shift_acc(m, m.reg.a / 2, m.reg.a % 2 == 1)
}

/// The cell at `addr` shifted right; bit 0 goes to CARRY.
pub open spec fn lsr(m: Machine, addr: u16) -> Machine {
    let o = operand(m, addr);
    shift_cell(m, addr, o / 2, o % 2 == 1)
}

/// The accumulator rotated left through CARRY.
pub open spec fn rol_acc(m: Machine) -> Machine {
    shift_acc(m, wrap8(m.reg.a * 2 + carry_in(m)), sign(m.reg.a))
}

/// The cell at `addr` rotated left through CARRY.
pub open spec fn rol(m: Machine, addr: u16) -> Machine {
    let o = operand(m, addr);
    shift_cell(m, addr, wrap8(o * 2 + carry_in(m)), sign(o))
}

/// The accumulator rotated right through CARRY.
pub open spec fn ror_acc(m: Machine) -> Machine {
    shift_acc(m, (m.reg.a / 2 + 128 * carry_in(m)) as u8, m.reg.a % 2 == 1)
}

/// The cell at `addr` rotated right through CARRY.
pub open spec fn ror(m: Machine, addr: u16) -> Machine {
    let o = operand(m, addr);
    shift_cell(m, addr, (o / 2 + 128 * carry_in(m)) as u8, o % 2 == 1)
}

/// The program counter set to `addr` when `taken`, else left.
pub open spec fn branch(m: Machine, addr: u16, taken: bool) -> Machine {
    if taken {
        with_pc(m, addr)
    } else {
        m
    }
}

/// NEGATIVE and OVERFLOW from bits 7 and 6 of the operand, ZERO when the
/// operand and the accumulator have no bit in common; the accumulator is kept.
pub open spec fn bit(m: Machine, addr: u16) -> Machine {
    let o = operand(m, addr);
    let p = with_flag(m.reg.p, Status::NEGATIVE, o & 0x80 != 0);
    let p = with_flag(p, Status::OVERFLOW, o & 0x40 != 0);
    with_p(m, with_flag(p, Status::ZERO, o & m.reg.a == 0))
}

/// With INTERRUPT clear: the program counter pushed, BREAK set, the packed
/// status pushed, and the program counter loaded from the break vector.
/// With INTERRUPT set, BRK does nothing: this core masks it like a hardware
/// interrupt request.
pub open spec fn brk(m: Machine) -> Machine {
    if flag(m.reg.p, Status::INTERRUPT) {
        m
    } else {
        let m1 = push_word(m, m.reg.pc);
        let p = m1.reg.p | Status::BREAK;
        let m2 = push_byte(with_p(m1, p), p | Status::ALWAYS);
        with_pc(m2, word_at(m2.mem, BREAK_VECTOR))
    }
}

/// The status after `reg` is compared with the byte at `addr`: CARRY when
/// `reg` is not below it, ZERO and NEGATIVE from `reg` minus it.
pub open spec fn compare(m: Machine, reg: u8, addr: u16) -> Machine {
    let o = operand(m, addr);
    with_p(m, with_zn(with_flag(m.reg.p, Status::CARRY, reg >= o), wrap8(reg - o)))
}

/// `r` stored at `addr`, with ZERO and NEGATIVE from it.
pub open spec fn step_cell(m: Machine, addr: u16, r: u8) -> Machine {
    Machine { reg: RegisterModel { p: with_zn(m.reg.p, r), ..m.reg }, mem: m.mem.update(addr as int, r) }
}

/// The program counter minus one pushed as the return address, then a jump to `addr`.
pub open spec fn jsr(m: Machine, addr: u16) -> Machine {
    with_pc(push_word(m, wrap16(m.reg.pc - 1)), addr)
}

/// A byte pulled into the accumulator, with ZERO and NEGATIVE from it.
pub open spec fn pla(m: Machine) -> Machine {
    let (v, m1) = pull_byte(m);
    load_a(m1, v)
}

/// A byte pulled into the status, with the reserved bit forced on.
pub open spec fn plp(m: Machine) -> Machine {
    let (v, m1) = pull_byte(m);
    with_p(m1, v | Status::ALWAYS)
}

/// The status pulled, then the program counter.
pub open spec fn rti(m: Machine) -> Machine {
    let (v, m1) = pull_byte(m);
    let (w, m2) = pull_word(with_p(m1, v | Status::ALWAYS));
    with_pc(m2, w)
}

/// The return address pulled, and one added to it. Only the word that JSR
/// pushed is pulled; the status is left as it is, so that JSR then RTS
/// resumes just past the JSR instruction.
pub open spec fn rts(m: Machine) -> Machine {
    let (w, m1) = pull_word(m);
    with_pc(m1, wrap16(w + 1))
}

/// What the instruction `name`, addressing in `mode`, does with the
/// effective address `addr`.
pub open spec fn execute(m: Machine, addr: u16, name: Mnemonic, mode: AddressingMode) -> Machine {
    let r = m.reg;
    let acc = mode == AddressingMode::Accumulator;
    match name {
        Mnemonic::Adc => adc(m, addr),
        Mnemonic::And => and(m, addr),
        Mnemonic::Asl => if acc { asl_acc(m) } else { asl(m, addr) },
        Mnemonic::Bcc => branch(m, addr, !flag(r.p, Status::CARRY)),
        Mnemonic::Bcs => branch(m, addr, flag(r.p, Status::CARRY)),
        Mnemonic::Beq => branch(m, addr, flag(r.p, Status::ZERO)),
        Mnemonic::Bit => bit(m, addr),
        Mnemonic::Bmi => branch(m, addr, flag(r.p, Status::NEGATIVE)),
        Mnemonic::Bne => branch(m, addr, !flag(r.p, Status::ZERO)),
        Mnemonic::Bpl => branch(m, addr, !flag(r.p, Status::NEGATIVE)),
        Mnemonic::Brk => brk(m),
        Mnemonic::Bvc => branch(m, addr, !flag(r.p, Status::OVERFLOW)),
        Mnemonic::Bvs => branch(m, addr, flag(r.p, Status::OVERFLOW)),
        Mnemonic::Clc => with_p(m, with_flag(r.p, Status::CARRY, false)),
        Mnemonic::Cld => with_p(m, with_flag(r.p, Status::DECIMAL, false)),
        Mnemonic::Cli => with_p(m, with_flag(r.p, Status::INTERRUPT, false)),
        Mnemonic::Clv => with_p(m, with_flag(r.p, Status::OVERFLOW, false)),
        Mnemonic::Cmp => compare(m, r.a, addr),
        Mnemonic::Cpx => compare(m, r.x, addr),
        Mnemonic::Cpy => compare(m, r.y, addr),
        Mnemonic::Dec => step_cell(m, addr, wrap8(operand(m, addr) - 1)),
        Mnemonic::Dex => load_x(m, wrap8(r.x - 1)),
        Mnemonic::Dey => load_y(m, wrap8(r.y - 1)),
        Mnemonic::Eor => eor(m, addr),
        Mnemonic::Inc => step_cell(m, addr, wrap8(operand(m, addr) + 1)),
        Mnemonic::Inx => load_x(m, wrap8(r.x + 1)),
        Mnemonic::Iny => load_y(m, wrap8(r.y + 1)),
        Mnemonic::Jmp => with_pc(m, addr),
        Mnemonic::Jsr => jsr(m, addr),
        Mnemonic::Lda => load_a(m, operand(m, addr)),
        Mnemonic::Ldx => load_x(m, operand(m, addr)),
        Mnemonic::Ldy => load_y(m, operand(m, addr)),
        Mnemonic::Lsr => if acc { lsr_acc(m) } else { lsr(m, addr) },
        Mnemonic::Nop => m,
        Mnemonic::Ora => ora(m, addr),
        Mnemonic::Pha => push_byte(m, r.a),
        Mnemonic::Php => push_byte(m, r.p | Status::ALWAYS),
        Mnemonic::Pla => pla(m),
        Mnemonic::Plp => plp(m),
        Mnemonic::Rol => if acc { rol_acc(m) } else { rol(m, addr) },
        Mnemonic::Ror => if acc { ror_acc(m) } else { ror(m, addr) },
        Mnemonic::Rti => rti(m),
        Mnemonic::Rts => rts(m),
        Mnemonic::Sbc => sbc(m, addr),
        Mnemonic::Sec => with_p(m, with_flag(r.p, Status::CARRY, true)),
        Mnemonic::Sed => with_p(m, with_flag(r.p, Status::DECIMAL, true)),
        Mnemonic::Sei => with_p(m, with_flag(r.p, Status::INTERRUPT, true)),
        Mnemonic::Sta => with_cell(m, addr, r.a),
        Mnemonic::Stx => with_cell(m, addr, r.x),
        Mnemonic::Sty => with_cell(m, addr, r.y),
        Mnemonic::Tax => load_x(m, r.a),
        Mnemonic::Tay => load_y(m, r.a),
        Mnemonic::Tsx => load_x(m, r.s),
        Mnemonic::Txa => load_a(m, r.x),
        Mnemonic::Txs => Machine { reg: RegisterModel { s: r.x, ..r }, ..m },
        Mnemonic::Tya => load_a(m, r.y),
    }
}

/// One fetch-decode-execute cycle: the result, and the machine after it.
/// An opcode byte with no table entry is an error that leaves the machine as it was.
pub open spec fn step(m: Machine) -> (Result<(), StepError>, Machine) {
    let pc = m.reg.pc;
    let opcode = m.mem[pc as int];
    match opcode_entry(opcode) {
        None => (Err(StepError::UnknownOpcode { opcode, pc }), m),
        Some(info) => {
            let m1 = with_pc(m, wrap16(pc + 1));
            let (addr, next) = resolve(m1, info.mode);
            (Ok(()), execute(with_pc(m1, next), addr, info.name, info.mode))
        },
    }
}

// ---- properties ----

/// Pushing a word and then pulling a word gives the word back and returns
/// the stack pointer, and every other register, to where it was.
pub proof fn lemma_stack_word_round_trip(m: Machine, w: u16)
    requires
        m.mem.len() == 0x10000,
    ensures
        pull_word(push_word(m, w)).0 == w,
        pull_word(push_word(m, w)).1.reg == m.reg,
{
    let s = m.reg.s;
    let s1 = wrap8(s - 1);
    let s2 = wrap8(s1 - 1);
    assert(wrap8(s2 + 1) == s1);
    assert(wrap8(s1 + 1) == s);
    assert(stack_cell(s1) != stack_cell(s));
    let lo = (w % 256) as u8;
    let hi = (w / 256) as u8;
    assert(push_word(m, w).mem[stack_cell(s1)] == hi);
    assert(push_word(m, w).mem[stack_cell(s)] == lo);
    assert(le_word(lo, hi) == w);
}

/// Pushing a byte and then pulling a byte gives the byte back and returns
/// the stack pointer, and every other register, to where it was.
pub proof fn lemma_stack_byte_round_trip(m: Machine, b: u8)
    requires
        m.mem.len() == 0x10000,
    ensures
        pull_byte(push_byte(m, b)).0 == b,
        pull_byte(push_byte(m, b)).1.reg == m.reg,
{
    assert(wrap8(wrap8(m.reg.s - 1) + 1) == m.reg.s);
}

/// JSR followed by RTS restores every register: the program counter comes
/// back to its value before JSR, the stack pointer to where it was.
pub proof fn lemma_jsr_rts_round_trip(m: Machine, target: u16)
    requires
        m.mem.len() == 0x10000,
    ensures
        rts(jsr(m, target)).reg == m.reg,
{
    let ret = wrap16(m.reg.pc - 1);
    lemma_stack_word_round_trip(m, ret);
    assert(wrap16(ret + 1) == m.reg.pc);
}

/// A JSR at `pc` to a routine whose first byte is RTS, run step by step,
/// comes back to `pc + 3`, the byte after the three-byte JSR, with the stack
/// pointer and the other registers as they were.
#[verifier::spinoff_prover]
#[verifier::rlimit(100)]
pub proof fn lemma_jsr_rts_steps(m: Machine)
    requires
        m.mem.len() == 0x10000,
        m.mem[m.reg.pc as int] == 0x20,
        m.mem[word_at(m.mem, wrap16(m.reg.pc + 1)) as int] == 0x60,
        word_at(m.mem, wrap16(m.reg.pc + 1)) as int != stack_cell(m.reg.s),
        word_at(m.mem, wrap16(m.reg.pc + 1)) as int != stack_cell(wrap8(m.reg.s - 1)),
    ensures
        step(step(m).1).0 == Ok::<(), StepError>(()),
        step(step(m).1).1.reg == (RegisterModel { pc: wrap16(m.reg.pc + 3), ..m.reg }),
{
    let pc = m.reg.pc;
    let pc1 = wrap16(pc + 1);
    let target = word_at(m.mem, pc1);
    let m1 = with_pc(m, pc1);
    let jsr_info = OpcodeInfo { name: Mnemonic::Jsr, mode: AddressingMode::Absolute };
    let rts_info = OpcodeInfo { name: Mnemonic::Rts, mode: AddressingMode::Implied };
    assert(opcode_entry(0x20) == Some(jsr_info));
    assert(opcode_entry(0x60) == Some(rts_info));
    assert(resolve(m1, AddressingMode::Absolute) == (target, wrap16(pc1 + 2)));
    assert(wrap16(pc1 + 2) == wrap16(pc + 3));
    let after = with_pc(m, wrap16(pc + 3));
    assert(with_pc(m1, wrap16(pc1 + 2)) == after);
    assert(execute(after, target, Mnemonic::Jsr, AddressingMode::Absolute) == jsr(after, target));
    let j = jsr(after, target);
    assert(step(m).1 == j);
    assert(step(m).0 == Ok::<(), StepError>(()));
    lemma_jsr_rts_round_trip(after, target);
    assert(j.reg.pc == target);
    assert(j.mem[target as int] == 0x60);
    let jr = with_pc(j, wrap16(target + 1));
    assert(resolve(jr, AddressingMode::Implied) == (0u16, wrap16(target + 1)));
    assert(execute(jr, 0, Mnemonic::Rts, AddressingMode::Implied) == rts(jr));
    assert(step(j).1 == rts(jr));
    assert(rts(jr) == with_pc(pull_word(j).1, wrap16(pull_word(j).0 + 1)));
    assert(rts(jr).reg == rts(j).reg);
}

/// A status pulled from the stack reads with the reserved bit set,
/// whatever byte was pulled.
pub proof fn lemma_pulled_status_always(m: Machine)
    ensures
        flag(plp(m).reg.p, Status::ALWAYS),
        flag(rti(m).reg.p, Status::ALWAYS),
{
    let v = pull_byte(m).0;
    assert(((v | 0x20u8) | 0x20u8) & 0x20u8 != 0) by (bit_vector);
}

/// A BEQ at `pc` with offset byte `b` leaves the program counter at the
/// relative target `pc + 2 + b` (b signed) when ZERO reads as set, and just
/// past the two-byte instruction otherwise.
pub proof fn lemma_beq_taken_or_not(m: Machine)
    requires
        m.mem[m.reg.pc as int] == 0xF0,
    ensures
        step(m).0 == Ok::<(), StepError>(()),
        step(m).1.reg.pc == if flag(m.reg.p, Status::ZERO) {
            wrap16(m.reg.pc + 2 + signed(m.mem[wrap16(m.reg.pc + 1) as int]))
        } else {
            wrap16(m.reg.pc + 2)
        },
{
    let pc1 = wrap16(m.reg.pc + 1);
    assert(wrap16(pc1 + 1) == wrap16(m.reg.pc + 2));
    assert(wrap16(wrap16(pc1 + 1) + signed(m.mem[pc1 as int])) == wrap16(
        m.reg.pc + 2 + signed(m.mem[pc1 as int]),
    ));
}

/// IndirectX adds X to the operand byte within page zero and reads the
/// little-endian word there; IndirectY reads the word at the operand byte
/// and adds Y to it modulo 65536.
pub proof fn lemma_indexed_indirect(m: Machine)
    ensures
        ({
            let b = m.mem[m.reg.pc as int] as int;
            let ptr = (b + m.reg.x) % 256;
            resolve(m, AddressingMode::IndirectX).0 == m.mem[ptr] + 256 * m.mem[(ptr + 1) % 65536]
        }),
        ({
            let b = m.mem[m.reg.pc as int] as int;
            resolve(m, AddressingMode::IndirectY).0 == (m.mem[b] + 256 * m.mem[(b + 1) % 65536]
                + m.reg.y) % 65536
        }),
{
}

/// A step on an opcode byte with no table entry fails with that byte and
/// the program counter, and changes nothing, so every later step fails the
/// same way.
pub proof fn lemma_unknown_opcode_stable(m: Machine)
    requires
        opcode_entry(m.mem[m.reg.pc as int]) is None,
    ensures
        step(m) == (Err::<(), StepError>(
            StepError::UnknownOpcode { opcode: m.mem[m.reg.pc as int], pc: m.reg.pc },
        ), m),
        step(step(m).1) == step(m),
{
}

} // verus!
