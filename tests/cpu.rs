use cpu6502::cpu::{Cpu, StepError};
use cpu6502::memory::{Memory, Ram};
use cpu6502::opcode::{lookup, AddressingMode, Mnemonic, OpcodeInfo};
use cpu6502::register::Status;

fn cpu_with(start: u16, program: &[u8]) -> Cpu<Ram> {
    let mut ram = Ram::new();
    ram.load(start, &program.to_vec());
    let mut cpu = Cpu::new(ram);
    cpu.reg.pc = start;
    cpu.reg.s = 0xFF;
    cpu
}

#[test]
fn adc_wraps_to_zero_with_carry() {
    let mut cpu = cpu_with(0x0600, &[0x69, 0x01]);
    cpu.reg.a = 0xFF;
    cpu.reg.p.set(Status::CARRY, false);
    assert_eq!(cpu.step(), Ok(()));
    assert_eq!(cpu.reg.a, 0x00);
    assert!(cpu.reg.p.contains(Status::CARRY));
    assert!(cpu.reg.p.contains(Status::ZERO));
    assert!(!cpu.reg.p.contains(Status::OVERFLOW));
    assert_eq!(cpu.reg.pc, 0x0602);
}

#[test]
fn adc_signed_overflow() {
    let mut cpu = cpu_with(0x0600, &[0x69, 0x01]);
    cpu.reg.a = 0x7F;
    assert_eq!(cpu.step(), Ok(()));
    assert_eq!(cpu.reg.a, 0x80);
    assert!(cpu.reg.p.contains(Status::OVERFLOW));
    assert!(cpu.reg.p.contains(Status::NEGATIVE));
    assert!(!cpu.reg.p.contains(Status::CARRY));
}

#[test]
fn adc_adds_incoming_carry() {
    let mut cpu = cpu_with(0x0600, &[0x69, 0x10]);
    cpu.reg.a = 0x20;
    cpu.reg.p.insert(Status::CARRY);
    cpu.step().unwrap();
    assert_eq!(cpu.reg.a, 0x31);
    assert!(!cpu.reg.p.contains(Status::CARRY));
}

#[test]
fn adc_overflow_uses_operand_sign() {
    let mut cpu = cpu_with(0x0600, &[0x69, 0x7F]);
    cpu.reg.a = 0x7F;
    cpu.reg.p.insert(Status::CARRY);
    cpu.step().unwrap();
    assert_eq!(cpu.reg.a, 0xFF);
    assert!(cpu.reg.p.contains(Status::OVERFLOW));
    assert!(cpu.reg.p.contains(Status::NEGATIVE));
    assert!(!cpu.reg.p.contains(Status::CARRY));

    let mut cpu = cpu_with(0x0600, &[0x69, 0x7F]);
    cpu.reg.a = 0x80;
    cpu.reg.p.insert(Status::CARRY);
    cpu.step().unwrap();
    assert_eq!(cpu.reg.a, 0x00);
    assert!(!cpu.reg.p.contains(Status::OVERFLOW));
    assert!(cpu.reg.p.contains(Status::ZERO));
    assert!(cpu.reg.p.contains(Status::CARRY));
}

#[test]
fn sbc_overflow_rule() {
    let mut cpu = cpu_with(0x0600, &[0xE9, 0x01]);
    cpu.reg.a = 0x00;
    cpu.reg.p.insert(Status::CARRY);
    cpu.step().unwrap();
    assert!(cpu.reg.p.contains(Status::OVERFLOW));

    let mut cpu = cpu_with(0x0600, &[0xE9, 0x01]);
    cpu.reg.a = 0x80;
    cpu.reg.p.insert(Status::CARRY);
    cpu.step().unwrap();
    assert_eq!(cpu.reg.a, 0x7F);
    assert!(!cpu.reg.p.contains(Status::OVERFLOW));
}

#[test]
fn sbc_with_borrow() {
    let mut cpu = cpu_with(0x0600, &[0xE9, 0x01]);
    cpu.reg.a = 0x00;
    cpu.reg.p.insert(Status::CARRY);
    assert_eq!(cpu.step(), Ok(()));
    assert_eq!(cpu.reg.a, 0xFF);
    assert!(!cpu.reg.p.contains(Status::CARRY));
    assert!(cpu.reg.p.contains(Status::NEGATIVE));
}

#[test]
fn sbc_without_carry_takes_one_more() {
    let mut cpu = cpu_with(0x0600, &[0xE9, 0x01]);
    cpu.reg.a = 0x05;
    cpu.step().unwrap();
    assert_eq!(cpu.reg.a, 0x03);
    assert!(cpu.reg.p.contains(Status::CARRY));
}

#[test]
fn beq_taken_and_not_taken() {
    let mut cpu = cpu_with(0x0600, &[0xF0, 0x10]);
    cpu.reg.p.insert(Status::ZERO);
    cpu.step().unwrap();
    assert_eq!(cpu.reg.pc, 0x0612);

    let mut cpu = cpu_with(0x0600, &[0xF0, 0x10]);
    cpu.reg.p.remove(Status::ZERO);
    cpu.step().unwrap();
    assert_eq!(cpu.reg.pc, 0x0602);
}

#[test]
fn branch_backwards() {
    let mut cpu = cpu_with(0x0600, &[0xD0, 0xFC]);
    cpu.step().unwrap();
    assert_eq!(cpu.reg.pc, 0x05FE);
}

#[test]
fn jsr_pushes_return_address_minus_one() {
    let mut cpu = cpu_with(0x0600, &[0x20, 0x34, 0x12]);
    cpu.step().unwrap();
    assert_eq!(cpu.reg.pc, 0x1234);
    assert_eq!(cpu.reg.s, 0xFD);
    assert_eq!(cpu.mem.read_byte(0x01FF), 0x02);
    assert_eq!(cpu.mem.read_byte(0x01FE), 0x06);
}

#[test]
fn rts_pulls_return_address_only() {
    let mut cpu = cpu_with(0x0600, &[0x60]);
    cpu.reg.s = 0xFD;
    cpu.reg.p.insert(Status::CARRY);
    cpu.mem.write_byte(0x01FE, 0x06);
    cpu.mem.write_byte(0x01FF, 0x02);
    cpu.step().unwrap();
    assert_eq!(cpu.reg.pc, 0x0603);
    assert_eq!(cpu.reg.s, 0xFF);
    assert_eq!(cpu.reg.p.as_bits(), 0x21);
}

#[test]
fn jsr_then_rts_returns_past_jsr() {
    let mut cpu = cpu_with(0x0600, &[0x20, 0x34, 0x12]);
    cpu.mem.write_byte(0x1234, 0x60);
    cpu.reg.s = 0x00;
    cpu.step().unwrap();
    assert_eq!(cpu.reg.pc, 0x1234);
    cpu.step().unwrap();
    assert_eq!(cpu.reg.pc, 0x0603);
    assert_eq!(cpu.reg.s, 0x00);
}

#[test]
fn rti_pulls_status_then_pc() {
    let mut cpu = cpu_with(0x0600, &[0x40]);
    cpu.reg.s = 0xFC;
    cpu.mem.write_byte(0x01FD, 0x03);
    cpu.mem.write_byte(0x01FE, 0x12);
    cpu.mem.write_byte(0x01FF, 0x34);
    cpu.step().unwrap();
    assert_eq!(cpu.reg.p.as_bits(), 0x23);
    assert_eq!(cpu.reg.pc, 0x1234);
}

#[test]
fn stack_word_round_trip() {
    let mut cpu = cpu_with(0x0600, &[]);
    cpu.push_word(0xBEEF);
    assert_eq!(cpu.reg.s, 0xFD);
    assert_eq!(cpu.pull_word(), 0xBEEF);
    assert_eq!(cpu.reg.s, 0xFF);

    cpu.reg.s = 0x00;
    cpu.push_word(0x1234);
    assert_eq!(cpu.reg.s, 0xFE);
    assert_eq!(cpu.pull_word(), 0x1234);
    assert_eq!(cpu.reg.s, 0x00);
}

#[test]
fn indirect_x_wraps_in_page_zero() {
    let mut cpu = cpu_with(0x0600, &[0xA1, 0xF0]);
    cpu.reg.x = 0x20;
    cpu.mem.write_byte(0x0010, 0x00);
    cpu.mem.write_byte(0x0011, 0x30);
    cpu.mem.write_byte(0x3000, 0x5A);
    let info = OpcodeInfo { name: Mnemonic::Lda, mode: AddressingMode::IndirectX };
    cpu.reg.pc = 0x0601;
    assert_eq!(cpu.fetch_address(&info), 0x3000);
    assert_eq!(cpu.reg.pc, 0x0602);

    cpu.reg.pc = 0x0600;
    cpu.step().unwrap();
    assert_eq!(cpu.reg.a, 0x5A);
}

#[test]
fn indirect_y_adds_after_indirection() {
    let mut cpu = cpu_with(0x0600, &[0xB1, 0x40]);
    cpu.reg.y = 0x10;
    cpu.mem.write_byte(0x0040, 0xF8);
    cpu.mem.write_byte(0x0041, 0x30);
    cpu.mem.write_byte(0x3108, 0x77);
    cpu.step().unwrap();
    assert_eq!(cpu.reg.a, 0x77);
    assert!(!cpu.reg.p.contains(Status::ZERO));
}

#[test]
fn indirect_jmp() {
    let mut cpu = cpu_with(0x0600, &[0x6C, 0x00, 0x02]);
    cpu.mem.write_byte(0x0200, 0xCD);
    cpu.mem.write_byte(0x0201, 0xAB);
    cpu.step().unwrap();
    assert_eq!(cpu.reg.pc, 0xABCD);
}

#[test]
fn unknown_opcode_is_reported_every_time() {
    let mut cpu = cpu_with(0x0600, &[0x02]);
    let err = StepError::UnknownOpcode { opcode: 0x02, pc: 0x0600 };
    assert_eq!(cpu.step(), Err(err));
    assert_eq!(cpu.reg.pc, 0x0600);
    assert_eq!(cpu.step(), Err(err));
    assert_eq!(lookup(0x02), None);
    assert_eq!(
        lookup(0xA9),
        Some(OpcodeInfo { name: Mnemonic::Lda, mode: AddressingMode::Immediate })
    );
}

#[test]
fn compare_sets_carry_when_not_below() {
    let mut cpu = cpu_with(0x0600, &[0xC9, 0x10, 0xC9, 0x30, 0xC9, 0x20]);
    cpu.reg.a = 0x20;
    cpu.step().unwrap();
    assert!(cpu.reg.p.contains(Status::CARRY));
    assert!(!cpu.reg.p.contains(Status::ZERO));
    cpu.step().unwrap();
    assert!(!cpu.reg.p.contains(Status::CARRY));
    assert!(cpu.reg.p.contains(Status::NEGATIVE));
    cpu.step().unwrap();
    assert!(cpu.reg.p.contains(Status::CARRY));
    assert!(cpu.reg.p.contains(Status::ZERO));
    assert_eq!(cpu.reg.a, 0x20);
}

#[test]
fn bit_takes_flags_from_operand() {
    let mut cpu = cpu_with(0x0600, &[0x24, 0x10]);
    cpu.mem.write_byte(0x0010, 0xC0);
    cpu.reg.a = 0x01;
    cpu.step().unwrap();
    assert!(cpu.reg.p.contains(Status::NEGATIVE));
    assert!(cpu.reg.p.contains(Status::OVERFLOW));
    assert!(cpu.reg.p.contains(Status::ZERO));
    assert_eq!(cpu.reg.a, 0x01);
}

#[test]
fn shifts_and_rotates() {
    let mut cpu = cpu_with(0x0600, &[0x0A, 0x6A, 0x2A, 0x4A]);
    cpu.reg.a = 0x81;
    cpu.step().unwrap(); // ASL A
    assert_eq!(cpu.reg.a, 0x02);
    assert!(cpu.reg.p.contains(Status::CARRY));
    cpu.step().unwrap(); // ROR A
    assert_eq!(cpu.reg.a, 0x81);
    assert!(!cpu.reg.p.contains(Status::CARRY));
    cpu.step().unwrap(); // ROL A
    assert_eq!(cpu.reg.a, 0x02);
    assert!(cpu.reg.p.contains(Status::CARRY));
    cpu.step().unwrap(); // LSR A
    assert_eq!(cpu.reg.a, 0x01);
    assert!(!cpu.reg.p.contains(Status::CARRY));
}

#[test]
fn memory_increment_and_store() {
    let mut cpu = cpu_with(0x0600, &[0xE6, 0x10, 0xC6, 0x11, 0xA2, 0x42, 0x8E, 0x00, 0x02, 0xA0, 0x07]);
    cpu.mem.write_byte(0x0010, 0xFF);
    cpu.step().unwrap();
    assert_eq!(cpu.mem.read_byte(0x0010), 0x00);
    assert!(cpu.reg.p.contains(Status::ZERO));
    cpu.step().unwrap();
    assert_eq!(cpu.mem.read_byte(0x0011), 0xFF);
    assert!(cpu.reg.p.contains(Status::NEGATIVE));
    cpu.step().unwrap();
    cpu.step().unwrap();
    assert_eq!(cpu.mem.read_byte(0x0200), 0x42);
    cpu.step().unwrap();
    assert_eq!(cpu.reg.y, 0x07);
    assert_eq!(cpu.reg.x, 0x42);
}

#[test]
fn brk_is_masked_by_interrupt_disable() {
    let mut cpu = cpu_with(0x0600, &[0x00]);
    cpu.mem.write_word(0xFFFE, 0x8000);
    cpu.reg.p.insert(Status::INTERRUPT);
    cpu.step().unwrap();
    assert_eq!(cpu.reg.pc, 0x0601);
    assert_eq!(cpu.reg.s, 0xFF);

    let mut cpu = cpu_with(0x0600, &[0x00]);
    cpu.mem.write_word(0xFFFE, 0x8000);
    cpu.step().unwrap();
    assert_eq!(cpu.reg.pc, 0x8000);
    assert_eq!(cpu.reg.s, 0xFC);
    assert_eq!(cpu.mem.read_byte(0x01FD), 0x30);
    assert_eq!(cpu.mem.read_word(0x01FE), 0x0106);
}

#[test]
fn transfers_and_stack_bytes() {
    let mut cpu = cpu_with(0x0600, &[0xAA, 0x48, 0xA9, 0x00, 0x68, 0x9A, 0x08, 0x28]);
    cpu.reg.a = 0x90;
    cpu.step().unwrap(); // TAX
    assert_eq!(cpu.reg.x, 0x90);
    assert!(cpu.reg.p.contains(Status::NEGATIVE));
    cpu.step().unwrap(); // PHA
    cpu.step().unwrap(); // LDA #0
    assert!(cpu.reg.p.contains(Status::ZERO));
    cpu.step().unwrap(); // PLA
    assert_eq!(cpu.reg.a, 0x90);
    assert_eq!(cpu.reg.s, 0xFF);
    cpu.step().unwrap(); // TXS
    assert_eq!(cpu.reg.s, 0x90);
    cpu.step().unwrap(); // PHP
    assert_eq!(cpu.mem.read_byte(0x0190), cpu.reg.p.as_bits());
    cpu.step().unwrap(); // PLP
    assert_eq!(cpu.reg.s, 0x90);
}

#[test]
fn new_cpu_starts_zeroed() {
    let cpu = Cpu::new(Ram::new());
    assert_eq!((cpu.reg.a, cpu.reg.x, cpu.reg.y, cpu.reg.pc, cpu.reg.s), (0, 0, 0, 0, 0));
    assert_eq!(cpu.reg.p.as_bits(), 0x20);
}

#[test]
fn fetch_opcode_advances_and_wraps() {
    let mut cpu = cpu_with(0xFFFF, &[0xEA]);
    assert_eq!(cpu.fetch_opcode(), 0xEA);
    assert_eq!(cpu.reg.pc, 0x0000);
}

#[test]
fn execute_dispatches_by_mode() {
    let mut cpu = cpu_with(0x0600, &[]);
    cpu.reg.a = 0x40;
    cpu.mem.write_byte(0x0010, 0x01);
    cpu.execute(0x0010, &Mnemonic::Asl, &AddressingMode::ZeroPage);
    assert_eq!(cpu.mem.read_byte(0x0010), 0x02);
    assert_eq!(cpu.reg.a, 0x40);
    cpu.execute(0, &Mnemonic::Asl, &AddressingMode::Accumulator);
    assert_eq!(cpu.reg.a, 0x80);
}
