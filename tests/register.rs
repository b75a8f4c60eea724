use cpu6502::register::{Register, Status};

#[test]
fn test_status_bit_operator() {
    let and = Status::from_bits(0b0000_1111) & Status::from_bits(0b1111_0000);
    let or = Status::from_bits(0b0000_1111) | Status::from_bits(0b1111_0000);
    let xor = Status::from_bits(0b0000_1111) ^ Status::from_bits(0b1111_0000);

    assert_eq!(and.as_bits(), 0b0010_0000);
    assert_eq!(or.as_bits(), 0b1111_1111);
    assert_eq!(xor.as_bits(), 0b1111_1111);
}

#[test]
fn zero_and_negative_follow_the_value() {
    let mut p = Status::from_bits(0);
    p.update_zero_and_negative(0);
    assert!(p.contains(Status::ZERO));
    assert!(!p.contains(Status::NEGATIVE));
    p.update_zero_and_negative(0x80);
    assert!(!p.contains(Status::ZERO));
    assert!(p.contains(Status::NEGATIVE));
    p.update_zero_and_negative(0x7F);
    assert!(!p.contains(Status::ZERO));
    assert!(!p.contains(Status::NEGATIVE));
    p.update_zero_and_negative(0xFF);
    assert!(!p.contains(Status::ZERO));
    assert!(p.contains(Status::NEGATIVE));
}

#[test]
fn always_bit_is_forced_on() {
    assert_eq!(Status::from_bits(0).as_bits(), 0x20);
    assert_eq!(Status::from_bits(0xDF).as_bits(), 0xFF);
    let mut p = Status::from_bits(0);
    p.remove(Status::ALWAYS);
    assert_eq!(p.as_bits(), 0x20);
    assert!(p.contains(Status::ALWAYS));
    assert_eq!(Register::new().p.as_bits(), 0x20);
}

#[test]
fn set_touches_only_its_flag() {
    let mut p = Status::from_bits(0b1000_0001);
    p.set(Status::CARRY, false);
    assert_eq!(p.as_bits(), 0b1010_0000);
    p.insert(Status::OVERFLOW);
    assert_eq!(p.as_bits(), 0b1110_0000);
    p.set(Status::DECIMAL, true);
    assert_eq!(p.as_bits(), 0b1110_1000);
    assert!(p.contains(Status::DECIMAL));
    assert!(!p.contains(Status::CARRY));
}

#[test]
fn new_register_file_is_zero() {
    let r = Register::new();
    assert_eq!((r.a, r.x, r.y, r.pc, r.s), (0, 0, 0, 0, 0));
}
