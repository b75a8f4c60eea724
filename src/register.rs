//! The register file and the packed processor-status byte.

use vstd::prelude::*;

verus! {

/// Whether the flag `mask` reads as set in a status whose stored byte is `p`
/// (reads go through the packed form, where the reserved bit is on).
pub open spec fn flag(p: u8, mask: u8) -> bool {
    (p | Status::ALWAYS) & mask != 0
}

/// The stored byte `p` with the bits of `mask` set or cleared, the others kept.
pub open spec fn with_flag(p: u8, mask: u8, value: bool) -> u8 {
    if value {
        p | mask
    } else {
        p & !mask
    }
}

/// The stored byte `p` after ZERO and NEGATIVE are taken from the value `v`.
pub open spec fn with_zn(p: u8, v: u8) -> u8 {
    with_flag(with_flag(p, Status::ZERO, v == 0), Status::NEGATIVE, v & 0x80 != 0)
}

/// The processor status: eight named flags packed into one byte.
///
/// The stored byte may lack the reserved bit; every read of the packed form
/// and every construction from a raw byte turns it on.
pub struct Status {
    bits: u8,
}

impl View for Status {
    type V = u8;

    /// The byte as stored.
    closed spec fn view(&self) -> u8 {
        self.bits
    }
}

impl Status {
    pub const CARRY: u8 = 0b0000_0001;
    pub const ZERO: u8 = 0b0000_0010;
    pub const INTERRUPT: u8 = 0b0000_0100;
    pub const DECIMAL: u8 = 0b0000_1000;
    pub const BREAK: u8 = 0b0001_0000;
    pub const ALWAYS: u8 = 0b0010_0000;
    pub const OVERFLOW: u8 = 0b0100_0000;
    pub const NEGATIVE: u8 = 0b1000_0000;

    /// The packed status byte, with the reserved bit forced on.
    pub fn as_bits(&self) -> (r: u8)
        ensures
            r == self@ | Status::ALWAYS,
    {
        self.bits | Status::ALWAYS
    }

    /// A status built from a raw byte, with the reserved bit forced on.
    pub fn from_bits(bits: u8) -> (r: Status)
        ensures
            r@ == bits | Status::ALWAYS,
    {
        Status { bits: bits | Status::ALWAYS }
    }

    /// Sets (`value`) or clears the bits of `mask`, leaving the others as they were.
    pub fn set(&mut self, mask: u8, value: bool)
        ensures
            final(self)@ == with_flag(old(self)@, mask, value),
    {
        if value {
            self.bits = self.bits | mask;
        } else {
            self.bits = self.bits & !mask;
        }
    }

    /// Sets the bits of `mask`.
    pub fn insert(&mut self, mask: u8)
        ensures
            final(self)@ == old(self)@ | mask,
    {
        self.set(mask, true);
    }

    /// Clears the bits of `mask`.
    pub fn remove(&mut self, mask: u8)
        ensures
            final(self)@ == old(self)@ & !mask,
    {
        self.set(mask, false);
    }

    /// Whether the packed byte and `mask` have a bit in common.
    pub fn contains(&self, mask: u8) -> (r: bool)
        ensures
            r == flag(self@, mask),
    {
        self.as_bits() & mask != 0
    }

    /// ZERO becomes `value == 0`, NEGATIVE becomes bit 7 of `value`.
    pub fn update_zero_and_negative(&mut self, value: u8)
        ensures
            final(self)@ == with_zn(old(self)@, value),
    {
        self.set(Status::ZERO, value == 0);
        self.set(Status::NEGATIVE, value & 0x80 != 0);
    }
}

impl vstd::std_specs::ops::BitAndSpecImpl for Status {
    open spec fn obeys_bitand_spec() -> bool {
        true
    }

    open spec fn bitand_req(self, rhs: Self) -> bool {
        true
    }

    closed spec fn bitand_spec(self, rhs: Self) -> Self {
        Status { bits: self.bits & rhs.bits }
    }
}

impl std::ops::BitAnd for Status {
    type Output = Self;

    fn bitand(self, rhs: Self) -> (r: Self)
        ensures
            r@ == self@ & rhs@,
    {
        Status { bits: self.bits & rhs.bits }
    }
}

impl vstd::std_specs::ops::BitOrSpecImpl for Status {
    open spec fn obeys_bitor_spec() -> bool {
        true
    }

    open spec fn bitor_req(self, rhs: Self) -> bool {
        true
    }

    closed spec fn bitor_spec(self, rhs: Self) -> Self {
        Status { bits: self.bits | rhs.bits }
    }
}

impl std::ops::BitOr for Status {
    type Output = Self;

    fn bitor(self, rhs: Self) -> (r: Self)
        ensures
            r@ == self@ | rhs@,
    {
        Status { bits: self.bits | rhs.bits }
    }
}

impl vstd::std_specs::ops::BitXorSpecImpl for Status {
    open spec fn obeys_bitxor_spec() -> bool {
        true
    }

    open spec fn bitxor_req(self, rhs: Self) -> bool {
        true
    }

    closed spec fn bitxor_spec(self, rhs: Self) -> Self {
        Status { bits: self.bits ^ rhs.bits }
    }
}

impl std::ops::BitXor for Status {
    type Output = Self;

    fn bitxor(self, rhs: Self) -> (r: Self)
        ensures
            r@ == self@ ^ rhs@,
    {
        Status { bits: self.bits ^ rhs.bits }
    }
}

/// After ZERO and NEGATIVE are taken from `v`, ZERO reads as `v == 0` and
/// NEGATIVE reads as bit 7 of `v`, whatever the status held before.
pub proof fn lemma_zero_and_negative(p: u8, v: u8)
    ensures
        flag(with_zn(p, v), Status::ZERO) == (v == 0),
        flag(with_zn(p, v), Status::NEGATIVE) == (v & 0x80 != 0),
{
    assert(flag(with_zn(p, v), Status::ZERO) == (v == 0)) by (bit_vector);
    assert(flag(with_zn(p, v), Status::NEGATIVE) == (v & 0x80 != 0)) by (bit_vector);
}

/// The reserved bit reads as set in every packed byte and in every status
/// built from a raw byte, whatever the input bits.
pub proof fn lemma_always_bit(stored: u8, raw: u8)
    ensures
        (stored | Status::ALWAYS) & Status::ALWAYS != 0,
        (raw | Status::ALWAYS) & Status::ALWAYS != 0,
        flag(stored, Status::ALWAYS),
{
    assert((stored | 0x20u8) & 0x20u8 != 0) by (bit_vector);
    assert((raw | 0x20u8) & 0x20u8 != 0) by (bit_vector);
}

/// The register file as plain values; `p` is the status byte as stored.
pub struct RegisterModel {
    pub a: u8,
    pub x: u8,
    pub y: u8,
    pub pc: u16,
    pub s: u8,
    pub p: u8,
}

/// The register file: accumulator, index registers, program counter,
/// stack pointer and status.
pub struct Register {
    pub a: u8,
    pub x: u8,
    pub y: u8,
    pub pc: u16,
    pub s: u8,
    pub p: Status,
}

impl View for Register {
    type V = RegisterModel;

    open spec fn view(&self) -> RegisterModel {
        RegisterModel { a: self.a, x: self.x, y: self.y, pc: self.pc, s: self.s, p: self.p@ }
    }
}

impl Register {
    /// All registers zero, status cleared but for the reserved bit.
    pub fn new() -> (r: Register)
        ensures
            r@ == (RegisterModel { a: 0, x: 0, y: 0, pc: 0, s: 0, p: Status::ALWAYS }),
    {
        assert(0u8 | 0x20u8 == 0x20u8) by (bit_vector);
        Register { a: 0, x: 0, y: 0, pc: 0, s: 0, p: Status::from_bits(0) }
    }
}

} // verus!
