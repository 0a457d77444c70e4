//! Value types shared by every CPU implementation: the 16-bit `Word` storage
//! cell with independent high/low byte views, the `ByteOrWord` result of
//! operand resolution, and the CPU error taxonomy.

use vstd::prelude::*;

use crate::addressable::AddressError;

verus! {

/// The value of a 16-bit word after its high byte is replaced by `b`.
pub open spec fn with_high(w: u16, b: u16) -> u16 {
    (b << 8) | (w & 0xFF)
}

/// The value of a 16-bit word after its low byte is replaced by `b`.
pub open spec fn with_low(w: u16, b: u16) -> u16 {
    (w & 0xFF00) | (b & 0xFF)
}

/// The high byte of a 16-bit word.
pub open spec fn high_of(w: u16) -> u8 {
    (w >> 8) as u8
}

/// The low byte of a 16-bit word.
pub open spec fn low_of(w: u16) -> u8 {
    (w & 0xFF) as u8
}

/// 16-bit wraparound reduction of a mathematical integer.
pub open spec fn wrap16(v: int) -> u16 {
    (v % 0x10000) as u16
}

/// A 16-bit storage cell whose high and low bytes can be read and written
/// independently, with wraparound word addition for program-counter and
/// stack-pointer arithmetic and single-bit operations for the flag byte.
#[derive(Clone, Copy, PartialEq, Eq, Structural, Debug)]
pub struct Word(pub u16);

impl View for Word {
    type V = u16;

    open spec fn view(&self) -> u16 {
        self.0
    }
}

impl Word {
    /// A word holding zero.
    pub fn nil() -> (r: Word)
        ensures
            r@ == 0,
    {
        Word(0)
    }

    /// The full 16-bit value.
    pub fn value(self) -> (r: u16)
        ensures
            r == self@,
    {
        self.0
    }

    /// Replaces the high byte, leaving the low byte untouched.
    pub fn set_high(&mut self, b: u8)
        ensures
            final(self)@ == with_high(old(self)@, b as u16),
    {
        self.0 = ((b as u16) << 8) | (self.0 & 0xFF);
    }

    /// Replaces the low byte, leaving the high byte untouched.
    pub fn set_low(&mut self, b: u8)
        ensures
            final(self)@ == with_low(old(self)@, b as u16),
    {
        self.0 = (self.0 & 0xFF00) | (b as u16);
        proof {
            let w = old(self)@;
            let bw = b as u16;
            assert((w & 0xFF00) | bw == (w & 0xFF00) | (bw & 0xFF)) by (bit_vector)
                requires
                    bw < 256,
            ;
        }
    }

    /// The high byte.
    pub fn get_high(&self) -> (r: u8)
        ensures
            r == high_of(self@),
    {
        (self.0 >> 8) as u8
    }

    /// The low byte.
    pub fn get_low(&self) -> (r: u8)
        ensures
            r == low_of(self@),
    {
        (self.0 & 0xFF) as u8
    }

    /// Sets the bit at position `bit` (0 = least significant).
    pub fn set_bit(&mut self, bit: u8)
        requires
            bit < 16,
        ensures
            final(self)@ == (old(self)@ | (1u16 << (bit as u16))),
    {
        self.0 = self.0 | (1u16 << (bit as u16));
    }

    /// Clears the bit at position `bit` (0 = least significant).
    pub fn unset_bit(&mut self, bit: u8)
        requires
            bit < 16,
        ensures
            final(self)@ == (old(self)@ & !(1u16 << (bit as u16))),
    {
        self.0 = self.0 & !(1u16 << (bit as u16));
    }

    /// Wraparound 16-bit addition, as used for program-counter arithmetic.
    pub fn wrapping_add(self, rhs: Word) -> (r: Word)
        ensures
            r@ == wrap16(self@ + rhs@),
    {
        Word(self.0.wrapping_add(rhs.0))
    }
}

impl From<u16> for Word {
    fn from(v: u16) -> (r: Word) {
        Word(v)
    }
}

impl vstd::std_specs::convert::FromSpecImpl<u16> for Word {
    open spec fn obeys_from_spec() -> bool {
        true
    }

    open spec fn from_spec(v: u16) -> Word {
        Word(v)
    }
}

/// Setting the two bytes of a word independently, in either order, yields a
/// word whose high byte is exactly the byte given for the high half and whose
/// low byte is exactly the byte given for the low half: neither store
/// disturbs the other half.
pub proof fn lemma_word_byte_independence(w: u16, h: u8, l: u8)
    ensures
        high_of(with_low(with_high(w, h as u16), l as u16)) == h,
        low_of(with_low(with_high(w, h as u16), l as u16)) == l,
        high_of(with_high(with_low(w, l as u16), h as u16)) == h,
        low_of(with_high(with_low(w, l as u16), h as u16)) == l,
{
    let hw = h as u16;
    let lw = l as u16;
    assert(((((hw << 8) | (w & 0xFF)) & 0xFF00) | (lw & 0xFF)) >> 8 == hw) by (bit_vector)
        requires
            hw < 256,
    ;
    assert(((((hw << 8) | (w & 0xFF)) & 0xFF00) | (lw & 0xFF)) & 0xFF == lw) by (bit_vector)
        requires
            lw < 256,
    ;
    assert(((hw << 8) | (((w & 0xFF00) | (lw & 0xFF)) & 0xFF)) >> 8 == hw) by (bit_vector)
        requires
            hw < 256,
    ;
    assert(((hw << 8) | (((w & 0xFF00) | (lw & 0xFF)) & 0xFF)) & 0xFF == lw) by (bit_vector)
        requires
            lw < 256,
    ;
}

/// The result of resolving an instruction operand: either a single byte or a
/// full 16-bit word.
#[derive(Clone, Copy, PartialEq, Eq, Structural, Debug)]
pub enum ByteOrWord {
    Byte(u8),
    Word(u16),
}

/// The 16-bit reading of a resolved operand: a byte is zero-extended, a word
/// is taken as it is.
pub open spec fn into_word_spec(v: ByteOrWord) -> u16 {
    match v {
        ByteOrWord::Byte(b) => b as u16,
        ByteOrWord::Word(w) => w,
    }
}

impl ByteOrWord {
    /// Widens the value to 16 bits, zero-extending a byte.
    pub fn into_word(self) -> (r: u16)
        ensures
            r == into_word_spec(self),
    {
        match self {
            ByteOrWord::Byte(b) => b as u16,
            ByteOrWord::Word(w) => w,
        }
    }
}

/// The ways a register access can mismatch the register's width.
#[derive(Clone, Copy, PartialEq, Eq, Structural, Debug)]
pub enum WidthMismatch {
    /// A byte read was requested from a 16-bit-only register.
    ByteReadFromWordReg,
    /// A word read was requested from an 8-bit register.
    WordReadFromByteReg,
    /// A byte store was requested into a 16-bit-only register.
    ByteWriteToWordReg,
    /// A word store was requested into an 8-bit register.
    WordWriteToByteReg,
}

impl WidthMismatch {
    /// A human-readable description of the mismatch.
    pub fn describe(&self) -> &'static str {
        match self {
            WidthMismatch::ByteReadFromWordReg => "Tried reading Byte from Word reg",
            WidthMismatch::WordReadFromByteReg => "Tried reading Word from Byte reg",
            WidthMismatch::ByteWriteToWordReg => "Mismatching register and byte value width",
            WidthMismatch::WordWriteToByteReg => "Mismatching register and word value width",
        }
    }
}

/// A fault raised by a CPU operation: either a register access whose width
/// does not match the register, or an address fault propagated from the bus.
#[derive(Clone, Copy, PartialEq, Eq, Structural, Debug)]
pub enum CPUError {
    BadRegisterAccess(WidthMismatch),
    AddrErr(AddressError),
}

impl From<AddressError> for CPUError {
    fn from(err: AddressError) -> (r: CPUError) {
        CPUError::AddrErr(err)
    }
}

impl vstd::std_specs::convert::FromSpecImpl<AddressError> for CPUError {
    open spec fn obeys_from_spec() -> bool {
        true
    }

    open spec fn from_spec(err: AddressError) -> CPUError {
        CPUError::AddrErr(err)
    }
}

} // verus!
