//! The 8-bit processor status register: eight independent boolean flags
//! packed into one byte, with derived setters for the zero, negative, carry
//! and overflow conditions.

use vstd::prelude::*;

verus! {

/// One of the eight status flags, in bit order from bit 0 (Carry) up to
/// bit 7 (Negative).
#[derive(Clone, Copy, PartialEq, Eq, Structural, Debug)]
pub enum Flag {
    /// C
    Carry,
    /// Z
    Zero,
    /// I
    InterruptDisable,
    /// D
    Decimal,
    /// B
    Break,
    /// B2
    Break2,
    /// V
    Overflow,
    /// N
    Negative,
}

/// Bit position of a flag inside the packed status byte.
pub open spec fn flag_bit(f: Flag) -> u8 {
    match f {
        Flag::Carry => 0,
        Flag::Zero => 1,
        Flag::InterruptDisable => 2,
        Flag::Decimal => 3,
        Flag::Break => 4,
        Flag::Break2 => 5,
        Flag::Overflow => 6,
        Flag::Negative => 7,
    }
}

/// Single-bit mask selecting a flag inside the packed status byte.
pub open spec fn flag_mask(f: Flag) -> u8 {
    1u8 << flag_bit(f)
}

/// Whether a flag is set in a packed status byte.
pub open spec fn get_flag(bits: u8, f: Flag) -> bool {
    bits & flag_mask(f) != 0
}

/// A packed status byte with one flag forced to the given value and every
/// other bit unchanged.
pub open spec fn set_flag(bits: u8, f: Flag, value: bool) -> u8 {
    if value {
        bits | flag_mask(f)
    } else {
        bits & !flag_mask(f)
    }
}

/// A packed status byte with Negative set from bit 7 of a result value and
/// Zero set from whether the result is zero; all other bits unchanged.
pub open spec fn update_nz(bits: u8, v: u8) -> u8 {
    set_flag(set_flag(bits, Flag::Negative, v & 0x80 != 0), Flag::Zero, v == 0)
}

/// The status byte after a reset: InterruptDisable, Break and Break2 set,
/// everything else clear.
pub open spec fn default_status() -> u8 {
    0x34
}

impl Flag {
    /// Bit position of the flag inside the packed status byte.
    pub fn index(&self) -> (i: u8)
        ensures
            i == flag_bit(*self),
            i < 8,
    {
        match self {
            Flag::Carry => 0,
            Flag::Zero => 1,
            Flag::InterruptDisable => 2,
            Flag::Decimal => 3,
            Flag::Break => 4,
            Flag::Break2 => 5,
            Flag::Overflow => 6,
            Flag::Negative => 7,
        }
    }

    /// Single-bit mask selecting the flag.
    pub fn mask(&self) -> (m: u8)
        ensures
            m == flag_mask(*self),
    {
        1u8 << self.index()
    }
}

/// Setting or clearing one bit leaves every bit at another position alone,
/// and forces the selected bit to the requested value.
pub proof fn lemma_shift_masks()
    ensures
        forall|st: u8, i: u8| i < 8 ==> ((st | (1u8 << i)) & (1u8 << i)) != 0,
        forall|st: u8, i: u8| i < 8 ==> ((st & !(1u8 << i)) & (1u8 << i)) == 0,
        forall|st: u8, i: u8, j: u8|
            i < 8 && j < 8 && i != j ==> ((st | (1u8 << i)) & (1u8 << j)) == (st & (1u8 << j)),
        forall|st: u8, i: u8, j: u8|
            i < 8 && j < 8 && i != j ==> ((st & !(1u8 << i)) & (1u8 << j)) == (st & (1u8 << j)),
{
    assert(forall|st: u8, i: u8| i < 8 ==> ((st | (1u8 << i)) & (1u8 << i)) != 0) by (bit_vector);
    assert(forall|st: u8, i: u8| i < 8 ==> ((st & !(1u8 << i)) & (1u8 << i)) == 0) by (bit_vector);
    assert(forall|st: u8, i: u8, j: u8|
        i < 8 && j < 8 && i != j ==> ((st | (1u8 << i)) & (1u8 << j)) == (st & (1u8 << j)))
        by (bit_vector);
    assert(forall|st: u8, i: u8, j: u8|
        i < 8 && j < 8 && i != j ==> ((st & !(1u8 << i)) & (1u8 << j)) == (st & (1u8 << j)))
        by (bit_vector);
}

/// `set_flag` writes exactly the selected flag: afterwards that flag reads
/// back as the written value and every other flag is unchanged.
pub proof fn lemma_set_flag(bits: u8, f: Flag, v: bool)
    ensures
        get_flag(set_flag(bits, f, v), f) == v,
        forall|g: Flag| g != f ==> get_flag(set_flag(bits, f, v), g) == get_flag(bits, g),
{
    lemma_shift_masks();
    assert(flag_bit(f) < 8);
    assert forall|g: Flag| g != f implies get_flag(set_flag(bits, f, v), g) == get_flag(
        bits,
        g,
    ) by {
        assert(flag_bit(g) < 8);
        assert(flag_bit(g) != flag_bit(f));
    }
}

/// The 8-bit status register.
#[derive(Clone, Copy, PartialEq, Eq, Structural, Debug)]
pub struct Status {
    bits: u8,
}

impl View for Status {
    type V = u8;

    closed spec fn view(&self) -> u8 {
        self.bits
    }
}

impl Default for Status {
    /// The reset value: InterruptDisable, Break and Break2 set.
    fn default() -> (r: Self)
        ensures
            r@ == default_status(),
    {
        Status { bits: 0x34 }
    }
}

impl Status {
    /// A status register holding exactly the given packed byte.
    pub fn from_bits(bits: u8) -> (r: Self)
        ensures
            r@ == bits,
    {
        Status { bits }
    }

    /// The packed status byte.
    pub fn bits(&self) -> (r: u8)
        ensures
            r == self@,
    {
        self.bits
    }

    /// Whether the given flag is set.
    pub fn contains(&self, flag: Flag) -> (r: bool)
        ensures
            r == get_flag(self@, flag),
    {
        self.bits & flag.mask() != 0
    }

    /// Set the specified status bit to the given value, leaving every other
    /// bit untouched.
    pub fn set(&mut self, flag: Flag, value: bool)
        ensures
            final(self)@ == set_flag(old(self)@, flag, value),
            get_flag(final(self)@, flag) == value,
            forall|g: Flag| g != flag ==> get_flag(final(self)@, g) == get_flag(old(self)@, g),
    {
        let m = flag.mask();
        if value {
            self.bits = self.bits | m;
        } else {
            self.bits = self.bits & !m;
        }
        proof {
            lemma_set_flag(old(self)@, flag, value);
        }
    }

    /// Set the carry bit to whether the given 16-bit intermediate sum
    /// exceeds 255.
    pub fn set_carry(&mut self, result: u16)
        ensures
            final(self)@ == set_flag(old(self)@, Flag::Carry, result > 0xff),
            get_flag(final(self)@, Flag::Carry) == (result > 0xff),
            forall|g: Flag|
                g != Flag::Carry ==> get_flag(final(self)@, g) == get_flag(old(self)@, g),
    {
        self.set(Flag::Carry, result > 0xff);
    }

    /// Set the negative bit to the value of bit 7 of the given value.
    pub fn set_negative(&mut self, result: u8)
        ensures
            final(self)@ == set_flag(old(self)@, Flag::Negative, result & 0x80 != 0),
            get_flag(final(self)@, Flag::Negative) == (result & 0x80 != 0),
            forall|g: Flag|
                g != Flag::Negative ==> get_flag(final(self)@, g) == get_flag(old(self)@, g),
    {
        self.set(Flag::Negative, result & 0x80 != 0);
    }

    /// Set the overflow bit directly.
    pub fn set_overflow(&mut self, result: bool)
        ensures
            final(self)@ == set_flag(old(self)@, Flag::Overflow, result),
            get_flag(final(self)@, Flag::Overflow) == result,
            forall|g: Flag|
                g != Flag::Overflow ==> get_flag(final(self)@, g) == get_flag(old(self)@, g),
    {
        self.set(Flag::Overflow, result);
    }

    /// Set the zero bit to whether the given value is equal to zero.
    pub fn set_zero(&mut self, result: u8)
        ensures
            final(self)@ == set_flag(old(self)@, Flag::Zero, result == 0),
            get_flag(final(self)@, Flag::Zero) == (result == 0),
            forall|g: Flag| g != Flag::Zero ==> get_flag(final(self)@, g) == get_flag(old(self)@, g),
    {
        self.set(Flag::Zero, result == 0);
    }
}

} // verus!
