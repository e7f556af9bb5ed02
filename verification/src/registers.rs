//! The register file: seven 8-bit registers, the flags, and the four
//! 16-bit pairs that are composed from them.

use vstd::prelude::*;

verus! {

/// The four condition flags. In byte form they occupy the high nibble:
/// zero is bit 7, subtract bit 6, half-carry bit 5 and carry bit 4.
#[derive(Clone, Copy, Debug, PartialEq, Eq, Structural)]
pub struct FlagsRegister {
    pub zero: bool,
    pub subtract: bool,
    pub half_carry: bool,
    pub carry: bool,
}

/// The eight registers of the processor.
#[derive(Clone, Copy, Debug, PartialEq, Eq, Structural)]
pub struct Registers {
    pub a: u8,
    pub b: u8,
    pub c: u8,
    pub d: u8,
    pub e: u8,
    pub f: FlagsRegister,
    pub h: u8,
    pub l: u8,
}

/// The 16-bit value whose high byte is `hi` and whose low byte is `lo`.
pub open spec fn pair_of(hi: u8, lo: u8) -> u16 {
    (hi as int * 256 + lo as int) as u16
}

/// The high byte of a 16-bit value.
pub open spec fn high_byte(value: u16) -> u8 {
    (value as int / 256) as u8
}

/// The low byte of a 16-bit value.
pub open spec fn low_byte(value: u16) -> u8 {
    (value as int % 256) as u8
}

/// How shifts and masks on bytes and words read as arithmetic.
pub proof fn lemma_byte_pair_bits(hi: u8, lo: u8, value: u16)
    by (bit_vector)
    ensures
        (hi as u16) << 8 | (lo as u16) == (hi as u16) * 256 + (lo as u16),
        ((value & 0xFF00) >> 8) as u8 == value / 256,
        (value >> 8) as u8 == value / 256,
        (value >> 8) & 0xFF == value / 256,
        (value & 0xFF) as u8 == value % 256,
        value & 0xFF == value % 256,
{
}

/// How the four flag bits read as arithmetic, in both directions.
pub proof fn lemma_flag_bits(z: u8, n: u8, h: u8, c: u8, byte: u8)
    by (bit_vector)
    requires
        z <= 1,
        n <= 1,
        h <= 1,
        c <= 1,
    ensures
        (z << 7 | n << 6 | h << 5 | c << 4) == 128 * z + 64 * n + 32 * h + 16 * c,
        ((byte >> 7) & 1 != 0) == (byte / 128 % 2 == 1),
        ((byte >> 6) & 1 != 0) == (byte / 64 % 2 == 1),
        ((byte >> 5) & 1 != 0) == (byte / 32 % 2 == 1),
        ((byte >> 4) & 1 != 0) == (byte / 16 % 2 == 1),
        byte & 0xF0 == byte / 16 * 16,
{
}

impl FlagsRegister {
    /// The byte form of the flags; its low nibble is zero.
    pub open spec fn spec_byte(self) -> u8 {
        ((if self.zero { 128int } else { 0 })
            + (if self.subtract { 64int } else { 0 })
            + (if self.half_carry { 32int } else { 0 })
            + (if self.carry { 16int } else { 0 })) as u8
    }

    /// The flags held in the high nibble of `byte`; the low nibble is ignored.
    pub open spec fn spec_from_byte(byte: u8) -> FlagsRegister {
        FlagsRegister {
            zero: byte as int / 128 % 2 == 1,
            subtract: byte as int / 64 % 2 == 1,
            half_carry: byte as int / 32 % 2 == 1,
            carry: byte as int / 16 % 2 == 1,
        }
    }

    /// All four flags clear.
    pub fn new() -> (flags: Self)
        ensures
            flags == (FlagsRegister { zero: false, subtract: false, half_carry: false, carry: false }),
            flags.spec_byte() == 0,
    {
        FlagsRegister { zero: false, subtract: false, half_carry: false, carry: false }
    }
}

impl From<FlagsRegister> for u8 {
    fn from(flag: FlagsRegister) -> (byte: u8) {
        let z: u8 = if flag.zero { 1 } else { 0 };
        let n: u8 = if flag.subtract { 1 } else { 0 };
        let h: u8 = if flag.half_carry { 1 } else { 0 };
        let c: u8 = if flag.carry { 1 } else { 0 };
        proof {
            lemma_flag_bits(z, n, h, c, 0);
        }
        z << 7 | n << 6 | h << 5 | c << 4
    }
}

impl vstd::std_specs::convert::FromSpecImpl<FlagsRegister> for u8 {
    open spec fn obeys_from_spec() -> bool {
        true
    }

    open spec fn from_spec(flag: FlagsRegister) -> u8 {
        flag.spec_byte()
    }
}

impl From<u8> for FlagsRegister {
    fn from(byte: u8) -> (flags: FlagsRegister) {
        proof {
            lemma_flag_bits(0, 0, 0, 0, byte);
        }
        FlagsRegister {
            zero: (byte >> 7) & 1 != 0,
            subtract: (byte >> 6) & 1 != 0,
            half_carry: (byte >> 5) & 1 != 0,
            carry: (byte >> 4) & 1 != 0,
        }
    }
}

impl vstd::std_specs::convert::FromSpecImpl<u8> for FlagsRegister {
    open spec fn obeys_from_spec() -> bool {
        true
    }

    open spec fn from_spec(byte: u8) -> FlagsRegister {
        FlagsRegister::spec_from_byte(byte)
    }
}

impl Registers {
    /// The pair `BC`: `B` in bits 8 to 15, `C` in bits 0 to 7.
    pub open spec fn spec_bc(self) -> u16 {
        pair_of(self.b, self.c)
    }

    /// The pair `DE`.
    pub open spec fn spec_de(self) -> u16 {
        pair_of(self.d, self.e)
    }

    /// The pair `HL`.
    pub open spec fn spec_hl(self) -> u16 {
        pair_of(self.h, self.l)
    }

    /// The pair `AF`; its low byte is the byte form of the flags.
    pub open spec fn spec_af(self) -> u16 {
        pair_of(self.a, self.f.spec_byte())
    }

    /// The registers after `value` is written to `BC`.
    pub open spec fn with_bc(self, value: u16) -> Registers {
        Registers { b: high_byte(value), c: low_byte(value), ..self }
    }

    /// The registers after `value` is written to `DE`.
    pub open spec fn with_de(self, value: u16) -> Registers {
        Registers { d: high_byte(value), e: low_byte(value), ..self }
    }

    /// The registers after `value` is written to `HL`.
    pub open spec fn with_hl(self, value: u16) -> Registers {
        Registers { h: high_byte(value), l: low_byte(value), ..self }
    }

    /// The registers after `value` is written to `AF`: the flags take the
    /// high nibble of the low byte, and the low nibble is dropped.
    pub open spec fn with_af(self, value: u16) -> Registers {
        Registers {
            a: high_byte(value),
            f: FlagsRegister::spec_from_byte(low_byte(value)),
            ..self
        }
    }

    /// The registers after all four flags are overwritten.
    pub open spec fn with_flags(self, zero: bool, subtract: bool, half_carry: bool, carry: bool) -> Registers {
        Registers { f: FlagsRegister { zero, subtract, half_carry, carry }, ..self }
    }

    /// All registers zero and all flags clear.
    pub fn new() -> (registers: Self)
        ensures
            registers == (Registers {
                a: 0,
                b: 0,
                c: 0,
                d: 0,
                e: 0,
                f: FlagsRegister { zero: false, subtract: false, half_carry: false, carry: false },
                h: 0,
                l: 0,
            }),
    {
        Registers { a: 0x0, b: 0x0, c: 0x0, d: 0x0, e: 0x0, f: FlagsRegister::new(), h: 0x0, l: 0x0 }
    }

    pub fn get_bc(&self) -> (value: u16)
        ensures
            value == self.spec_bc(),
    {
        join(self.b, self.c)
    }

    pub fn set_bc(&mut self, value: u16)
        ensures
            *final(self) == old(self).with_bc(value),
    {
        let (hi, lo) = split(value);
        self.b = hi;
        self.c = lo;
    }

    pub fn get_af(&self) -> (value: u16)
        ensures
            value == self.spec_af(),
    {
        join(self.a, u8::from(self.f))
    }

    pub fn set_af(&mut self, value: u16)
        ensures
            *final(self) == old(self).with_af(value),
    {
        let (hi, lo) = split(value);
        self.a = hi;
        self.f = FlagsRegister::from(lo);
    }

    pub fn get_de(&self) -> (value: u16)
        ensures
            value == self.spec_de(),
    {
        join(self.d, self.e)
    }

    pub fn set_de(&mut self, value: u16)
        ensures
            *final(self) == old(self).with_de(value),
    {
        let (hi, lo) = split(value);
        self.d = hi;
        self.e = lo;
    }

    pub fn get_hl(&self) -> (value: u16)
        ensures
            value == self.spec_hl(),
    {
        join(self.h, self.l)
    }

    pub fn set_hl(&mut self, value: u16)
        ensures
            *final(self) == old(self).with_hl(value),
    {
        let (hi, lo) = split(value);
        self.h = hi;
        self.l = lo;
    }

    /// Overwrites all four flags at once.
    pub fn set_flags(&mut self, zero: bool, subtract: bool, half_carry: bool, carry: bool)
        ensures
            *final(self) == old(self).with_flags(zero, subtract, half_carry, carry),
    {
        self.f = FlagsRegister { zero, subtract, half_carry, carry };
    }
}

/// Composes a word from its high and low bytes.
pub fn join(hi: u8, lo: u8) -> (value: u16)
    ensures
        value == pair_of(hi, lo),
{
    proof {
        lemma_byte_pair_bits(hi, lo, 0);
    }
    (hi as u16) << 8 | (lo as u16)
}

/// Splits a word into its high and low bytes.
pub fn split(value: u16) -> (bytes: (u8, u8))
    ensures
        bytes == (high_byte(value), low_byte(value)),
{
    proof {
        lemma_byte_pair_bits(0, 0, value);
    }
    (((value & 0xFF00) >> 8) as u8, (value & 0xFF) as u8)
}

/// Writing a word to a pair and reading the pair gives the word back, and
/// the two halves hold its high and low bytes. (`AF` is the exception: its
/// low nibble always reads as zero.)
pub proof fn lemma_pair_round_trip(registers: Registers, value: u16)
    ensures
        registers.with_hl(value).spec_hl() == value,
        registers.with_hl(value).h == (value >> 8) & 0xFF,
        registers.with_hl(value).l == value & 0xFF,
        registers.with_bc(value).spec_bc() == value,
        registers.with_bc(value).b == (value >> 8) & 0xFF,
        registers.with_bc(value).c == value & 0xFF,
        registers.with_de(value).spec_de() == value,
        registers.with_de(value).d == (value >> 8) & 0xFF,
        registers.with_de(value).e == value & 0xFF,
        registers.with_af(value).spec_af() == value as int / 16 * 16,
        registers.with_af(value).a == (value >> 8) & 0xFF,
{
    lemma_byte_pair_bits(0, 0, value);
}

/// A word is the pair of its own halves, and the halves of a pair are the
/// bytes it was made of.
pub proof fn lemma_halves(hi: u8, lo: u8, value: u16)
    ensures
        pair_of(high_byte(value), low_byte(value)) == value,
        high_byte(pair_of(hi, lo)) == hi,
        low_byte(pair_of(hi, lo)) == lo,
{
}

/// Packing the flags into a byte and unpacking that byte gives the same four
/// flags back, and the low nibble of the byte form is always zero.
pub proof fn lemma_flags_round_trip(flags: FlagsRegister)
    ensures
        FlagsRegister::spec_from_byte(flags.spec_byte()) == flags,
        flags.spec_byte() as int % 16 == 0,
{
}

/// Unpacking a byte and packing the flags again keeps the high nibble and
/// clears the low one.
pub proof fn lemma_byte_round_trip(byte: u8)
    ensures
        FlagsRegister::spec_from_byte(byte).spec_byte() == byte as int / 16 * 16,
{
}

} // verus!
