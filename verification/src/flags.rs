//! The five status flags and the byte they are packed into.
//!
//! The flag byte is laid out as `S Z 0 AC 0 P 1 C`, most significant bit
//! first. Bit 1 always reads as one and bits 3 and 5 always read as zero.

use vstd::prelude::*;

verus! {

/// Bits of the flag byte that hold a flag.
pub const FLAG_MASK: u8 = 0xD5;

/// Bits of the flag byte that are wired to a fixed level.
pub const FIXED_MASK: u8 = 0x2A;

/// Value of the fixed bits: bit 1 set, bits 3 and 5 clear.
pub const FIXED_BITS: u8 = 0x02;

/// Number of one bits in `x`.
pub open spec fn popcount(x: u8) -> int {
    x % 2 + x / 2 % 2 + x / 4 % 2 + x / 8 % 2 + x / 16 % 2 + x / 32 % 2 + x / 64 % 2 + x / 128
}

/// Whether `x` has an even number of one bits.
#[verifier::opaque]
pub open spec fn even_parity(x: u8) -> bool {
    popcount(x) % 2 == 0
}

proof fn lemma_parity_fold(x: u8, a: u8, b: u8, c: u8)
    by (bit_vector)
    requires
        a == x ^ (x >> 4u8),
        b == a ^ (a >> 2u8),
        c == b ^ (b >> 1u8),
    ensures
        (c & 1 == 0) <==> (x % 2 + x / 2 % 2 + x / 4 % 2 + x / 8 % 2 + x / 16 % 2 + x / 32 % 2 + x
            / 64 % 2 + x / 128) % 2 == 0,
{
}

/// Computes the parity flag of a result byte by folding the byte onto its
/// lowest bit.
pub fn parity(x: u8) -> (p: bool)
    ensures
        p == even_parity(x),
{
    let a = x ^ (x >> 4u8);
    let b = a ^ (a >> 2u8);
    let c = b ^ (b >> 1u8);
    proof {
        reveal(even_parity);
        lemma_parity_fold(x, a, b, c);
    }
    c & 1 == 0
}

/// The processor status flags.
#[derive(Clone, Copy, PartialEq, Eq, Structural, Debug)]
pub struct Flags {
    /// S: bit 7 of the last result.
    pub sign: bool,
    /// Z: the last result was zero.
    pub zero: bool,
    /// AC: carry out of bit 3.
    pub aux: bool,
    /// P: the last result had an even number of one bits.
    pub parity: bool,
    /// C: carry out of bit 7, or borrow.
    pub carry: bool,
}

impl Flags {
    /// The packed form `S Z 0 AC 0 P 1 C`.
    pub open spec fn byte(self) -> u8 {
        ((if self.sign { 128int } else { 0 }) + (if self.zero { 64int } else { 0 }) + (if self.aux {
            16int
        } else {
            0
        }) + (if self.parity { 4int } else { 0 }) + 2 + (if self.carry { 1int } else { 0 })) as u8
    }

    /// The flags held in a byte; the three fixed bits of the byte are ignored.
    pub open spec fn of_byte(b: u8) -> Flags {
        Flags {
            sign: b / 128 == 1,
            zero: b / 64 % 2 == 1,
            aux: b / 16 % 2 == 1,
            parity: b / 4 % 2 == 1,
            carry: b % 2 == 1,
        }
    }

    /// S, Z and P as the result byte `r` determines them, with the given AC and C.
    pub open spec fn of_result(r: u8, aux: bool, carry: bool) -> Flags {
        Flags { sign: r >= 128, zero: r == 0, aux, parity: even_parity(r), carry }
    }

    /// All flags clear, as after reset.
    pub open spec fn cleared() -> Flags {
        Flags { sign: false, zero: false, aux: false, parity: false, carry: false }
    }

    /// All flags clear, as after reset.
    pub fn new() -> (f: Flags)
        ensures
            f == Flags::cleared(),
            f.byte() == 2,
    {
        Flags { sign: false, zero: false, aux: false, parity: false, carry: false }
    }

    /// Packs the flags into a byte.
    pub fn to_byte(&self) -> (b: u8)
        ensures
            b == self.byte(),
            b & FIXED_MASK == FIXED_BITS,
    {
        let mut b: u8 = 2;
        if self.sign {
            b = b + 128;
        }
        if self.zero {
            b = b + 64;
        }
        if self.aux {
            b = b + 16;
        }
        if self.parity {
            b = b + 4;
        }
        if self.carry {
            b = b + 1;
        }
        proof {
            lemma_fixed_bits(*self);
        }
        b
    }

    /// Reads the flags out of a byte, ignoring its fixed bits.
    pub fn from_byte(b: u8) -> (f: Flags)
        ensures
            f == Flags::of_byte(b),
            f.byte() == b & FLAG_MASK | FIXED_BITS,
    {
        proof {
            lemma_unpack_normalizes(b);
        }
        Flags {
            sign: b / 128 == 1,
            zero: b / 64 % 2 == 1,
            aux: b / 16 % 2 == 1,
            parity: b / 4 % 2 == 1,
            carry: b % 2 == 1,
        }
    }

    /// Computes S, Z and P from a result byte and takes AC and C as given.
    pub fn from_result(r: u8, aux: bool, carry: bool) -> (f: Flags)
        ensures
            f == Flags::of_result(r, aux, carry),
    {
        Flags { sign: r >= 128, zero: r == 0, aux, parity: parity(r), carry }
    }
}

/// The parity flag is set exactly when the number of one bits is even.
pub proof fn lemma_even_parity(x: u8)
    ensures
        even_parity(x) == (popcount(x) % 2 == 0),
        0 <= popcount(x) <= 8,
{
    reveal(even_parity);
}

proof fn lemma_mask_of_digits(b: u8)
    by (bit_vector)
    ensures
        b & 0x2A == 0x02 <==> (b / 2 % 2 == 1 && b / 8 % 2 == 0 && b / 32 % 2 == 0),
        b & 0xD5 | 0x02 == (b / 128) * 128 + (b / 64 % 2) * 64 + (b / 16 % 2) * 16 + (b / 4 % 2) * 4
            + 2 + b % 2,
{
}

/// In every packed flag byte bit 1 is set and bits 3 and 5 are clear.
pub proof fn lemma_fixed_bits(f: Flags)
    ensures
        f.byte() & FIXED_MASK == FIXED_BITS,
        f.byte() / 2 % 2 == 1,
        f.byte() / 8 % 2 == 0,
        f.byte() / 32 % 2 == 0,
{
    lemma_mask_of_digits(f.byte());
}

/// Packing and then unpacking gives the flags back.
pub proof fn lemma_pack_unpack(f: Flags)
    ensures
        Flags::of_byte(f.byte()) == f,
{
}

/// Unpacking and then packing clears bits 3 and 5, sets bit 1 and keeps the rest.
pub proof fn lemma_unpack_normalizes(b: u8)
    ensures
        Flags::of_byte(b).byte() == b & FLAG_MASK | FIXED_BITS,
{
    lemma_mask_of_digits(b);
}

} // verus!
