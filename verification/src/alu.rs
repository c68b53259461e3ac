//! The arithmetic and logic kernel.
//!
//! Every operation is a function from operand bytes and incoming flags to a
//! result byte and outgoing flags. The specification functions state the
//! result as integer arithmetic; the executable functions are proved to
//! compute exactly that.

use vstd::prelude::*;
use crate::flags::Flags;

verus! {

/// A result byte together with the flags the operation leaves behind.
#[derive(Clone, Copy, PartialEq, Eq, Structural, Debug)]
pub struct AluOut {
    pub value: u8,
    pub flags: Flags,
}

/// The eight accumulator operations, in the order of their opcode field.
#[derive(Clone, Copy, PartialEq, Eq, Structural, Debug)]
pub enum AluOp {
    Add,
    Adc,
    Sub,
    Sbb,
    Ana,
    Xra,
    Ora,
    Cmp,
}

/// A carry or borrow as a number.
pub open spec fn bit(c: bool) -> int {
    if c {
        1
    } else {
        0
    }
}

/// `a + v + cy`: the low eight bits of the sum, AC on a carry out of bit 3,
/// C on a carry out of bit 7.
pub open spec fn add_result(a: u8, v: u8, cy: bool) -> AluOut {
    let sum = a + v + bit(cy);
    let r = (sum % 256) as u8;
    AluOut { value: r, flags: Flags::of_result(r, a % 16 + v % 16 + bit(cy) >= 16, sum >= 256) }
}

/// `a - v - borrow`, formed as `a + !v + !borrow` with the carry complemented.
pub open spec fn sub_result(a: u8, v: u8, borrow: bool) -> AluOut {
    let r = add_result(a, (255 - v) as u8, !borrow);
    AluOut { value: r.value, flags: Flags { carry: !r.flags.carry, ..r.flags } }
}

/// `a & v`; C is cleared and AC is bit 3 of `a | v`.
pub open spec fn and_result(a: u8, v: u8) -> AluOut {
    let r = a & v;
    AluOut { value: r, flags: Flags::of_result(r, (a | v) & 0x08 != 0, false) }
}

/// `a ^ v`; C and AC are cleared.
pub open spec fn xor_result(a: u8, v: u8) -> AluOut {
    let r = a ^ v;
    AluOut { value: r, flags: Flags::of_result(r, false, false) }
}

/// `a | v`; C and AC are cleared.
pub open spec fn or_result(a: u8, v: u8) -> AluOut {
    let r = a | v;
    AluOut { value: r, flags: Flags::of_result(r, false, false) }
}

/// The flags of `a - v`: S, Z and P of the low byte of the difference, C on a
/// borrow, AC when the low nibble needs no borrow.
pub open spec fn compare_flags(a: u8, v: u8) -> Flags {
    let r = ((a - v) % 256) as u8;
    Flags::of_result(r, a % 16 >= v % 16, a < v)
}

/// `v + 1`; C is left as it was.
pub open spec fn increment_result(v: u8, f: Flags) -> AluOut {
    let r = ((v + 1) % 256) as u8;
    AluOut { value: r, flags: Flags::of_result(r, v % 16 == 15, f.carry) }
}

/// `v - 1`; C is left as it was.
pub open spec fn decrement_result(v: u8, f: Flags) -> AluOut {
    let r = ((v - 1) % 256) as u8;
    AluOut { value: r, flags: Flags::of_result(r, v % 16 != 0, f.carry) }
}

/// Whether decimal adjustment adds 6 to the low digit.
pub open spec fn adjusts_low(a: u8, f: Flags) -> bool {
    f.aux || a % 16 > 9
}

/// Whether decimal adjustment adds 6 to the high digit; this is also the
/// carry that the adjustment leaves.
pub open spec fn adjusts_high(a: u8, f: Flags) -> bool {
    f.carry || a / 16 > 9 || (a / 16 >= 9 && a % 16 > 9)
}

/// Decimal adjustment of `a` after the addition that left the flags `f`.
pub open spec fn decimal_adjust_result(a: u8, f: Flags) -> AluOut {
    let correction = (if adjusts_low(a, f) { 0x06int } else { 0 }) + (if adjusts_high(a, f) {
        0x60int
    } else {
        0
    });
    let r = add_result(a, correction as u8, false);
    AluOut { value: r.value, flags: Flags { carry: adjusts_high(a, f), ..r.flags } }
}

/// The accumulator and flags after `op` on accumulator `a` and operand `v`.
pub open spec fn alu_result(op: AluOp, a: u8, v: u8, f: Flags) -> AluOut {
    match op {
        AluOp::Add => add_result(a, v, false),
        AluOp::Adc => add_result(a, v, f.carry),
        AluOp::Sub => sub_result(a, v, false),
        AluOp::Sbb => sub_result(a, v, f.carry),
        AluOp::Ana => and_result(a, v),
        AluOp::Xra => xor_result(a, v),
        AluOp::Ora => or_result(a, v),
        AluOp::Cmp => AluOut { value: a, flags: compare_flags(a, v) },
    }
}

/// The byte whose parity an accumulator operation reports: the new
/// accumulator, or for a comparison the difference that is thrown away.
pub open spec fn alu_parity_subject(op: AluOp, a: u8, v: u8, f: Flags) -> u8 {
    match op {
        AluOp::Cmp => ((a - v) % 256) as u8,
        _ => alu_result(op, a, v, f).value,
    }
}

/// The 16-bit sum `hl + rp` modulo 65536.
pub open spec fn double_add_value(hl: u16, rp: u16) -> u16 {
    ((hl + rp) % 0x10000) as u16
}

/// Whether `hl + rp` carries out of bit 15.
pub open spec fn double_add_carry(hl: u16, rp: u16) -> bool {
    hl + rp >= 0x10000
}

/// Rotate left: bit 7 moves into bit 0 and into C.
pub open spec fn rotate_left_result(a: u8) -> (u8, bool) {
    ((a % 128 * 2 + a / 128) as u8, a >= 128)
}

/// Rotate right: bit 0 moves into bit 7 and into C.
pub open spec fn rotate_right_result(a: u8) -> (u8, bool) {
    ((a / 2 + a % 2 * 128) as u8, a % 2 == 1)
}

/// Rotate left through carry: C moves into bit 0, bit 7 into C.
pub open spec fn rotate_left_through_result(a: u8, cy: bool) -> (u8, bool) {
    ((a % 128 * 2 + bit(cy)) as u8, a >= 128)
}

/// Rotate right through carry: C moves into bit 7, bit 0 into C.
pub open spec fn rotate_right_through_result(a: u8, cy: bool) -> (u8, bool) {
    ((a / 2 + bit(cy) * 128) as u8, a % 2 == 1)
}

/// The weight of bit `n` of a 16-bit value.
pub open spec fn weight(n: u8) -> int {
    match n {
        0 => 1,
        1 => 2,
        2 => 4,
        3 => 8,
        4 => 16,
        5 => 32,
        6 => 64,
        7 => 128,
        8 => 256,
        9 => 512,
        10 => 1024,
        11 => 2048,
        12 => 4096,
        13 => 8192,
        14 => 16384,
        15 => 32768,
        _ => 65536,
    }
}

/// Whether `a + b + cy` carries into bit `n`: whether the bits below bit `n`
/// add up to the weight of bit `n` or more.
pub open spec fn carries_into(n: u8, a: u16, b: u16, cy: bool) -> bool {
    a % (weight(n) as u16) + b % (weight(n) as u16) + bit(cy) >= weight(n)
}

proof fn lemma_carry_bits(a: u16, b: u16, c: u16, r: u16)
    by (bit_vector)
    requires
        c <= 1,
        r == a + b + c || r == a + b + c - 65536,
    ensures
        ((r ^ a ^ b) & 1 != 0) <==> (a % 1 + b % 1 + c >= 1),
        ((r ^ a ^ b) & 2 != 0) <==> (a % 2 + b % 2 + c >= 2),
        ((r ^ a ^ b) & 4 != 0) <==> (a % 4 + b % 4 + c >= 4),
        ((r ^ a ^ b) & 8 != 0) <==> (a % 8 + b % 8 + c >= 8),
        ((r ^ a ^ b) & 16 != 0) <==> (a % 16 + b % 16 + c >= 16),
        ((r ^ a ^ b) & 32 != 0) <==> (a % 32 + b % 32 + c >= 32),
        ((r ^ a ^ b) & 64 != 0) <==> (a % 64 + b % 64 + c >= 64),
        ((r ^ a ^ b) & 128 != 0) <==> (a % 128 + b % 128 + c >= 128),
        ((r ^ a ^ b) & 256 != 0) <==> (a % 256 + b % 256 + c >= 256),
        ((r ^ a ^ b) & 512 != 0) <==> (a % 512 + b % 512 + c >= 512),
        ((r ^ a ^ b) & 1024 != 0) <==> (a % 1024 + b % 1024 + c >= 1024),
        ((r ^ a ^ b) & 2048 != 0) <==> (a % 2048 + b % 2048 + c >= 2048),
        ((r ^ a ^ b) & 4096 != 0) <==> (a % 4096 + b % 4096 + c >= 4096),
        ((r ^ a ^ b) & 8192 != 0) <==> (a % 8192 + b % 8192 + c >= 8192),
        ((r ^ a ^ b) & 16384 != 0) <==> (a % 16384 + b % 16384 + c >= 16384),
        ((r ^ a ^ b) & 32768 != 0) <==> (a % 32768 + b % 32768 + c >= 32768),
{
}

/// Tells whether `a + b + cy` carries into bit `bit_no`. The carry shows in
/// the sum: bit `bit_no` of the sum differs from what the two operands alone
/// would give.
pub fn carry(bit_no: u8, a: u16, b: u16, cy: bool) -> (c: bool)
    requires
        bit_no < 16,
    ensures
        c == carries_into(bit_no, a, b, cy),
{
    let c: u16 = if cy {
        1
    } else {
        0
    };
    let result = a.wrapping_add(b).wrapping_add(c);
    let carry = result ^ a ^ b;
    proof {
        assert(result == a + b + c || result == a + b + c - 65536);
        lemma_carry_bits(a, b, c, result);
        lemma_bit_weight(bit_no);
    }
    carry & (1u16 << bit_no) != 0
}

/// For two bytes, the carry into bit 4 is the carry out of the low nibbles
/// and the carry into bit 8 is the carry out of the bytes.
pub proof fn lemma_carries_into_nibble_and_byte(a: u8, v: u8, cy: bool)
    ensures
        carries_into(4, a as u16, v as u16, cy) == (a % 16 + v % 16 + bit(cy) >= 16),
        carries_into(8, a as u16, v as u16, cy) == (a + v + bit(cy) >= 256),
{
    assert(weight(4) == 16 && weight(8) == 256);
    assert((a as u16) % 16 == a % 16 && (v as u16) % 16 == v % 16);
    assert((a as u16) % 256 == a && (v as u16) % 256 == v);
}

proof fn lemma_bit_weight(n: u8)
    by (bit_vector)
    requires
        n < 16,
    ensures
        n == 0 ==> 1u16 << n == 1,
        n == 1 ==> 1u16 << n == 2,
        n == 2 ==> 1u16 << n == 4,
        n == 3 ==> 1u16 << n == 8,
        n == 4 ==> 1u16 << n == 16,
        n == 5 ==> 1u16 << n == 32,
        n == 6 ==> 1u16 << n == 64,
        n == 7 ==> 1u16 << n == 128,
        n == 8 ==> 1u16 << n == 256,
        n == 9 ==> 1u16 << n == 512,
        n == 10 ==> 1u16 << n == 1024,
        n == 11 ==> 1u16 << n == 2048,
        n == 12 ==> 1u16 << n == 4096,
        n == 13 ==> 1u16 << n == 8192,
        n == 14 ==> 1u16 << n == 16384,
        n == 15 ==> 1u16 << n == 32768,
{
}

/// Adds `v` and the carry `cy` to `a`.
pub fn add_with_carry(a: u8, v: u8, cy: bool) -> (out: AluOut)
    ensures
        out == add_result(a, v, cy),
{
    let c: u8 = if cy {
        1
    } else {
        0
    };
    let value = a.wrapping_add(v).wrapping_add(c);
    let aux = carry(4, a as u16, v as u16, cy);
    let carry = carry(8, a as u16, v as u16, cy);
    proof {
        lemma_carries_into_nibble_and_byte(a, v, cy);
        assert(value == (a + v + bit(cy)) % 256);
    }
    AluOut { value, flags: Flags::from_result(value, aux, carry) }
}

/// Subtracts `v` and the borrow `borrow` from `a`.
pub fn sub_with_borrow(a: u8, v: u8, borrow: bool) -> (out: AluOut)
    ensures
        out == sub_result(a, v, borrow),
{
    let r = add_with_carry(a, 255 - v, !borrow);
    AluOut {
        value: r.value,
        flags: Flags {
            sign: r.flags.sign,
            zero: r.flags.zero,
            aux: r.flags.aux,
            parity: r.flags.parity,
            carry: !r.flags.carry,
        },
    }
}

/// Bitwise AND of `a` and `v`.
pub fn and_bytes(a: u8, v: u8) -> (out: AluOut)
    ensures
        out == and_result(a, v),
{
    let value = a & v;
    AluOut { value, flags: Flags::from_result(value, (a | v) & 0x08 != 0, false) }
}

/// Bitwise exclusive OR of `a` and `v`.
pub fn xor_bytes(a: u8, v: u8) -> (out: AluOut)
    ensures
        out == xor_result(a, v),
{
    let value = a ^ v;
    AluOut { value, flags: Flags::from_result(value, false, false) }
}

/// Bitwise OR of `a` and `v`.
pub fn or_bytes(a: u8, v: u8) -> (out: AluOut)
    ensures
        out == or_result(a, v),
{
    let value = a | v;
    AluOut { value, flags: Flags::from_result(value, false, false) }
}

proof fn lemma_wide_difference(a: u8, v: u8, wide: u16)
    by (bit_vector)
    requires
        wide == a - v || wide == a - v + 65536,
    ensures
        !(a as u16 ^ wide ^ v as u16) & 0x10 != 0 <==> a % 16 >= v % 16,
        wide >> 8u16 != 0 <==> a < v,
        wide & 0xff == a - v || wide & 0xff == a - v + 256,
{
}

/// Compares `a` with `v` and returns the flags of `a - v`. The difference is
/// formed in sixteen bits: its high byte tells of a borrow, and bit 4 of the
/// difference, set against bit 4 of the operands, tells of a borrow from the
/// high nibble.
pub fn compare(a: u8, v: u8) -> (f: Flags)
    ensures
        f == compare_flags(a, v),
{
    let val = v as u16;
    let acc = a as u16;
    let wide = acc.wrapping_sub(val);
    proof {
        lemma_wide_difference(a, v, wide);
    }
    let ac = !(acc ^ wide ^ val) & 0x10;
    let borrow = wide >> 8u16 != 0;
    let result = (wide & 0xff) as u8;
    Flags::from_result(result, ac != 0, borrow)
}

/// Adds one to `v`, keeping the carry of `f`.
pub fn increment(v: u8, f: Flags) -> (out: AluOut)
    ensures
        out == increment_result(v, f),
{
    let value = v.wrapping_add(1);
    proof {
        lemma_carries_into_nibble_and_byte(v, 1, false);
    }
    AluOut { value, flags: Flags::from_result(value, carry(4, v as u16, 1, false), f.carry) }
}

/// Whether the low nibble of `x` and the low nibble of the two's complement of
/// `y` add up to 16 or more. When the low nibble of `y` is not zero this is
/// the auxiliary carry of `x - y`: the low nibble needs no borrow.
pub open spec fn complement_carries(x: u8, y: u8) -> bool {
    (16 - y % 16) % 16 + x % 16 >= 16
}

proof fn lemma_complement_nibble(x: u8, y: u8, negated: u8)
    by (bit_vector)
    requires
        negated == 255 - y,
    ensures
        ((if negated == 255 {
            0u8
        } else {
            (negated + 1) as u8
        }) & 0x0f) == (16 - y % 16) % 16,
        x & 0x0f == x % 16,
        ((16 - y % 16) % 16 + x % 16) as u8 & 0x10 != 0 <==> (16 - y % 16) % 16 + x % 16 >= 16,
{
}

/// Calculates the auxiliary carry of `x - y` from the low nibbles of `x` and
/// of the two's complement of `y`.
pub fn calc_ac(x: u8, y: u8) -> (ac: bool)
    ensures
        ac == complement_carries(x, y),
        y % 16 != 0 ==> ac == (x % 16 >= y % 16),
{
    let negated = 255 - y;
    let complement = negated.wrapping_add(1);
    proof {
        lemma_complement_nibble(x, y, negated);
    }
    ((complement & 0x0f) + (x & 0x0f)) & 0x10 != 0
}

/// Subtracts one from `v`, keeping the carry of `f`.
pub fn decrement(v: u8, f: Flags) -> (out: AluOut)
    ensures
        out == decrement_result(v, f),
{
    let value = v.wrapping_sub(1);
    AluOut { value, flags: Flags::from_result(value, calc_ac(v, 1), f.carry) }
}

/// Adjusts `a` to two packed decimal digits.
pub fn decimal_adjust(a: u8, f: Flags) -> (out: AluOut)
    ensures
        out == decimal_adjust_result(a, f),
{
    let lo = a % 16;
    let hi = a / 16;
    let mut correction: u8 = 0;
    if f.aux || lo > 9 {
        correction = correction + 0x06;
    }
    let high = f.carry || hi > 9 || (hi >= 9 && lo > 9);
    if high {
        correction = correction + 0x60;
    }
    let r = add_with_carry(a, correction, false);
    AluOut {
        value: r.value,
        flags: Flags {
            sign: r.flags.sign,
            zero: r.flags.zero,
            aux: r.flags.aux,
            parity: r.flags.parity,
            carry: high,
        },
    }
}

/// Applies the accumulator operation `op`.
pub fn alu(op: AluOp, a: u8, v: u8, f: Flags) -> (out: AluOut)
    ensures
        out == alu_result(op, a, v, f),
{
    match op {
        AluOp::Add => add_with_carry(a, v, false),
        AluOp::Adc => add_with_carry(a, v, f.carry),
        AluOp::Sub => sub_with_borrow(a, v, false),
        AluOp::Sbb => sub_with_borrow(a, v, f.carry),
        AluOp::Ana => and_bytes(a, v),
        AluOp::Xra => xor_bytes(a, v),
        AluOp::Ora => or_bytes(a, v),
        AluOp::Cmp => AluOut { value: a, flags: compare(a, v) },
    }
}

/// Adds two 16-bit values and reports the carry out of bit 15.
pub fn double_add(hl: u16, rp: u16) -> (out: (u16, bool))
    ensures
        out.0 == double_add_value(hl, rp),
        out.1 == double_add_carry(hl, rp),
{
    let sum: u32 = hl as u32 + rp as u32;
    ((sum % 0x10000) as u16, sum >= 0x10000)
}

proof fn lemma_rotations(a: u8)
    by (bit_vector)
    ensures
        a << 1u8 | a >> 7u8 == a % 128 * 2 + a / 128, a >> 1u8 | a << 7u8 == a / 2 + a % 2 * 128, a >> 7u8 == a / 128, a & 1 == a % 2,
{
}

proof fn lemma_rotations_through(a: u8, c: u8)
    by (bit_vector)
    requires
        c <= 1,
    ensures
        a << 1u8 | c == a % 128 * 2 + c, a >> 1u8 | c << 7u8 == a / 2 + c * 128,
{
}

/// Rotates `a` left by one bit.
pub fn rotate_left(a: u8) -> (out: (u8, bool))
    ensures
        out == rotate_left_result(a),
{
    proof {
        lemma_rotations(a);
    }
    (a << 1u8 | a >> 7u8, a >> 7u8 == 1)
}

/// Rotates `a` right by one bit.
pub fn rotate_right(a: u8) -> (out: (u8, bool))
    ensures
        out == rotate_right_result(a),
{
    proof {
        lemma_rotations(a);
    }
    (a >> 1u8 | a << 7u8, a & 1 == 1)
}

/// Rotates the nine bits of `cy` and `a` left by one.
pub fn rotate_left_through(a: u8, cy: bool) -> (out: (u8, bool))
    ensures
        out == rotate_left_through_result(a, cy),
{
    let c: u8 = if cy {
        1
    } else {
        0
    };
    proof {
        lemma_rotations(a);
        lemma_rotations_through(a, c);
    }
    (a << 1u8 | c, a >> 7u8 == 1)
}

/// Rotates the nine bits of `a` and `cy` right by one.
pub fn rotate_right_through(a: u8, cy: bool) -> (out: (u8, bool))
    ensures
        out == rotate_right_through_result(a, cy),
{
    let c: u8 = if cy {
        1
    } else {
        0
    };
    proof {
        lemma_rotations(a);
        lemma_rotations_through(a, c);
    }
    (a >> 1u8 | c << 7u8, a & 1 == 1)
}

} // verus!
