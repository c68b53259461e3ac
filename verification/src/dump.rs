//! The text of the processor's diagnostic dump.

use vstd::prelude::*;
use crate::state::{CpuState, InterruptEnable};

verus! {

/// Taken on trust from the standard library: `String::push` leaves the
/// string as it was with the character `ch` appended.
pub assume_specification[ String::push ](s: &mut String, ch: char)
    ensures
        final(s)@ == old(s)@.push(ch),
;

/// Taken on trust from the standard library: `String::push_str` leaves the
/// string as it was with the characters of `string` appended.
pub assume_specification[ String::push_str ](s: &mut String, string: &str)
    ensures
        final(s)@ == old(s)@ + string@,
;

/// The character for a digit below sixteen, lower case from ten on.
pub open spec fn digit(d: int) -> char {
    if d == 0 {
        '0'
    } else if d == 1 {
        '1'
    } else if d == 2 {
        '2'
    } else if d == 3 {
        '3'
    } else if d == 4 {
        '4'
    } else if d == 5 {
        '5'
    } else if d == 6 {
        '6'
    } else if d == 7 {
        '7'
    } else if d == 8 {
        '8'
    } else if d == 9 {
        '9'
    } else if d == 10 {
        'a'
    } else if d == 11 {
        'b'
    } else if d == 12 {
        'c'
    } else if d == 13 {
        'd'
    } else if d == 14 {
        'e'
    } else {
        'f'
    }
}

/// `n` in decimal without leading zeros.
pub open spec fn decimal(n: nat) -> Seq<char>
    decreases n,
{
    if n < 10 {
        seq![digit(n as int)]
    } else {
        decimal(n / 10).push(digit((n % 10) as int))
    }
}

/// `b` as two hexadecimal digits.
pub open spec fn hex_byte(b: u8) -> Seq<char> {
    seq![digit(b as int / 16), digit(b as int % 16)]
}

/// `b` as eight binary digits, most significant first.
pub open spec fn binary_byte(b: u8) -> Seq<char> {
    seq![
        digit(b as int / 128),
        digit(b as int / 64 % 2),
        digit(b as int / 32 % 2),
        digit(b as int / 16 % 2),
        digit(b as int / 8 % 2),
        digit(b as int / 4 % 2),
        digit(b as int / 2 % 2),
        digit(b as int % 2),
    ]
}

/// A flag as `1` or `0`.
pub open spec fn flag_digit(f: bool) -> char {
    if f {
        '1'
    } else {
        '0'
    }
}

/// A truth value as `true` or `false`.
pub open spec fn boolean(b: bool) -> Seq<char> {
    if b {
        "true"@
    } else {
        "false"@
    }
}

/// The number that the dump shows for the interrupt-enable flip-flop.
pub open spec fn interrupt_code(ie: InterruptEnable) -> u8 {
    match ie {
        InterruptEnable::Disabled => 0,
        InterruptEnable::Enabled => 1,
        InterruptEnable::ArmPending => 2,
        InterruptEnable::Armed => 4,
    }
}

/// First line of the dump, behind an empty line: program counter and stack
/// pointer in decimal, the halt state, the interrupt-enable flip-flop in binary.
pub open spec fn control_line(s: CpuState) -> Seq<char> {
    "\nPC: "@ + decimal(s.pc as nat) + ", SP: "@ + decimal(s.sp as nat) + ", Halt: "@ + boolean(
        s.halted,
    ) + ", Interrupt: "@ + binary_byte(interrupt_code(s.ie)) + "\n"@
}

/// Second line of the dump: the seven registers in hexadecimal.
pub open spec fn register_line(s: CpuState) -> Seq<char> {
    "Registers: B: 0x"@ + hex_byte(s.b) + ", C: 0x"@ + hex_byte(s.c) + ", D: 0x"@ + hex_byte(s.d)
        + ", E: 0x"@ + hex_byte(s.e) + ", H: 0x"@ + hex_byte(s.h) + ", L: 0x"@ + hex_byte(s.l)
        + ", A: 0x"@ + hex_byte(s.a) + "\n"@
}

/// Third line of the dump: the five flags.
pub open spec fn flag_line(s: CpuState) -> Seq<char> {
    "Flags: S: "@.push(flag_digit(s.flags.sign)) + ", Z: "@.push(flag_digit(s.flags.zero))
        + ", A: "@.push(flag_digit(s.flags.aux)) + ", P: "@.push(flag_digit(s.flags.parity))
        + ", C: "@.push(flag_digit(s.flags.carry)) + "\n"@
}

/// The whole dump.
pub open spec fn dump_text(s: CpuState) -> Seq<char> {
    control_line(s) + register_line(s) + flag_line(s)
}

/// Gives the character for a digit below sixteen.
pub fn digit_char(d: u8) -> (c: char)
    requires
        d < 16,
    ensures
        c == digit(d as int),
{
    match d {
        0 => '0',
        1 => '1',
        2 => '2',
        3 => '3',
        4 => '4',
        5 => '5',
        6 => '6',
        7 => '7',
        8 => '8',
        9 => '9',
        10 => 'a',
        11 => 'b',
        12 => 'c',
        13 => 'd',
        14 => 'e',
        _ => 'f',
    }
}

/// Appends `n` in decimal.
pub fn push_decimal(out: &mut String, n: u16)
    ensures
        final(out)@ == old(out)@ + decimal(n as nat),
    decreases n,
{
    if n >= 10 {
        push_decimal(out, n / 10);
    }
    out.push(digit_char((n % 10) as u8));
    assert(out@ =~= old(out)@ + decimal(n as nat));
}

/// Appends `b` as two hexadecimal digits.
pub fn push_hex_byte(out: &mut String, b: u8)
    ensures
        final(out)@ == old(out)@ + hex_byte(b),
{
    out.push(digit_char(b / 16));
    out.push(digit_char(b % 16));
    assert(out@ =~= old(out)@ + hex_byte(b));
}

/// Appends `b` as eight binary digits.
pub fn push_binary_byte(out: &mut String, b: u8)
    ensures
        final(out)@ == old(out)@ + binary_byte(b),
{
    out.push(digit_char(b / 128));
    out.push(digit_char(b / 64 % 2));
    out.push(digit_char(b / 32 % 2));
    out.push(digit_char(b / 16 % 2));
    out.push(digit_char(b / 8 % 2));
    out.push(digit_char(b / 4 % 2));
    out.push(digit_char(b / 2 % 2));
    out.push(digit_char(b % 2));
    assert(out@ =~= old(out)@ + binary_byte(b));
}

/// Appends a label and behind it a flag as `1` or `0`.
pub fn push_flag(out: &mut String, label: &str, f: bool)
    ensures
        final(out)@ == old(out)@ + label@.push(flag_digit(f)),
{
    out.push_str(label);
    out.push(
        if f {
            '1'
        } else {
            '0'
        },
    );
    assert(out@ =~= old(out)@ + label@.push(flag_digit(f)));
}

} // verus!
