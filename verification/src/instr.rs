//! Instructions, their encoding, length and timing.

use vstd::prelude::*;
use crate::alu::AluOp;
use crate::flags::Flags;

verus! {

/// An 8-bit operand: a register, or `M`, the memory byte that `HL` points at.
#[derive(Clone, Copy, PartialEq, Eq, Structural, Debug)]
pub enum Reg {
    B,
    C,
    D,
    E,
    H,
    L,
    M,
    A,
}

/// A 16-bit operand of `LXI`, `INX`, `DCX` and `DAD`.
#[derive(Clone, Copy, PartialEq, Eq, Structural, Debug)]
pub enum Pair {
    BC,
    DE,
    HL,
    SP,
}

/// The register pair that `LDAX` and `STAX` take the address from.
#[derive(Clone, Copy, PartialEq, Eq, Structural, Debug)]
pub enum IndexPair {
    BC,
    DE,
}

/// A 16-bit operand of `PUSH` and `POP`; `PSW` is the accumulator and the flag byte.
#[derive(Clone, Copy, PartialEq, Eq, Structural, Debug)]
pub enum StackPair {
    BC,
    DE,
    HL,
    PSW,
}

/// The condition of a conditional jump, call or return.
#[derive(Clone, Copy, PartialEq, Eq, Structural, Debug)]
pub enum Cond {
    /// Z clear.
    NZ,
    /// Z set.
    Z,
    /// C clear.
    NC,
    /// C set.
    C,
    /// P clear: odd parity.
    PO,
    /// P set: even parity.
    PE,
    /// S clear: plus.
    P,
    /// S set: minus.
    M,
}

/// A decoded instruction. Immediate operands stay in memory behind the opcode.
#[derive(Clone, Copy, PartialEq, Eq, Structural, Debug)]
pub enum Instr {
    Nop,
    Hlt,
    /// `MOV dst, src`.
    Mov(Reg, Reg),
    Mvi(Reg),
    Lxi(Pair),
    Lda,
    Sta,
    Lhld,
    Shld,
    Ldax(IndexPair),
    Stax(IndexPair),
    Xchg,
    Inx(Pair),
    Dcx(Pair),
    Inr(Reg),
    Dcr(Reg),
    Dad(Pair),
    /// An accumulator operation on a register or `M`.
    Alu(AluOp, Reg),
    /// An accumulator operation on the byte behind the opcode.
    AluImm(AluOp),
    Rlc,
    Rrc,
    Ral,
    Rar,
    Cma,
    Cmc,
    Stc,
    Daa,
    Jmp,
    Jcc(Cond),
    Call,
    Ccc(Cond),
    Ret,
    Rcc(Cond),
    Pchl,
    Sphl,
    Xthl,
    Push(StackPair),
    Pop(StackPair),
    /// `RST n`: a call to address `8 * n`.
    Rst(u8),
    In,
    Out,
    Ei,
    Di,
}

impl Reg {
    /// The operand that a three-bit register field selects:
    /// 0 to 7 are B, C, D, E, H, L, M, A.
    pub open spec fn of_code(code: u8) -> Reg {
        match code % 8 {
            0 => Reg::B,
            1 => Reg::C,
            2 => Reg::D,
            3 => Reg::E,
            4 => Reg::H,
            5 => Reg::L,
            6 => Reg::M,
            _ => Reg::A,
        }
    }

    /// Reads a three-bit register field.
    pub fn from_code(code: u8) -> (r: Reg)
        ensures
            r == Reg::of_code(code),
    {
        match code % 8 {
            0 => Reg::B,
            1 => Reg::C,
            2 => Reg::D,
            3 => Reg::E,
            4 => Reg::H,
            5 => Reg::L,
            6 => Reg::M,
            _ => Reg::A,
        }
    }
}

impl AluOp {
    /// The operation that a three-bit operation field selects:
    /// 0 to 7 are ADD, ADC, SUB, SBB, ANA, XRA, ORA, CMP.
    pub open spec fn of_code(code: u8) -> AluOp {
        match code % 8 {
            0 => AluOp::Add,
            1 => AluOp::Adc,
            2 => AluOp::Sub,
            3 => AluOp::Sbb,
            4 => AluOp::Ana,
            5 => AluOp::Xra,
            6 => AluOp::Ora,
            _ => AluOp::Cmp,
        }
    }

    /// Reads a three-bit operation field.
    pub fn from_code(code: u8) -> (op: AluOp)
        ensures
            op == AluOp::of_code(code),
    {
        match code % 8 {
            0 => AluOp::Add,
            1 => AluOp::Adc,
            2 => AluOp::Sub,
            3 => AluOp::Sbb,
            4 => AluOp::Ana,
            5 => AluOp::Xra,
            6 => AluOp::Ora,
            _ => AluOp::Cmp,
        }
    }
}

impl Cond {
    /// The condition that a three-bit condition field selects:
    /// 0 to 7 are NZ, Z, NC, C, PO, PE, P, M.
    pub open spec fn of_code(code: u8) -> Cond {
        match code % 8 {
            0 => Cond::NZ,
            1 => Cond::Z,
            2 => Cond::NC,
            3 => Cond::C,
            4 => Cond::PO,
            5 => Cond::PE,
            6 => Cond::P,
            _ => Cond::M,
        }
    }

    /// Reads a three-bit condition field.
    pub fn from_code(code: u8) -> (c: Cond)
        ensures
            c == Cond::of_code(code),
    {
        match code % 8 {
            0 => Cond::NZ,
            1 => Cond::Z,
            2 => Cond::NC,
            3 => Cond::C,
            4 => Cond::PO,
            5 => Cond::PE,
            6 => Cond::P,
            _ => Cond::M,
        }
    }

    /// Whether the condition is met by the flags `f`.
    pub open spec fn holds(self, f: Flags) -> bool {
        match self {
            Cond::NZ => !f.zero,
            Cond::Z => f.zero,
            Cond::NC => !f.carry,
            Cond::C => f.carry,
            Cond::PO => !f.parity,
            Cond::PE => f.parity,
            Cond::P => !f.sign,
            Cond::M => f.sign,
        }
    }

    /// Tests the condition against the flags `f`.
    pub fn test(self, f: Flags) -> (b: bool)
        ensures
            b == self.holds(f),
    {
        match self {
            Cond::NZ => !f.zero,
            Cond::Z => f.zero,
            Cond::NC => !f.carry,
            Cond::C => f.carry,
            Cond::PO => !f.parity,
            Cond::PE => f.parity,
            Cond::P => !f.sign,
            Cond::M => f.sign,
        }
    }
}

impl Pair {
    /// The pair that a two-bit pair field selects: 0 to 3 are BC, DE, HL, SP.
    pub open spec fn of_code(code: u8) -> Pair {
        match code % 4 {
            0 => Pair::BC,
            1 => Pair::DE,
            2 => Pair::HL,
            _ => Pair::SP,
        }
    }

    /// Reads a two-bit pair field.
    pub fn from_code(code: u8) -> (p: Pair)
        ensures
            p == Pair::of_code(code),
    {
        match code % 4 {
            0 => Pair::BC,
            1 => Pair::DE,
            2 => Pair::HL,
            _ => Pair::SP,
        }
    }
}

impl StackPair {
    /// The pair that a two-bit pair field selects in `PUSH` and `POP`:
    /// 0 to 3 are BC, DE, HL, PSW.
    pub open spec fn of_code(code: u8) -> StackPair {
        match code % 4 {
            0 => StackPair::BC,
            1 => StackPair::DE,
            2 => StackPair::HL,
            _ => StackPair::PSW,
        }
    }

    /// Reads a two-bit pair field of `PUSH` or `POP`.
    pub fn from_code(code: u8) -> (p: StackPair)
        ensures
            p == StackPair::of_code(code),
    {
        match code % 4 {
            0 => StackPair::BC,
            1 => StackPair::DE,
            2 => StackPair::HL,
            _ => StackPair::PSW,
        }
    }
}

/// The opcode table: the instruction that each of the 256 opcodes stands for.
///
/// In `0x40..=0x7F` bits 5 to 3 name the destination and bits 2 to 0 the source
/// of a `MOV`, except that `0x76` is `HLT`. In `0x80..=0xBF` bits 5 to 3 name
/// the operation and bits 2 to 0 its operand. The eight opcodes
/// `0x00, 0x08, .. 0x38` are all `NOP`; `0xCB` is a second `JMP`, `0xD9` a
/// second `RET`, and `0xDD`, `0xED`, `0xFD` are further `CALL`s.
pub open spec fn instruction(op: u8) -> Instr {
    if op == 0x76 {
        Instr::Hlt
    } else if 0x40 <= op <= 0x7F {
        Instr::Mov(Reg::of_code(op / 8), Reg::of_code(op))
    } else if 0x80 <= op <= 0xBF {
        Instr::Alu(AluOp::of_code(op / 8), Reg::of_code(op))
    } else {
        instruction_outside_blocks(op)
    }
}

/// The opcode table outside the two regular blocks `0x40..=0x7F` (`MOV`, `HLT`)
/// and `0x80..=0xBF` (accumulator operations on a register).
pub open spec fn instruction_outside_blocks(op: u8) -> Instr {
    match op {
        0x01 => Instr::Lxi(Pair::BC),
        0x11 => Instr::Lxi(Pair::DE),
        0x21 => Instr::Lxi(Pair::HL),
        0x31 => Instr::Lxi(Pair::SP),
        0x02 => Instr::Stax(IndexPair::BC),
        0x12 => Instr::Stax(IndexPair::DE),
        0x0A => Instr::Ldax(IndexPair::BC),
        0x1A => Instr::Ldax(IndexPair::DE),
        0x22 => Instr::Shld,
        0x2A => Instr::Lhld,
        0x32 => Instr::Sta,
        0x3A => Instr::Lda,
        0x03 => Instr::Inx(Pair::BC),
        0x13 => Instr::Inx(Pair::DE),
        0x23 => Instr::Inx(Pair::HL),
        0x33 => Instr::Inx(Pair::SP),
        0x0B => Instr::Dcx(Pair::BC),
        0x1B => Instr::Dcx(Pair::DE),
        0x2B => Instr::Dcx(Pair::HL),
        0x3B => Instr::Dcx(Pair::SP),
        0x04 => Instr::Inr(Reg::B),
        0x0C => Instr::Inr(Reg::C),
        0x14 => Instr::Inr(Reg::D),
        0x1C => Instr::Inr(Reg::E),
        0x24 => Instr::Inr(Reg::H),
        0x2C => Instr::Inr(Reg::L),
        0x34 => Instr::Inr(Reg::M),
        0x3C => Instr::Inr(Reg::A),
        0x05 => Instr::Dcr(Reg::B),
        0x0D => Instr::Dcr(Reg::C),
        0x15 => Instr::Dcr(Reg::D),
        0x1D => Instr::Dcr(Reg::E),
        0x25 => Instr::Dcr(Reg::H),
        0x2D => Instr::Dcr(Reg::L),
        0x35 => Instr::Dcr(Reg::M),
        0x3D => Instr::Dcr(Reg::A),
        0x06 => Instr::Mvi(Reg::B),
        0x0E => Instr::Mvi(Reg::C),
        0x16 => Instr::Mvi(Reg::D),
        0x1E => Instr::Mvi(Reg::E),
        0x26 => Instr::Mvi(Reg::H),
        0x2E => Instr::Mvi(Reg::L),
        0x36 => Instr::Mvi(Reg::M),
        0x3E => Instr::Mvi(Reg::A),
        0x07 => Instr::Rlc,
        0x0F => Instr::Rrc,
        0x17 => Instr::Ral,
        0x1F => Instr::Rar,
        0x27 => Instr::Daa,
        0x2F => Instr::Cma,
        0x37 => Instr::Stc,
        0x3F => Instr::Cmc,
        0x09 => Instr::Dad(Pair::BC),
        0x19 => Instr::Dad(Pair::DE),
        0x29 => Instr::Dad(Pair::HL),
        0x39 => Instr::Dad(Pair::SP),
        0xC6 => Instr::AluImm(AluOp::Add),
        0xCE => Instr::AluImm(AluOp::Adc),
        0xD6 => Instr::AluImm(AluOp::Sub),
        0xDE => Instr::AluImm(AluOp::Sbb),
        0xE6 => Instr::AluImm(AluOp::Ana),
        0xEE => Instr::AluImm(AluOp::Xra),
        0xF6 => Instr::AluImm(AluOp::Ora),
        0xFE => Instr::AluImm(AluOp::Cmp),
        0xC3 | 0xCB => Instr::Jmp,
        0xC2 => Instr::Jcc(Cond::NZ),
        0xCA => Instr::Jcc(Cond::Z),
        0xD2 => Instr::Jcc(Cond::NC),
        0xDA => Instr::Jcc(Cond::C),
        0xE2 => Instr::Jcc(Cond::PO),
        0xEA => Instr::Jcc(Cond::PE),
        0xF2 => Instr::Jcc(Cond::P),
        0xFA => Instr::Jcc(Cond::M),
        0xCD | 0xDD | 0xED | 0xFD => Instr::Call,
        0xC4 => Instr::Ccc(Cond::NZ),
        0xCC => Instr::Ccc(Cond::Z),
        0xD4 => Instr::Ccc(Cond::NC),
        0xDC => Instr::Ccc(Cond::C),
        0xE4 => Instr::Ccc(Cond::PO),
        0xEC => Instr::Ccc(Cond::PE),
        0xF4 => Instr::Ccc(Cond::P),
        0xFC => Instr::Ccc(Cond::M),
        0xC9 | 0xD9 => Instr::Ret,
        0xC0 => Instr::Rcc(Cond::NZ),
        0xC8 => Instr::Rcc(Cond::Z),
        0xD0 => Instr::Rcc(Cond::NC),
        0xD8 => Instr::Rcc(Cond::C),
        0xE0 => Instr::Rcc(Cond::PO),
        0xE8 => Instr::Rcc(Cond::PE),
        0xF0 => Instr::Rcc(Cond::P),
        0xF8 => Instr::Rcc(Cond::M),
        0xE9 => Instr::Pchl,
        0xF9 => Instr::Sphl,
        0xE3 => Instr::Xthl,
        0xEB => Instr::Xchg,
        0xC5 => Instr::Push(StackPair::BC),
        0xD5 => Instr::Push(StackPair::DE),
        0xE5 => Instr::Push(StackPair::HL),
        0xF5 => Instr::Push(StackPair::PSW),
        0xC1 => Instr::Pop(StackPair::BC),
        0xD1 => Instr::Pop(StackPair::DE),
        0xE1 => Instr::Pop(StackPair::HL),
        0xF1 => Instr::Pop(StackPair::PSW),
        0xC7 => Instr::Rst(0),
        0xCF => Instr::Rst(1),
        0xD7 => Instr::Rst(2),
        0xDF => Instr::Rst(3),
        0xE7 => Instr::Rst(4),
        0xEF => Instr::Rst(5),
        0xF7 => Instr::Rst(6),
        0xFF => Instr::Rst(7),
        0xDB => Instr::In,
        0xD3 => Instr::Out,
        0xFB => Instr::Ei,
        0xF3 => Instr::Di,
        // 0x00, 0x08, 0x10, 0x18, 0x20, 0x28, 0x30, 0x38
        _ => Instr::Nop,
    }
}


/// Decodes an opcode from its bit fields: bits 7 and 6 select one of four
/// blocks, bits 5 to 3 and bits 2 to 0 select within the block.
pub fn decode(op: u8) -> (i: Instr)
    ensures
        i == instruction(op),
{
    let block = op / 64;
    let y = op / 8 % 8;
    let z = op % 8;
    if block == 1 {
        if op == 0x76 {
            Instr::Hlt
        } else {
            Instr::Mov(Reg::from_code(y), Reg::from_code(z))
        }
    } else if block == 2 {
        Instr::Alu(AluOp::from_code(y), Reg::from_code(z))
    } else if block == 0 {
        match z {
            0 => Instr::Nop,
            1 => if y % 2 == 0 {
                Instr::Lxi(Pair::from_code(y / 2))
            } else {
                Instr::Dad(Pair::from_code(y / 2))
            },
            2 => match y {
                0 => Instr::Stax(IndexPair::BC),
                1 => Instr::Ldax(IndexPair::BC),
                2 => Instr::Stax(IndexPair::DE),
                3 => Instr::Ldax(IndexPair::DE),
                4 => Instr::Shld,
                5 => Instr::Lhld,
                6 => Instr::Sta,
                _ => Instr::Lda,
            },
            3 => if y % 2 == 0 {
                Instr::Inx(Pair::from_code(y / 2))
            } else {
                Instr::Dcx(Pair::from_code(y / 2))
            },
            4 => Instr::Inr(Reg::from_code(y)),
            5 => Instr::Dcr(Reg::from_code(y)),
            6 => Instr::Mvi(Reg::from_code(y)),
            _ => match y {
                0 => Instr::Rlc,
                1 => Instr::Rrc,
                2 => Instr::Ral,
                3 => Instr::Rar,
                4 => Instr::Daa,
                5 => Instr::Cma,
                6 => Instr::Stc,
                _ => Instr::Cmc,
            },
        }
    } else {
        match z {
            0 => Instr::Rcc(Cond::from_code(y)),
            1 => if y % 2 == 0 {
                Instr::Pop(StackPair::from_code(y / 2))
            } else if y == 5 {
                Instr::Pchl
            } else if y == 7 {
                Instr::Sphl
            } else {
                Instr::Ret
            },
            2 => Instr::Jcc(Cond::from_code(y)),
            3 => match y {
                0 | 1 => Instr::Jmp,
                2 => Instr::Out,
                3 => Instr::In,
                4 => Instr::Xthl,
                5 => Instr::Xchg,
                6 => Instr::Di,
                _ => Instr::Ei,
            },
            4 => Instr::Ccc(Cond::from_code(y)),
            5 => if y % 2 == 0 {
                Instr::Push(StackPair::from_code(y / 2))
            } else {
                Instr::Call
            },
            6 => Instr::AluImm(AluOp::from_code(y)),
            _ => Instr::Rst(y),
        }
    }
}


impl Instr {
    /// Number of bytes the instruction occupies: the opcode and its immediate operand.
    pub open spec fn len(self) -> int {
        match self {
            Instr::Mvi(_) | Instr::AluImm(_) | Instr::In | Instr::Out => 2,
            Instr::Lxi(_)
            | Instr::Lda
            | Instr::Sta
            | Instr::Lhld
            | Instr::Shld
            | Instr::Jmp
            | Instr::Jcc(_)
            | Instr::Call
            | Instr::Ccc(_) => 3,
            _ => 1,
        }
    }

    /// Whether the instruction, started with the flags `f`, sets the program
    /// counter instead of moving it past itself.
    pub open spec fn transfers(self, f: Flags) -> bool {
        match self {
            Instr::Jmp | Instr::Call | Instr::Ret | Instr::Pchl | Instr::Rst(_) => true,
            Instr::Jcc(c) | Instr::Ccc(c) | Instr::Rcc(c) => c.holds(f),
            _ => false,
        }
    }

    /// Whether the instruction names the memory operand `M`.
    pub open spec fn touches_m(self) -> bool {
        match self {
            Instr::Mov(d, s) => d == Reg::M || s == Reg::M,
            Instr::Mvi(r) | Instr::Inr(r) | Instr::Dcr(r) | Instr::Alu(_, r) => r == Reg::M,
            _ => false,
        }
    }

    /// The timing table: T-states the instruction takes when it starts with the flags `f`.
    ///
    /// A conditional call or return is longer when its condition holds; a
    /// conditional jump takes the same time either way.
    pub open spec fn cycles(self, f: Flags) -> u8 {
        match self {
            Instr::Nop => 4,
            Instr::Hlt => 7,
            Instr::Mov(_, _) => if self.touches_m() {
                7
            } else {
                5
            },
            Instr::Mvi(_) => if self.touches_m() {
                10
            } else {
                7
            },
            Instr::Lxi(_) => 10,
            Instr::Lda | Instr::Sta => 13,
            Instr::Lhld | Instr::Shld => 16,
            Instr::Ldax(_) | Instr::Stax(_) => 7,
            Instr::Xchg => 5,
            Instr::Inx(_) | Instr::Dcx(_) => 5,
            Instr::Inr(_) | Instr::Dcr(_) => if self.touches_m() {
                10
            } else {
                5
            },
            Instr::Dad(_) => 10,
            Instr::Alu(_, _) => if self.touches_m() {
                7
            } else {
                4
            },
            Instr::AluImm(_) => 7,
            Instr::Rlc | Instr::Rrc | Instr::Ral | Instr::Rar => 4,
            Instr::Cma | Instr::Cmc | Instr::Stc | Instr::Daa => 4,
            Instr::Jmp | Instr::Jcc(_) => 10,
            Instr::Call => 17,
            Instr::Ccc(c) => if c.holds(f) {
                17
            } else {
                11
            },
            Instr::Ret => 11,
            Instr::Rcc(c) => if c.holds(f) {
                11
            } else {
                5
            },
            Instr::Pchl | Instr::Sphl => 5,
            Instr::Xthl => 18,
            Instr::Push(_) => 11,
            Instr::Pop(_) => 10,
            Instr::Rst(_) => 11,
            Instr::In | Instr::Out => 10,
            Instr::Ei | Instr::Di => 4,
        }
    }

    /// Looks the instruction up in the timing table.
    pub fn t_states(self, f: Flags) -> (t: u8)
        ensures
            t == self.cycles(f),
            4 <= t <= 18,
    {
        match self {
            Instr::Nop => 4,
            Instr::Hlt => 7,
            Instr::Mov(d, s) => if is_m(d) || is_m(s) {
                7
            } else {
                5
            },
            Instr::Mvi(r) => if is_m(r) {
                10
            } else {
                7
            },
            Instr::Lxi(_) => 10,
            Instr::Lda | Instr::Sta => 13,
            Instr::Lhld | Instr::Shld => 16,
            Instr::Ldax(_) | Instr::Stax(_) => 7,
            Instr::Xchg => 5,
            Instr::Inx(_) | Instr::Dcx(_) => 5,
            Instr::Inr(r) | Instr::Dcr(r) => if is_m(r) {
                10
            } else {
                5
            },
            Instr::Dad(_) => 10,
            Instr::Alu(_, r) => if is_m(r) {
                7
            } else {
                4
            },
            Instr::AluImm(_) => 7,
            Instr::Rlc | Instr::Rrc | Instr::Ral | Instr::Rar => 4,
            Instr::Cma | Instr::Cmc | Instr::Stc | Instr::Daa => 4,
            Instr::Jmp | Instr::Jcc(_) => 10,
            Instr::Call => 17,
            Instr::Ccc(c) => if c.test(f) {
                17
            } else {
                11
            },
            Instr::Ret => 11,
            Instr::Rcc(c) => if c.test(f) {
                11
            } else {
                5
            },
            Instr::Pchl | Instr::Sphl => 5,
            Instr::Xthl => 18,
            Instr::Push(_) => 11,
            Instr::Pop(_) => 10,
            Instr::Rst(_) => 11,
            Instr::In | Instr::Out => 10,
            Instr::Ei | Instr::Di => 4,
        }
    }
}

/// Whether the operand is the memory operand `M`.
pub fn is_m(r: Reg) -> (b: bool)
    ensures
        b == (r == Reg::M),
{
    match r {
        Reg::M => true,
        _ => false,
    }
}

/// Whether `op` is one of the eight restart opcodes
/// `0xC7, 0xCF, 0xD7, 0xDF, 0xE7, 0xEF, 0xF7, 0xFF`.
pub open spec fn is_restart(op: u8) -> bool {
    op == 0xC7 || op == 0xCF || op == 0xD7 || op == 0xDF || op == 0xE7 || op == 0xEF || op == 0xF7
        || op == 0xFF
}

/// Tells whether `op` is a restart opcode.
pub fn restart_opcode(op: u8) -> (b: bool)
    ensures
        b == is_restart(op),
{
    op >= 0xC0 && op % 8 == 7
}

/// The restart opcodes are those that the table maps to `RST n`, and `n` is
/// bits 5 to 3 of the opcode.
pub proof fn lemma_restart_opcodes(op: u8)
    ensures
        is_restart(op) <==> instruction(op) is Rst,
        is_restart(op) ==> instruction(op) == Instr::Rst(((op - 0xC7) / 8) as u8),
{
}

/// `NOP` has exactly the eight opcodes `0x00, 0x08, .. 0x38`.
pub proof fn lemma_nop_opcodes(op: u8)
    ensures
        instruction(op) == Instr::Nop <==> (op < 0x40 && op % 8 == 0),
{
}

/// Only `0xDB` is `IN` and only `0xD3` is `OUT`.
pub proof fn lemma_port_opcodes(op: u8)
    ensures
        instruction(op) == Instr::In <==> op == 0xDB,
        instruction(op) == Instr::Out <==> op == 0xD3,
{
}

} // verus!
