//! The mathematical model of the processor.
//!
//! [`CpuState`] records everything the processor holds. [`CpuState::step`] is
//! the transition that one call of the processor's cycle performs; it is built
//! from [`CpuState::begun`], which advances the interrupt-enable flip-flop and
//! takes a latched interrupt, and [`CpuState::execute`], which gives the
//! effect of each instruction.

use vstd::prelude::*;
use crate::alu::{
    alu_result, decimal_adjust_result, decrement_result, double_add_carry, double_add_value,
    increment_result, rotate_left_result, rotate_left_through_result, rotate_right_result,
    rotate_right_through_result,
};
use crate::flags::Flags;
use crate::instr::{instruction, is_restart, IndexPair, Instr, Pair, Reg, StackPair};

verus! {

/// The interrupt-enable flip-flop.
///
/// `EI` moves it to `ArmPending`. Each later instruction moves it one step
/// along `ArmPending`, `Armed`, `Enabled`, so that the instruction after `EI`
/// still runs with interrupts refused. `DI` moves it to `Disabled`.
#[derive(Clone, Copy, PartialEq, Eq, Structural, Debug)]
pub enum InterruptEnable {
    Disabled,
    ArmPending,
    Armed,
    Enabled,
}

impl InterruptEnable {
    /// The flip-flop after one more instruction has begun.
    pub open spec fn tick(self) -> InterruptEnable {
        match self {
            InterruptEnable::ArmPending => InterruptEnable::Armed,
            InterruptEnable::Armed => InterruptEnable::Enabled,
            other => other,
        }
    }

    /// Advances the flip-flop by one instruction.
    pub fn advance(self) -> (next: InterruptEnable)
        ensures
            next == self.tick(),
    {
        match self {
            InterruptEnable::ArmPending => InterruptEnable::Armed,
            InterruptEnable::Armed => InterruptEnable::Enabled,
            other => other,
        }
    }
}

/// The 16-bit value with high byte `hi` and low byte `lo`.
pub open spec fn word(hi: u8, lo: u8) -> u16 {
    (hi * 256 + lo) as u16
}

/// The high byte of `w`.
pub open spec fn high(w: u16) -> u8 {
    (w / 256) as u8
}

/// The low byte of `w`.
pub open spec fn low(w: u16) -> u8 {
    (w % 256) as u8
}

/// `n` reduced modulo 65536: addresses wrap around.
pub open spec fn wrap16(n: int) -> u16 {
    (n % 0x10000) as u16
}

/// Everything the processor holds between two instructions.
#[verifier::ext_equal]
pub struct CpuState {
    /// Program counter: address of the next opcode.
    pub pc: u16,
    /// Stack pointer; the stack grows towards lower addresses.
    pub sp: u16,
    pub a: u8,
    pub b: u8,
    pub c: u8,
    pub d: u8,
    pub e: u8,
    pub h: u8,
    pub l: u8,
    pub flags: Flags,
    /// The 65536 bytes of memory.
    pub mem: Seq<u8>,
    /// Set by `HLT`, cleared when an interrupt is taken.
    pub halted: bool,
    pub ie: InterruptEnable,
    /// The opcode that an interrupting device has supplied and that has not run yet.
    pub pending: Option<u8>,
}

impl CpuState {
    /// The memory has one byte for each 16-bit address.
    pub open spec fn wf(self) -> bool {
        self.mem.len() == 0x10000
    }

    /// The byte at `addr`.
    pub open spec fn read(self, addr: u16) -> u8 {
        self.mem[addr as int]
    }

    /// The state with `v` stored at `addr`.
    pub open spec fn write(self, addr: u16, v: u8) -> CpuState {
        CpuState { mem: self.mem.update(addr as int, v), ..self }
    }

    /// The little-endian word at `addr` and the address after it.
    pub open spec fn read16(self, addr: u16) -> u16 {
        word(self.read(wrap16(addr + 1)), self.read(addr))
    }

    /// The state with `w` stored little-endian at `addr` and the address after it.
    pub open spec fn write16(self, addr: u16, w: u16) -> CpuState {
        self.write(addr, low(w)).write(wrap16(addr + 1), high(w))
    }

    /// The register pair `BC`.
    pub open spec fn bc(self) -> u16 {
        word(self.b, self.c)
    }

    /// The register pair `DE`.
    pub open spec fn de(self) -> u16 {
        word(self.d, self.e)
    }

    /// The register pair `HL`, which is also the address of the operand `M`.
    pub open spec fn hl(self) -> u16 {
        word(self.h, self.l)
    }

    /// The value of an 8-bit operand; `M` is the byte that `HL` points at now.
    pub open spec fn reg(self, r: Reg) -> u8 {
        match r {
            Reg::B => self.b,
            Reg::C => self.c,
            Reg::D => self.d,
            Reg::E => self.e,
            Reg::H => self.h,
            Reg::L => self.l,
            Reg::M => self.read(self.hl()),
            Reg::A => self.a,
        }
    }

    /// The state with `v` stored in an 8-bit operand.
    pub open spec fn with_reg(self, r: Reg, v: u8) -> CpuState {
        match r {
            Reg::B => CpuState { b: v, ..self },
            Reg::C => CpuState { c: v, ..self },
            Reg::D => CpuState { d: v, ..self },
            Reg::E => CpuState { e: v, ..self },
            Reg::H => CpuState { h: v, ..self },
            Reg::L => CpuState { l: v, ..self },
            Reg::M => self.write(self.hl(), v),
            Reg::A => CpuState { a: v, ..self },
        }
    }

    /// The register that the index `n` names: 0 to 6 are B, C, D, E, H, L, A.
    pub open spec fn register(self, n: u8) -> u8 {
        match n {
            0 => self.b,
            1 => self.c,
            2 => self.d,
            3 => self.e,
            4 => self.h,
            5 => self.l,
            _ => self.a,
        }
    }

    /// The value of a register pair or of the stack pointer.
    pub open spec fn pair(self, p: Pair) -> u16 {
        match p {
            Pair::BC => self.bc(),
            Pair::DE => self.de(),
            Pair::HL => self.hl(),
            Pair::SP => self.sp,
        }
    }

    /// The state with `w` stored in a register pair or in the stack pointer.
    pub open spec fn with_pair(self, p: Pair, w: u16) -> CpuState {
        match p {
            Pair::BC => CpuState { b: high(w), c: low(w), ..self },
            Pair::DE => CpuState { d: high(w), e: low(w), ..self },
            Pair::HL => CpuState { h: high(w), l: low(w), ..self },
            Pair::SP => CpuState { sp: w, ..self },
        }
    }

    /// The address that `LDAX` and `STAX` use.
    pub open spec fn index(self, p: IndexPair) -> u16 {
        match p {
            IndexPair::BC => self.bc(),
            IndexPair::DE => self.de(),
        }
    }

    /// The word that `PUSH` stores; for `PSW` the accumulator over the flag byte.
    pub open spec fn stack_pair(self, p: StackPair) -> u16 {
        match p {
            StackPair::BC => self.bc(),
            StackPair::DE => self.de(),
            StackPair::HL => self.hl(),
            StackPair::PSW => word(self.a, self.flags.byte()),
        }
    }

    /// The state with `w` loaded by `POP`; for `PSW` the low byte gives the
    /// flags and its three fixed bits are ignored.
    pub open spec fn with_stack_pair(self, p: StackPair, w: u16) -> CpuState {
        match p {
            StackPair::BC => CpuState { b: high(w), c: low(w), ..self },
            StackPair::DE => CpuState { d: high(w), e: low(w), ..self },
            StackPair::HL => CpuState { h: high(w), l: low(w), ..self },
            StackPair::PSW => CpuState { a: high(w), flags: Flags::of_byte(low(w)), ..self },
        }
    }

    /// The byte behind the opcode.
    pub open spec fn imm8(self) -> u8 {
        self.read(wrap16(self.pc + 1))
    }

    /// The little-endian word behind the opcode.
    pub open spec fn imm16(self) -> u16 {
        self.read16(wrap16(self.pc + 1))
    }

    /// The state with the program counter moved on by `n`.
    pub open spec fn skip(self, n: int) -> CpuState {
        CpuState { pc: wrap16(self.pc + n), ..self }
    }

    /// The state with the program counter set to `target`.
    pub open spec fn jump(self, target: u16) -> CpuState {
        CpuState { pc: target, ..self }
    }

    /// The state with `w` pushed: high byte at `SP - 1`, low byte at `SP - 2`,
    /// and `SP` lowered by two.
    pub open spec fn pushed(self, w: u16) -> CpuState {
        CpuState {
            sp: wrap16(self.sp - 2),
            ..self.write(wrap16(self.sp - 1), high(w)).write(wrap16(self.sp - 2), low(w))
        }
    }

    /// The word on top of the stack.
    pub open spec fn top(self) -> u16 {
        self.read16(self.sp)
    }

    /// The state with the top word of the stack dropped: `SP` raised by two.
    pub open spec fn dropped(self) -> CpuState {
        CpuState { sp: wrap16(self.sp + 2), ..self }
    }

    /// The state with the flags replaced.
    pub open spec fn with_flags(self, f: Flags) -> CpuState {
        CpuState { flags: f, ..self }
    }

    /// The state with the accumulator replaced.
    pub open spec fn with_a(self, v: u8) -> CpuState {
        CpuState { a: v, ..self }
    }

    /// The state after a call to `target` that will return to `ret`.
    pub open spec fn called(self, ret: u16, target: u16) -> CpuState {
        self.pushed(ret).jump(target)
    }

    /// The state after a return: the program counter is popped off the stack.
    pub open spec fn returned(self) -> CpuState {
        self.dropped().jump(self.top())
    }

    /// The effect of the instruction `i` on a state whose program counter is at
    /// its opcode. `input` is the byte that the bus answers if `i` is `IN`; no
    /// other instruction looks at it.
    pub open spec fn execute(self, i: Instr, input: u8) -> CpuState {
        match i {
            Instr::Nop => self.skip(1),
            Instr::Hlt => CpuState { halted: true, ..self.skip(1) },
            Instr::Mov(dst, src) => self.with_reg(dst, self.reg(src)).skip(1),
            Instr::Mvi(r) => self.with_reg(r, self.imm8()).skip(2),
            Instr::Lxi(p) => self.with_pair(p, self.imm16()).skip(3),
            Instr::Lda => self.with_a(self.read(self.imm16())).skip(3),
            Instr::Sta => self.write(self.imm16(), self.a).skip(3),
            Instr::Lhld => self.with_pair(Pair::HL, self.read16(self.imm16())).skip(3),
            Instr::Shld => self.write16(self.imm16(), self.hl()).skip(3),
            Instr::Ldax(p) => self.with_a(self.read(self.index(p))).skip(1),
            Instr::Stax(p) => self.write(self.index(p), self.a).skip(1),
            Instr::Xchg => CpuState { d: self.h, e: self.l, h: self.d, l: self.e, ..self }.skip(1),
            Instr::Inx(p) => self.with_pair(p, wrap16(self.pair(p) + 1)).skip(1),
            Instr::Dcx(p) => self.with_pair(p, wrap16(self.pair(p) - 1)).skip(1),
            Instr::Inr(r) => {
                let out = increment_result(self.reg(r), self.flags);
                self.with_reg(r, out.value).with_flags(out.flags).skip(1)
            },
            Instr::Dcr(r) => {
                let out = decrement_result(self.reg(r), self.flags);
                self.with_reg(r, out.value).with_flags(out.flags).skip(1)
            },
            Instr::Dad(p) => {
                let carry = double_add_carry(self.hl(), self.pair(p));
                self.with_pair(Pair::HL, double_add_value(self.hl(), self.pair(p))).with_flags(
                    Flags { carry, ..self.flags },
                ).skip(1)
            },
            Instr::Alu(op, r) => {
                let out = alu_result(op, self.a, self.reg(r), self.flags);
                self.with_a(out.value).with_flags(out.flags).skip(1)
            },
            Instr::AluImm(op) => {
                let out = alu_result(op, self.a, self.imm8(), self.flags);
                self.with_a(out.value).with_flags(out.flags).skip(2)
            },
            Instr::Rlc => {
                let (value, carry) = rotate_left_result(self.a);
                self.with_a(value).with_flags(Flags { carry, ..self.flags }).skip(1)
            },
            Instr::Rrc => {
                let (value, carry) = rotate_right_result(self.a);
                self.with_a(value).with_flags(Flags { carry, ..self.flags }).skip(1)
            },
            Instr::Ral => {
                let (value, carry) = rotate_left_through_result(self.a, self.flags.carry);
                self.with_a(value).with_flags(Flags { carry, ..self.flags }).skip(1)
            },
            Instr::Rar => {
                let (value, carry) = rotate_right_through_result(self.a, self.flags.carry);
                self.with_a(value).with_flags(Flags { carry, ..self.flags }).skip(1)
            },
            Instr::Cma => self.with_a((255 - self.a) as u8).skip(1),
            Instr::Cmc => self.with_flags(Flags { carry: !self.flags.carry, ..self.flags }).skip(1),
            Instr::Stc => self.with_flags(Flags { carry: true, ..self.flags }).skip(1),
            Instr::Daa => {
                let out = decimal_adjust_result(self.a, self.flags);
                self.with_a(out.value).with_flags(out.flags).skip(1)
            },
            Instr::Jmp => self.jump(self.imm16()),
            Instr::Jcc(c) => if c.holds(self.flags) {
                self.jump(self.imm16())
            } else {
                self.skip(3)
            },
            Instr::Call => self.called(wrap16(self.pc + 3), self.imm16()),
            Instr::Ccc(c) => if c.holds(self.flags) {
                self.called(wrap16(self.pc + 3), self.imm16())
            } else {
                self.skip(3)
            },
            Instr::Ret => self.returned(),
            Instr::Rcc(c) => if c.holds(self.flags) {
                self.returned()
            } else {
                self.skip(1)
            },
            Instr::Pchl => self.jump(self.hl()),
            Instr::Sphl => self.with_pair(Pair::SP, self.hl()).skip(1),
            Instr::Xthl => self.write16(self.sp, self.hl()).with_pair(Pair::HL, self.top()).skip(1),
            Instr::Push(p) => self.pushed(self.stack_pair(p)).skip(1),
            Instr::Pop(p) => self.with_stack_pair(p, self.top()).dropped().skip(1),
            Instr::Rst(n) => self.called(wrap16(self.pc + 1), (8 * n) as u16),
            Instr::In => self.with_a(input).skip(2),
            Instr::Out => self.skip(2),
            Instr::Ei => CpuState { ie: InterruptEnable::ArmPending, ..self }.skip(1),
            Instr::Di => CpuState { ie: InterruptEnable::Disabled, ..self }.skip(1),
        }
    }

    /// A halted processor with no interrupt latched does nothing.
    pub open spec fn idle(self) -> bool {
        self.halted && self.pending is None
    }

    /// The opcode that runs next: the latched interrupt if there is one, else
    /// the byte at the program counter.
    pub open spec fn opcode(self) -> u8 {
        match self.pending {
            Some(op) => op,
            None => self.read(self.pc),
        }
    }

    /// The instruction that runs next.
    pub open spec fn next(self) -> Instr {
        instruction(self.opcode())
    }

    /// The state with the interrupt-enable flip-flop advanced by one instruction.
    pub open spec fn ticked(self) -> CpuState {
        CpuState { ie: self.ie.tick(), ..self }
    }

    /// The state with a latched interrupt taken: the latch is emptied, the halt
    /// is lifted and the program counter steps back by one, so that the restart
    /// saves the address of the instruction that the interrupt displaced.
    pub open spec fn taken(self) -> CpuState {
        match self.pending {
            Some(_) => CpuState {
                pending: None,
                halted: false,
                pc: wrap16(self.pc - 1),
                ..self
            },
            None => self,
        }
    }

    /// The state in which the next instruction executes, and which the bus
    /// sees during `IN` and `OUT`.
    pub open spec fn begun(self) -> CpuState {
        self.ticked().taken()
    }

    /// The state after one cycle. `input` is the byte that the bus answers if
    /// the instruction is `IN`.
    pub open spec fn step(self, input: u8) -> CpuState {
        if self.idle() {
            self
        } else {
            self.begun().execute(self.next(), input)
        }
    }

    /// The T-states that one cycle reports: the instruction's entry in the
    /// timing table, or 1 for an idle cycle.
    pub open spec fn step_cycles(self) -> u8 {
        if self.idle() {
            1
        } else {
            self.next().cycles(self.flags)
        }
    }

    /// Whether an interrupt that supplies `op` is accepted now.
    pub open spec fn accepts(self, op: u8) -> bool {
        self.ie == InterruptEnable::Enabled && is_restart(op)
    }

    /// The state after a device has offered the opcode `op` as an interrupt.
    pub open spec fn interrupted(self, op: u8) -> CpuState {
        if self.accepts(op) {
            CpuState { pending: Some(op), ..self }
        } else {
            self
        }
    }

    /// The state after reset with the memory `mem` and the program counter at `start`.
    pub open spec fn reset(mem: Seq<u8>, start: u16) -> CpuState {
        CpuState {
            pc: start,
            sp: 0xFFFF,
            a: 0,
            b: 0,
            c: 0,
            d: 0,
            e: 0,
            h: 0,
            l: 0,
            flags: Flags::cleared(),
            mem,
            halted: false,
            ie: InterruptEnable::Disabled,
            pending: None,
        }
    }
}

/// The memory that holds the first 65536 bytes of `program` from address 0 on
/// and zero everywhere else.
pub open spec fn loaded(program: Seq<u8>) -> Seq<u8> {
    Seq::new(
        0x10000,
        |i: int|
            if i < program.len() {
                program[i]
            } else {
                0u8
            },
    )
}

/// Joins two bytes into a 16-bit value.
pub fn make_word(hi: u8, lo: u8) -> (w: u16)
    ensures
        w == word(hi, lo),
        high(w) == hi,
        low(w) == lo,
{
    hi as u16 * 256 + lo as u16
}

/// Takes the high byte of a 16-bit value.
pub fn high_byte(w: u16) -> (b: u8)
    ensures
        b == high(w),
{
    (w / 256) as u8
}

/// Takes the low byte of a 16-bit value.
pub fn low_byte(w: u16) -> (b: u8)
    ensures
        b == low(w),
{
    (w % 256) as u8
}

/// Moves an address up by `n`, wrapping at the end of memory.
pub fn forward(addr: u16, n: u16) -> (r: u16)
    ensures
        r == wrap16(addr + n),
{
    addr.wrapping_add(n)
}

/// Moves an address down by `n`, wrapping at the start of memory.
pub fn backward(addr: u16, n: u16) -> (r: u16)
    ensures
        r == wrap16(addr - n),
{
    addr.wrapping_sub(n)
}

/// What one cycle asks of the bus.
#[derive(Clone, Copy, PartialEq, Eq, Structural, Debug)]
pub enum PortAccess {
    /// The cycle leaves the bus alone.
    Unused,
    /// `IN`: a read of the port.
    Read(u8),
    /// `OUT`: a write of the byte to the port.
    Write(u8, u8),
}

impl CpuState {
    /// What the next cycle asks of the bus.
    pub open spec fn access(self) -> PortAccess {
        if self.idle() {
            PortAccess::Unused
        } else {
            match self.next() {
                Instr::In => PortAccess::Read(self.begun().imm8()),
                Instr::Out => PortAccess::Write(self.begun().imm8(), self.a),
                _ => PortAccess::Unused,
            }
        }
    }
}

} // verus!
