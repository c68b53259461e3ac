//! Laws of the instruction set, proved about the model in [`crate::state`].

use vstd::prelude::*;
use crate::alu::{
    add_result, alu_parity_subject, alu_result, bit, compare_flags, decimal_adjust_result,
    decrement_result, increment_result, sub_result, AluOp,
};
use crate::flags::{even_parity, lemma_pack_unpack, Flags};
use crate::instr::{lemma_restart_opcodes, Instr, Pair, Reg, StackPair};
use crate::state::{high, low, word, wrap16, CpuState, InterruptEnable};

verus! {

/// Splitting a word into its bytes and joining them again changes nothing,
/// in either order.
pub proof fn lemma_word_bytes(w: u16, hi: u8, lo: u8)
    ensures
        word(high(w), low(w)) == w,
        high(word(hi, lo)) == hi,
        low(word(hi, lo)) == lo,
{
}

/// A byte that is written is read back, and every other byte stays.
pub proof fn lemma_write_read(s: CpuState, addr: u16, v: u8, other: u16)
    requires
        s.wf(),
    ensures
        s.write(addr, v).wf(),
        s.write(addr, v).read(addr) == v,
        other != addr ==> s.write(addr, v).read(other) == s.read(other),
{
}

/// The operand `M` is the byte at the address `256 * H + L`, taken from the
/// registers as they are when the operand is used.
pub proof fn lemma_memory_operand(s: CpuState, v: u8)
    requires
        s.wf(),
    ensures
        s.reg(Reg::M) == s.mem[s.h * 256 + s.l],
        s.with_reg(Reg::M, v).mem == s.mem.update(s.h * 256 + s.l, v),
        s.with_reg(Reg::M, v).reg(Reg::M) == v,
        s.with_reg(Reg::H, v).reg(Reg::M) == s.mem[v * 256 + s.l],
{
}

/// Adding and subtracting offsets of an address cancel modulo 65536.
pub proof fn lemma_wrap_offsets(addr: u16)
    ensures
        wrap16(wrap16(addr - 2) + 1) == wrap16(addr - 1),
        wrap16(wrap16(addr - 2) + 2) == addr,
        wrap16(wrap16(addr - 1) + 1) == addr,
        wrap16(wrap16(addr + 1) - 1) == addr,
        wrap16(addr - 1) != wrap16(addr - 2),
        wrap16(addr + 1) != addr,
{
}

/// A pushed word lies on top of the stack: high byte at `SP - 1`, low byte at
/// `SP - 2`, with `SP` lowered by two. Nothing but those two bytes and `SP`
/// changes.
pub proof fn lemma_pushed(s: CpuState, w: u16)
    requires
        s.wf(),
    ensures
        s.pushed(w).wf(),
        s.pushed(w).top() == w,
        s.pushed(w).sp == wrap16(s.sp - 2),
        s.pushed(w).read(wrap16(s.sp - 1)) == high(w),
        s.pushed(w).read(wrap16(s.sp - 2)) == low(w),
        s.pushed(w).dropped().sp == s.sp,
        s.pushed(w) == (CpuState { sp: s.pushed(w).sp, mem: s.pushed(w).mem, ..s }),
{
    lemma_wrap_offsets(s.sp);
    lemma_word_bytes(w, 0, 0);
    let hi_at = wrap16(s.sp - 1);
    let lo_at = wrap16(s.sp - 2);
    let first = s.write(hi_at, high(w));
    lemma_write_read(s, hi_at, high(w), lo_at);
    lemma_write_read(first, lo_at, low(w), hi_at);
    let after = s.pushed(w);
    assert(after.mem == first.write(lo_at, low(w)).mem);
    assert(after.read(lo_at) == low(w));
    assert(after.read(hi_at) == high(w));
    assert(after.sp == lo_at);
    assert(wrap16(after.sp + 1) == hi_at);
}

/// An instruction that does not transfer control leaves the program counter
/// behind itself, and that address is taken modulo 65536.
pub proof fn lemma_program_counter_wraps(s: CpuState, i: Instr, input: u8)
    requires
        !i.transfers(s.flags),
    ensures
        s.execute(i, input).pc == (s.pc + i.len()) % 0x10000,
        1 <= i.len() <= 3,
{
    match i {
        Instr::Nop => {},
        Instr::Hlt => {},
        Instr::Mov(_, _) => {},
        Instr::Mvi(_) => {},
        Instr::Lxi(_) => {},
        Instr::Lda => {},
        Instr::Sta => {},
        Instr::Lhld => {},
        Instr::Shld => {},
        Instr::Ldax(_) => {},
        Instr::Stax(_) => {},
        Instr::Xchg => {},
        Instr::Inx(_) => {},
        Instr::Dcx(_) => {},
        Instr::Inr(_) => {},
        Instr::Dcr(_) => {},
        Instr::Dad(_) => {},
        Instr::Alu(_, _) => {},
        Instr::AluImm(_) => {},
        Instr::Rlc => {},
        Instr::Rrc => {},
        Instr::Ral => {},
        Instr::Rar => {},
        Instr::Cma => {},
        Instr::Cmc => {},
        Instr::Stc => {},
        Instr::Daa => {},
        Instr::Jmp => {},
        Instr::Jcc(_) => {},
        Instr::Call => {},
        Instr::Ccc(_) => {},
        Instr::Ret => {},
        Instr::Rcc(_) => {},
        Instr::Pchl => {},
        Instr::Sphl => {},
        Instr::Xthl => {},
        Instr::Push(_) => {},
        Instr::Pop(_) => {},
        Instr::Rst(_) => {},
        Instr::In => {},
        Instr::Out => {},
        Instr::Ei => {},
        Instr::Di => {},
    }
}

/// The stack pointer moves by two per word pushed or popped, modulo 65536;
/// `INX SP` and `DCX SP` move it by one, modulo 65536.
pub proof fn lemma_stack_pointer_wraps(s: CpuState, i: Instr, input: u8)
    ensures
        (i is Push || i is Call || i is Rst) ==> s.execute(i, input).sp == (s.sp - 2) % 0x10000,
        (i is Pop || i is Ret) ==> s.execute(i, input).sp == (s.sp + 2) % 0x10000,
        i == Instr::Inx(Pair::SP) ==> s.execute(i, input).sp == (s.sp + 1) % 0x10000,
        i == Instr::Dcx(Pair::SP) ==> s.execute(i, input).sp == (s.sp - 1) % 0x10000,
{
    match i {
        Instr::Nop => {},
        Instr::Hlt => {},
        Instr::Mov(_, _) => {},
        Instr::Mvi(_) => {},
        Instr::Lxi(_) => {},
        Instr::Lda => {},
        Instr::Sta => {},
        Instr::Lhld => {},
        Instr::Shld => {},
        Instr::Ldax(_) => {},
        Instr::Stax(_) => {},
        Instr::Xchg => {},
        Instr::Inx(_) => {},
        Instr::Dcx(_) => {},
        Instr::Inr(_) => {},
        Instr::Dcr(_) => {},
        Instr::Dad(_) => {},
        Instr::Alu(_, _) => {},
        Instr::AluImm(_) => {},
        Instr::Rlc => {},
        Instr::Rrc => {},
        Instr::Ral => {},
        Instr::Rar => {},
        Instr::Cma => {},
        Instr::Cmc => {},
        Instr::Stc => {},
        Instr::Daa => {},
        Instr::Jmp => {},
        Instr::Jcc(_) => {},
        Instr::Call => {},
        Instr::Ccc(_) => {},
        Instr::Ret => {},
        Instr::Rcc(_) => {},
        Instr::Pchl => {},
        Instr::Sphl => {},
        Instr::Xthl => {},
        Instr::Push(_) => {},
        Instr::Pop(_) => {},
        Instr::Rst(_) => {},
        Instr::In => {},
        Instr::Out => {},
        Instr::Ei => {},
        Instr::Di => {},
    }
}

/// Loading a pair with the word it already holds changes nothing; for `PSW`
/// this is because packing the flags and unpacking them gives them back.
pub proof fn lemma_reload_stack_pair(s: CpuState, p: StackPair)
    ensures
        s.with_stack_pair(p, s.stack_pair(p)) == s,
{
    match p {
        StackPair::BC => lemma_word_bytes(0, s.b, s.c),
        StackPair::DE => lemma_word_bytes(0, s.d, s.e),
        StackPair::HL => lemma_word_bytes(0, s.h, s.l),
        StackPair::PSW => {
            lemma_word_bytes(0, s.a, s.flags.byte());
            lemma_pack_unpack(s.flags);
        },
    }
}

/// A word that is pushed and loaded back into the pair it came from leaves
/// the state as it was, but for the two bytes written below the stack.
proof fn lemma_push_then_reload(s: CpuState, p: StackPair, w: u16)
    requires
        s.wf(),
        w == s.stack_pair(p),
    ensures
        s.pushed(w).skip(1).top() == w,
        s.pushed(w).skip(1).with_stack_pair(p, w).dropped().skip(1) == (CpuState {
            pc: wrap16(s.pc + 2),
            mem: s.pushed(w).mem,
            ..s
        }),
{
    lemma_pushed(s, w);
    let pushed = s.pushed(w).skip(1);
    assert(pushed.stack_pair(p) == w);
    lemma_reload_stack_pair(pushed, p);
    assert(wrap16(wrap16(s.pc + 1) + 1) == wrap16(s.pc + 2));
}

/// `PUSH rp` followed by `POP rp` changes only the program counter and the
/// two bytes below the stack.
proof fn lemma_push_pop_state(s: CpuState, p: StackPair, x: u8, y: u8)
    requires
        s.wf(),
    ensures
        ({
            let pushed = s.execute(Instr::Push(p), x);
            let popped = pushed.execute(Instr::Pop(p), y);
            &&& pushed.top() == s.stack_pair(p)
            &&& popped == CpuState { pc: wrap16(s.pc + 2), mem: pushed.mem, ..s }
        }),
{
    lemma_push_then_reload(s, p, s.stack_pair(p));
}

/// `PUSH rp` followed by `POP rp` restores the pair, the stack pointer and,
/// for `PSW`, the flags: apart from the two bytes written below the stack and
/// the program counter, the state is as before.
pub proof fn lemma_push_pop(s: CpuState, p: StackPair, x: u8, y: u8)
    requires
        s.wf(),
    ensures
        ({
            let pushed = s.execute(Instr::Push(p), x);
            let popped = pushed.execute(Instr::Pop(p), y);
            &&& pushed.top() == s.stack_pair(p)
            &&& popped.stack_pair(p) == s.stack_pair(p)
            &&& popped.sp == s.sp
            &&& popped.flags == s.flags
            &&& popped == CpuState { pc: wrap16(s.pc + 2), mem: pushed.mem, ..s }
        }),
{
    lemma_push_pop_state(s, p, x, y);
}

/// After `EI` no interrupt is accepted before the next instruction has run,
/// and if that instruction is `DI` interrupts are disabled after it.
pub proof fn lemma_ei_then_di(s: CpuState, op: u8, x: u8, y: u8)
    requires
        !s.idle(),
        s.next() == Instr::Ei,
    ensures
        s.step(x).ie == InterruptEnable::ArmPending,
        !s.step(x).accepts(op),
        s.step(x).interrupted(op) == s.step(x),
        s.step(x).next() == Instr::Di ==> s.step(x).step(y).ie == InterruptEnable::Disabled,
{
}

/// Only `EI` and `DI` move the interrupt-enable flip-flop, only `HLT` halts,
/// and no instruction touches the interrupt latch.
pub proof fn lemma_execute_keeps_control(s: CpuState, i: Instr, input: u8)
    ensures
        i != Instr::Ei && i != Instr::Di ==> s.execute(i, input).ie == s.ie,
        i != Instr::Hlt ==> s.execute(i, input).halted == s.halted,
        s.execute(i, input).pending == s.pending,
{
    lemma_execute_keeps_enable(s, i, input);
    lemma_execute_keeps_halt(s, i, input);
    lemma_execute_keeps_latch(s, i, input);
}

proof fn lemma_execute_keeps_enable(s: CpuState, i: Instr, input: u8)
    ensures
        i != Instr::Ei && i != Instr::Di ==> s.execute(i, input).ie == s.ie,
{
    match i {
        Instr::Nop => {},
        Instr::Hlt => {},
        Instr::Mov(_, _) => {},
        Instr::Mvi(_) => {},
        Instr::Lxi(_) => {},
        Instr::Lda => {},
        Instr::Sta => {},
        Instr::Lhld => {},
        Instr::Shld => {},
        Instr::Ldax(_) => {},
        Instr::Stax(_) => {},
        Instr::Xchg => {},
        Instr::Inx(_) => {},
        Instr::Dcx(_) => {},
        Instr::Inr(_) => {},
        Instr::Dcr(_) => {},
        Instr::Dad(_) => {},
        Instr::Alu(_, _) => {},
        Instr::AluImm(_) => {},
        Instr::Rlc => {},
        Instr::Rrc => {},
        Instr::Ral => {},
        Instr::Rar => {},
        Instr::Cma => {},
        Instr::Cmc => {},
        Instr::Stc => {},
        Instr::Daa => {},
        Instr::Jmp => {},
        Instr::Jcc(_) => {},
        Instr::Call => {},
        Instr::Ccc(_) => {},
        Instr::Ret => {},
        Instr::Rcc(_) => {},
        Instr::Pchl => {},
        Instr::Sphl => {},
        Instr::Xthl => {},
        Instr::Push(_) => {},
        Instr::Pop(_) => {},
        Instr::Rst(_) => {},
        Instr::In => {},
        Instr::Out => {},
        Instr::Ei => {},
        Instr::Di => {},
    }
}

proof fn lemma_execute_keeps_halt(s: CpuState, i: Instr, input: u8)
    ensures
        i != Instr::Hlt ==> s.execute(i, input).halted == s.halted,
{
    match i {
        Instr::Nop => {},
        Instr::Hlt => {},
        Instr::Mov(_, _) => {},
        Instr::Mvi(_) => {},
        Instr::Lxi(_) => {},
        Instr::Lda => {},
        Instr::Sta => {},
        Instr::Lhld => {},
        Instr::Shld => {},
        Instr::Ldax(_) => {},
        Instr::Stax(_) => {},
        Instr::Xchg => {},
        Instr::Inx(_) => {},
        Instr::Dcx(_) => {},
        Instr::Inr(_) => {},
        Instr::Dcr(_) => {},
        Instr::Dad(_) => {},
        Instr::Alu(_, _) => {},
        Instr::AluImm(_) => {},
        Instr::Rlc => {},
        Instr::Rrc => {},
        Instr::Ral => {},
        Instr::Rar => {},
        Instr::Cma => {},
        Instr::Cmc => {},
        Instr::Stc => {},
        Instr::Daa => {},
        Instr::Jmp => {},
        Instr::Jcc(_) => {},
        Instr::Call => {},
        Instr::Ccc(_) => {},
        Instr::Ret => {},
        Instr::Rcc(_) => {},
        Instr::Pchl => {},
        Instr::Sphl => {},
        Instr::Xthl => {},
        Instr::Push(_) => {},
        Instr::Pop(_) => {},
        Instr::Rst(_) => {},
        Instr::In => {},
        Instr::Out => {},
        Instr::Ei => {},
        Instr::Di => {},
    }
}

proof fn lemma_execute_keeps_latch(s: CpuState, i: Instr, input: u8)
    ensures
        s.execute(i, input).pending == s.pending,
{
    match i {
        Instr::Nop => {},
        Instr::Hlt => {},
        Instr::Mov(_, _) => {},
        Instr::Mvi(_) => {},
        Instr::Lxi(_) => {},
        Instr::Lda => {},
        Instr::Sta => {},
        Instr::Lhld => {},
        Instr::Shld => {},
        Instr::Ldax(_) => {},
        Instr::Stax(_) => {},
        Instr::Xchg => {},
        Instr::Inx(_) => {},
        Instr::Dcx(_) => {},
        Instr::Inr(_) => {},
        Instr::Dcr(_) => {},
        Instr::Dad(_) => {},
        Instr::Alu(_, _) => {},
        Instr::AluImm(_) => {},
        Instr::Rlc => {},
        Instr::Rrc => {},
        Instr::Ral => {},
        Instr::Rar => {},
        Instr::Cma => {},
        Instr::Cmc => {},
        Instr::Stc => {},
        Instr::Daa => {},
        Instr::Jmp => {},
        Instr::Jcc(_) => {},
        Instr::Call => {},
        Instr::Ccc(_) => {},
        Instr::Ret => {},
        Instr::Rcc(_) => {},
        Instr::Pchl => {},
        Instr::Sphl => {},
        Instr::Xthl => {},
        Instr::Push(_) => {},
        Instr::Pop(_) => {},
        Instr::Rst(_) => {},
        Instr::In => {},
        Instr::Out => {},
        Instr::Ei => {},
        Instr::Di => {},
    }
}

/// The instruction behind `EI` still runs with interrupts refused: after it
/// the flip-flop is armed but not enabled, unless that instruction is itself
/// `EI` or `DI`. The instruction after that begins with interrupts enabled.
pub proof fn lemma_enable_delay(s: CpuState, op: u8, x: u8, y: u8)
    requires
        !s.idle(),
        s.next() == Instr::Ei,
        s.step(x).next() != Instr::Ei,
        s.step(x).next() != Instr::Di,
    ensures
        !s.step(x).idle(),
        !s.step(x).accepts(op),
        s.step(x).step(y).ie == InterruptEnable::Armed,
        !s.step(x).step(y).accepts(op),
        s.step(x).step(y).begun().ie == InterruptEnable::Enabled,
{
    let first = s.step(x);
    assert(first == s.begun().execute(Instr::Ei, x));
    assert(first.ie == InterruptEnable::ArmPending && !first.halted && first.pending is None);
    let begun = first.begun();
    assert(begun.ie == InterruptEnable::Armed);
    lemma_execute_keeps_control(begun, first.next(), y);
    assert(first.step(y) == begun.execute(first.next(), y));
}

/// `DAD rp` leaves `(HL + rp) mod 65536` in `HL`, sets C exactly when
/// `HL + rp` is 65536 or more, and keeps the other flags.
pub proof fn lemma_dad(s: CpuState, p: Pair, input: u8)
    ensures
        ({
            let after = s.execute(Instr::Dad(p), input);
            &&& after.hl() == (s.hl() + s.pair(p)) % 0x10000
            &&& after.flags.carry == (s.hl() + s.pair(p) >= 0x10000)
            &&& after.flags == Flags { carry: after.flags.carry, ..s.flags }
        }),
{
    lemma_word_bytes(((s.hl() + s.pair(p)) % 0x10000) as u16, 0, 0);
}

/// Every operation that sets P sets it to the even parity of its result byte.
/// For `CMP` that byte is the difference, which is not stored.
pub proof fn lemma_parity(op: AluOp, a: u8, v: u8, f: Flags)
    ensures
        alu_result(op, a, v, f).flags.parity == even_parity(alu_parity_subject(op, a, v, f)),
        increment_result(v, f).flags.parity == even_parity(increment_result(v, f).value),
        decrement_result(v, f).flags.parity == even_parity(decrement_result(v, f).value),
        decimal_adjust_result(a, f).flags.parity == even_parity(decimal_adjust_result(a, f).value),
{
}

/// Subtraction as the two's complement addition computes it is subtraction:
/// the result is `a - v - borrow` modulo 256, C reports the borrow out of
/// bit 7, and AC is set when the low nibble needs no borrow.
pub proof fn lemma_subtract(a: u8, v: u8, borrow: bool)
    ensures
        sub_result(a, v, borrow).value == (a - v - bit(borrow)) % 256,
        sub_result(a, v, borrow).flags.carry == (a < v + bit(borrow)),
        sub_result(a, v, borrow).flags.aux == (a % 16 >= v % 16 + bit(borrow)),
{
    let inverted = (255 - v) as u8;
    let difference = a - v - bit(borrow);
    let sum = a + inverted + bit(!borrow);
    assert(sum == difference + 256);
    assert(sum % 256 == difference % 256) by {
        if difference >= 0 {
            assert(difference % 256 == difference);
            assert((difference + 256) % 256 == difference);
        } else {
            assert(difference % 256 == difference + 256);
            assert((difference + 256) % 256 == difference + 256);
        }
    }
    assert(inverted % 16 == 15 - v % 16);
    assert(add_result(a, inverted, !borrow).value == (sum % 256) as u8);
    assert(add_result(a, inverted, !borrow).flags.carry == (sum >= 256));
    assert(add_result(a, inverted, !borrow).flags.aux == (a % 16 + inverted % 16 + bit(!borrow)
        >= 16));
}

/// `CMP v` leaves the accumulator as it is and sets the flags that `SUB v`
/// sets, Z and C among them.
pub proof fn lemma_compare_is_subtract(a: u8, v: u8, f: Flags)
    ensures
        alu_result(AluOp::Cmp, a, v, f).value == a,
        alu_result(AluOp::Cmp, a, v, f).flags == alu_result(AluOp::Sub, a, v, f).flags,
        compare_flags(a, v).zero == (a == v),
        compare_flags(a, v).carry == (a < v),
{
    lemma_subtract(a, v, false);
}

/// An accepted interrupt runs as the next cycle: it lifts a halt, empties the
/// latch, saves the program counter unchanged on the stack and continues at
/// eight times the restart number.
pub proof fn lemma_interrupt_delivery(s: CpuState, rst: u8, input: u8)
    requires
        s.wf(),
        s.accepts(rst),
    ensures
        ({
            let after = s.interrupted(rst).step(input);
            &&& after.pc == rst - 0xC7
            &&& after.sp == wrap16(s.sp - 2)
            &&& after.top() == s.pc
            &&& !after.halted
            &&& after.pending is None
            &&& s.interrupted(rst).step_cycles() == 11
        }),
{
    lemma_restart_opcodes(rst);
    let n = ((rst - 0xC7) / 8) as u8;
    let latched = s.interrupted(rst);
    assert(latched.next() == Instr::Rst(n));
    let begun = latched.begun();
    lemma_wrap_offsets(s.pc);
    assert(wrap16(begun.pc + 1) == s.pc);
    lemma_pushed(begun, s.pc);
    let after = latched.step(input);
    assert(after == begun.pushed(s.pc).jump((8 * n) as u16));
    assert(after.top() == begun.pushed(s.pc).top());
}

/// `CALL` saves the address behind itself, high byte at `SP - 1` and low byte
/// at `SP - 2`, and a `RET` that follows continues there with the stack
/// pointer restored.
pub proof fn lemma_call_return(s: CpuState, x: u8, y: u8)
    requires
        s.wf(),
    ensures
        ({
            let called = s.execute(Instr::Call, x);
            let returned = called.execute(Instr::Ret, y);
            &&& called.pc == s.imm16()
            &&& called.sp == wrap16(s.sp - 2)
            &&& called.read(wrap16(s.sp - 1)) == high(wrap16(s.pc + 3))
            &&& called.read(wrap16(s.sp - 2)) == low(wrap16(s.pc + 3))
            &&& returned.pc == wrap16(s.pc + 3)
            &&& returned.sp == s.sp
        }),
{
    let ret = wrap16(s.pc + 3);
    lemma_pushed(s, ret);
    let called = s.execute(Instr::Call, x);
    assert(called == s.pushed(ret).jump(s.imm16()));
    assert(called.top() == s.pushed(ret).top());
    assert(called.dropped().sp == s.pushed(ret).dropped().sp);
}

/// A cycle takes at least 4 and at most 18 T-states, or 1 when the processor
/// idles.
pub proof fn lemma_cycle_bounds(s: CpuState)
    ensures
        s.idle() ==> s.step_cycles() == 1,
        !s.idle() ==> 4 <= s.step_cycles() <= 18,
{
}

/// No instruction changes the size of the memory.
pub proof fn lemma_execute_keeps_wf(s: CpuState, i: Instr, input: u8)
    requires
        s.wf(),
    ensures
        s.execute(i, input).wf(),
{
    match i {
        Instr::Nop => {},
        Instr::Hlt => {},
        Instr::Mov(_, _) => {},
        Instr::Mvi(_) => {},
        Instr::Lxi(_) => {},
        Instr::Lda => {},
        Instr::Sta => {},
        Instr::Lhld => {},
        Instr::Shld => {},
        Instr::Ldax(_) => {},
        Instr::Stax(_) => {},
        Instr::Xchg => {},
        Instr::Inx(_) => {},
        Instr::Dcx(_) => {},
        Instr::Inr(_) => {},
        Instr::Dcr(_) => {},
        Instr::Dad(_) => {},
        Instr::Alu(_, _) => {},
        Instr::AluImm(_) => {},
        Instr::Rlc => {},
        Instr::Rrc => {},
        Instr::Ral => {},
        Instr::Rar => {},
        Instr::Cma => {},
        Instr::Cmc => {},
        Instr::Stc => {},
        Instr::Daa => {},
        Instr::Jmp => {},
        Instr::Jcc(_) => {},
        Instr::Call => {},
        Instr::Ccc(_) => {},
        Instr::Ret => {},
        Instr::Rcc(_) => {},
        Instr::Pchl => {},
        Instr::Sphl => {},
        Instr::Xthl => {},
        Instr::Push(_) => {},
        Instr::Pop(_) => {},
        Instr::Rst(_) => {},
        Instr::In => {},
        Instr::Out => {},
        Instr::Ei => {},
        Instr::Di => {},
    }
}

/// A step keeps the memory at 65536 bytes.
pub proof fn lemma_step_keeps_wf(s: CpuState, input: u8)
    requires
        s.wf(),
    ensures
        s.step(input).wf(),
        s.begun().wf(),
{
    lemma_execute_keeps_wf(s.begun(), s.next(), input);
}

} // verus!
