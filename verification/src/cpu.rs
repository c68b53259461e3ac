//! The executable processor.

use vstd::prelude::*;
use crate::alu::{
    alu, alu_result, decimal_adjust, decrement, double_add, increment, rotate_left,
    rotate_left_through, rotate_right, rotate_right_through, AluOp,
};
use crate::bus::Bus;
use crate::dump::{
    control_line, dump_text, flag_line, push_binary_byte, push_decimal, push_flag, push_hex_byte,
    register_line,
};
use crate::flags::{Flags, FIXED_BITS, FIXED_MASK};
use crate::instr::{decode, restart_opcode, IndexPair, Instr, Pair, Reg, StackPair};
use crate::state::{
    backward, forward, high_byte, loaded, low_byte, make_word, wrap16, CpuState, InterruptEnable,
    PortAccess,
};
use crate::MEM_SIZE;

verus! {

/// An Intel 8080 with its 64 KiB of memory.
pub struct CPU {
    /// Stack pointer.
    sp: u16,
    /// Program counter.
    pc: u16,
    flags: Flags,
    memory: [u8; MEM_SIZE],
    a: u8,
    b: u8,
    c: u8,
    d: u8,
    e: u8,
    h: u8,
    l: u8,
    halt: bool,
    interrupt: InterruptEnable,
    /// Restart opcode supplied by an interrupting device.
    pending_interrupt: Option<u8>,
}

impl View for CPU {
    type V = CpuState;

    closed spec fn view(&self) -> CpuState {
        CpuState {
            pc: self.pc,
            sp: self.sp,
            a: self.a,
            b: self.b,
            c: self.c,
            d: self.d,
            e: self.e,
            h: self.h,
            l: self.l,
            flags: self.flags,
            mem: self.memory@,
            halted: self.halt,
            ie: self.interrupt,
            pending: self.pending_interrupt,
        }
    }
}

impl CPU {
    /// Creates a processor whose memory holds `program` from address 0 on,
    /// cut off at 64 KiB, and zero behind it. The program counter starts at 0.
    pub fn new(program: &[u8]) -> (cpu: CPU)
        ensures
            cpu@ == CpuState::reset(loaded(program@), 0),
            cpu@.wf(),
    {
        let mut memory = [0u8; MEM_SIZE];
        let len = if program.len() < MEM_SIZE {
            program.len()
        } else {
            MEM_SIZE
        };
        let mut i: usize = 0;
        while i < len
            invariant
                i <= len,
                len <= program@.len(),
                len <= MEM_SIZE,
                forall|j: int| 0 <= j < i ==> memory@[j] == program@[j],
                forall|j: int| i <= j < MEM_SIZE ==> memory@[j] == 0u8,
            decreases len - i,
        {
            memory[i] = program[i];
            i = i + 1;
        }
        assert(memory@ =~= loaded(program@));
        CPU::new_from_start(memory, 0x00)
    }

    /// Creates a processor with the memory image `program` and the program
    /// counter at `start`.
    pub fn new_from_start(program: [u8; MEM_SIZE], start: u16) -> (cpu: CPU)
        ensures
            cpu@ == CpuState::reset(program@, start),
            cpu@.wf(),
    {
        CPU {
            pc: start,
            sp: 0xFFFF,
            flags: Flags::new(),
            memory: program,
            a: 0,
            b: 0,
            c: 0,
            d: 0,
            e: 0,
            h: 0,
            l: 0,
            halt: false,
            interrupt: InterruptEnable::Disabled,
            pending_interrupt: None,
        }
    }

    /// The whole memory.
    pub fn memory(&self) -> (m: &[u8])
        ensures
            m@ == self@.mem,
            m@.len() == MEM_SIZE,
    {
        &self.memory
    }

    /// The memory of a processor always has 65536 bytes.
    pub proof fn lemma_wf(&self)
        ensures
            self@.wf(),
    {
    }

    /// Whether the processor has executed `HLT` and not been interrupted since.
    pub fn halted(&self) -> (b: bool)
        ensures
            b == self@.halted,
    {
        self.halt
    }
}

impl CPU {
    /// Reads the byte at `addr`.
    fn load(&self, addr: u16) -> (v: u8)
        ensures
            v == self@.read(addr),
    {
        self.memory[addr as usize]
    }

    /// Stores `v` at `addr`.
    fn store(&mut self, addr: u16, v: u8)
        ensures
            final(self)@ == old(self)@.write(addr, v),
    {
        self.memory[addr as usize] = v;
    }

    /// Reads the little-endian word at `addr`.
    fn load16(&self, addr: u16) -> (w: u16)
        ensures
            w == self@.read16(addr),
    {
        let lo = self.load(addr);
        let hi = self.load(forward(addr, 1));
        make_word(hi, lo)
    }

    /// Stores `w` little-endian at `addr`.
    fn store16(&mut self, addr: u16, w: u16)
        ensures
            final(self)@ == old(self)@.write16(addr, w),
    {
        self.store(addr, low_byte(w));
        self.store(forward(addr, 1), high_byte(w));
    }

    /// Reads the register pair `HL`.
    fn hl(&self) -> (w: u16)
        ensures
            w == self@.hl(),
    {
        make_word(self.h, self.l)
    }

    /// Reads an 8-bit operand.
    fn reg(&self, r: Reg) -> (v: u8)
        ensures
            v == self@.reg(r),
    {
        match r {
            Reg::B => self.b,
            Reg::C => self.c,
            Reg::D => self.d,
            Reg::E => self.e,
            Reg::H => self.h,
            Reg::L => self.l,
            Reg::M => self.load(self.hl()),
            Reg::A => self.a,
        }
    }

    /// Writes an 8-bit operand.
    fn set_reg(&mut self, r: Reg, v: u8)
        ensures
            final(self)@ == old(self)@.with_reg(r, v),
    {
        match r {
            Reg::B => {
                self.b = v;
            },
            Reg::C => {
                self.c = v;
            },
            Reg::D => {
                self.d = v;
            },
            Reg::E => {
                self.e = v;
            },
            Reg::H => {
                self.h = v;
            },
            Reg::L => {
                self.l = v;
            },
            Reg::M => {
                let addr = self.hl();
                self.store(addr, v);
            },
            Reg::A => {
                self.a = v;
            },
        }
    }

    /// Reads a register pair or the stack pointer.
    fn pair(&self, p: Pair) -> (w: u16)
        ensures
            w == self@.pair(p),
    {
        match p {
            Pair::BC => make_word(self.b, self.c),
            Pair::DE => make_word(self.d, self.e),
            Pair::HL => make_word(self.h, self.l),
            Pair::SP => self.sp,
        }
    }

    /// Writes a register pair or the stack pointer.
    fn set_pair(&mut self, p: Pair, w: u16)
        ensures
            final(self)@ == old(self)@.with_pair(p, w),
    {
        match p {
            Pair::BC => {
                self.b = high_byte(w);
                self.c = low_byte(w);
            },
            Pair::DE => {
                self.d = high_byte(w);
                self.e = low_byte(w);
            },
            Pair::HL => {
                self.h = high_byte(w);
                self.l = low_byte(w);
            },
            Pair::SP => {
                self.sp = w;
            },
        }
    }

    /// Reads the address register of `LDAX` and `STAX`.
    fn index(&self, p: IndexPair) -> (w: u16)
        ensures
            w == self@.index(p),
    {
        match p {
            IndexPair::BC => make_word(self.b, self.c),
            IndexPair::DE => make_word(self.d, self.e),
        }
    }

    /// Reads the byte behind the opcode.
    fn imm8(&self) -> (v: u8)
        ensures
            v == self@.imm8(),
    {
        self.load(forward(self.pc, 1))
    }

    /// Reads the word behind the opcode.
    fn imm16(&self) -> (w: u16)
        ensures
            w == self@.imm16(),
    {
        self.load16(forward(self.pc, 1))
    }

    /// Moves the program counter on by `n`.
    fn skip(&mut self, n: u16)
        ensures
            final(self)@ == old(self)@.skip(n as int),
    {
        self.pc = forward(self.pc, n);
    }
}

impl CPU {
    /// Pushes `w`: high byte at `SP - 1`, low byte at `SP - 2`.
    fn push_word(&mut self, w: u16)
        ensures
            final(self)@ == old(self)@.pushed(w),
    {
        self.store(backward(self.sp, 1), high_byte(w));
        self.store(backward(self.sp, 2), low_byte(w));
        self.sp = backward(self.sp, 2);
    }

    /// Saves the address `next_pc` bytes behind the program counter on the
    /// stack and continues at `new_pc`.
    fn push_pc(&mut self, next_pc: u16, new_pc: u16)
        ensures
            final(self)@ == old(self)@.called(wrap16(old(self)@.pc + next_pc), new_pc),
    {
        let ret = forward(self.pc, next_pc);
        self.push_word(ret);
        self.pc = new_pc;
    }

    /// Continues at the address on top of the stack and drops it.
    fn pop_pc(&mut self)
        ensures
            final(self)@ == old(self)@.returned(),
    {
        self.pc = self.load16(self.sp);
        self.sp = forward(self.sp, 2);
    }

    /// `CALL` and the conditional calls.
    fn call(&mut self, condition: bool)
        ensures
            final(self)@ == if condition {
                old(self)@.called(wrap16(old(self)@.pc + 3), old(self)@.imm16())
            } else {
                old(self)@.skip(3)
            },
    {
        if condition {
            let addr = self.imm16();
            self.push_pc(3, addr);
        } else {
            self.skip(3);
        }
    }

    /// `JMP` and the conditional jumps.
    fn jump(&mut self, condition: bool)
        ensures
            final(self)@ == if condition {
                old(self)@.jump(old(self)@.imm16())
            } else {
                old(self)@.skip(3)
            },
    {
        if condition {
            self.pc = self.imm16();
        } else {
            self.skip(3);
        }
    }

    /// `RET` and the conditional returns.
    fn ret(&mut self, condition: bool)
        ensures
            final(self)@ == if condition {
                old(self)@.returned()
            } else {
                old(self)@.skip(1)
            },
    {
        if condition {
            self.pop_pc();
        } else {
            self.skip(1);
        }
    }

    /// `INR`.
    fn incr(&mut self, r: Reg)
        ensures
            final(self)@ == old(self)@.execute(Instr::Inr(r), 0),
    {
        let out = increment(self.reg(r), self.flags);
        self.set_reg(r, out.value);
        self.flags = out.flags;
        self.skip(1);
    }

    /// `DCR`.
    fn dcr(&mut self, r: Reg)
        ensures
            final(self)@ == old(self)@.execute(Instr::Dcr(r), 0),
    {
        let out = decrement(self.reg(r), self.flags);
        self.set_reg(r, out.value);
        self.flags = out.flags;
        self.skip(1);
    }

    /// `LXI`.
    fn lxi(&mut self, p: Pair)
        ensures
            final(self)@ == old(self)@.execute(Instr::Lxi(p), 0),
    {
        let w = self.imm16();
        self.set_pair(p, w);
        self.skip(3);
    }

    /// `MVI`.
    fn mvi(&mut self, r: Reg)
        ensures
            final(self)@ == old(self)@.execute(Instr::Mvi(r), 0),
    {
        let v = self.imm8();
        self.set_reg(r, v);
        self.skip(2);
    }

    /// `INX` when `up` is set, else `DCX`.
    fn reg_cx(&mut self, p: Pair, up: bool)
        ensures
            final(self)@ == if up {
                old(self)@.execute(Instr::Inx(p), 0)
            } else {
                old(self)@.execute(Instr::Dcx(p), 0)
            },
    {
        let w = self.pair(p);
        let res = if up {
            forward(w, 1)
        } else {
            backward(w, 1)
        };
        self.set_pair(p, res);
        self.skip(1);
    }

    /// `DAD`.
    fn dad(&mut self, p: Pair)
        ensures
            final(self)@ == old(self)@.execute(Instr::Dad(p), 0),
    {
        let (sum, carry) = double_add(self.hl(), self.pair(p));
        self.h = high_byte(sum);
        self.l = low_byte(sum);
        self.flags.carry = carry;
        self.skip(1);
    }

    /// Reads the word that `PUSH` stores.
    fn stack_pair(&self, p: StackPair) -> (w: u16)
        ensures
            w == self@.stack_pair(p),
    {
        match p {
            StackPair::BC => make_word(self.b, self.c),
            StackPair::DE => make_word(self.d, self.e),
            StackPair::HL => make_word(self.h, self.l),
            StackPair::PSW => make_word(self.a, self.flags.to_byte()),
        }
    }

    /// Loads the word that `POP` has read.
    fn set_stack_pair(&mut self, p: StackPair, w: u16)
        ensures
            final(self)@ == old(self)@.with_stack_pair(p, w),
    {
        match p {
            StackPair::BC => {
                self.b = high_byte(w);
                self.c = low_byte(w);
            },
            StackPair::DE => {
                self.d = high_byte(w);
                self.e = low_byte(w);
            },
            StackPair::HL => {
                self.h = high_byte(w);
                self.l = low_byte(w);
            },
            StackPair::PSW => {
                self.a = high_byte(w);
                self.flags = Flags::from_byte(low_byte(w));
            },
        }
    }

    /// `PUSH`.
    fn push(&mut self, p: StackPair)
        ensures
            final(self)@ == old(self)@.execute(Instr::Push(p), 0),
    {
        let w = self.stack_pair(p);
        self.push_word(w);
        self.skip(1);
    }

    /// `POP`.
    fn pop(&mut self, p: StackPair)
        ensures
            final(self)@ == old(self)@.execute(Instr::Pop(p), 0),
    {
        let w = self.load16(self.sp);
        self.set_stack_pair(p, w);
        self.sp = forward(self.sp, 2);
        self.skip(1);
    }

    /// An accumulator operation with the operand `v`.
    fn accumulate(&mut self, op: AluOp, v: u8)
        ensures
            final(self)@ == old(self)@.with_a(
                alu_result(op, old(self)@.a, v, old(self)@.flags).value,
            ).with_flags(alu_result(op, old(self)@.a, v, old(self)@.flags).flags),
    {
        let out = alu(op, self.a, v, self.flags);
        self.a = out.value;
        self.flags = out.flags;
    }

    /// `XTHL`.
    fn xthl(&mut self)
        ensures
            final(self)@ == old(self)@.execute(Instr::Xthl, 0),
    {
        let top = self.load16(self.sp);
        let hl = self.hl();
        self.store16(self.sp, hl);
        self.set_pair(Pair::HL, top);
        self.skip(1);
    }
}

impl CPU {
    /// `NOP`.
    fn nop(&mut self)
        ensures
            final(self)@ == old(self)@.execute(Instr::Nop, 0),
    {
        self.skip(1);
    }

    /// `HLT`.
    fn hlt(&mut self)
        ensures
            final(self)@ == old(self)@.execute(Instr::Hlt, 0),
    {
        self.halt = true;
        self.skip(1);
    }

    /// `MOV`.
    fn mov(&mut self, dst: Reg, src: Reg)
        ensures
            final(self)@ == old(self)@.execute(Instr::Mov(dst, src), 0),
    {
        let v = self.reg(src);
        self.set_reg(dst, v);
        self.skip(1);
    }

    /// `LDA`.
    fn lda(&mut self)
        ensures
            final(self)@ == old(self)@.execute(Instr::Lda, 0),
    {
        let addr = self.imm16();
        self.a = self.load(addr);
        self.skip(3);
    }

    /// `STA`.
    fn sta(&mut self)
        ensures
            final(self)@ == old(self)@.execute(Instr::Sta, 0),
    {
        let addr = self.imm16();
        self.store(addr, self.a);
        self.skip(3);
    }

    /// `LHLD`.
    fn lhld(&mut self)
        ensures
            final(self)@ == old(self)@.execute(Instr::Lhld, 0),
    {
        let addr = self.imm16();
        let w = self.load16(addr);
        self.set_pair(Pair::HL, w);
        self.skip(3);
    }

    /// `SHLD`.
    fn shld(&mut self)
        ensures
            final(self)@ == old(self)@.execute(Instr::Shld, 0),
    {
        let addr = self.imm16();
        let hl = self.hl();
        self.store16(addr, hl);
        self.skip(3);
    }

    /// `LDAX`.
    fn ldax(&mut self, p: IndexPair)
        ensures
            final(self)@ == old(self)@.execute(Instr::Ldax(p), 0),
    {
        let addr = self.index(p);
        self.a = self.load(addr);
        self.skip(1);
    }

    /// `STAX`.
    fn stax(&mut self, p: IndexPair)
        ensures
            final(self)@ == old(self)@.execute(Instr::Stax(p), 0),
    {
        let addr = self.index(p);
        self.store(addr, self.a);
        self.skip(1);
    }

    /// `XCHG`.
    fn xchg(&mut self)
        ensures
            final(self)@ == old(self)@.execute(Instr::Xchg, 0),
    {
        let d = self.d;
        let e = self.e;
        self.d = self.h;
        self.e = self.l;
        self.h = d;
        self.l = e;
        self.skip(1);
    }

    /// An accumulator operation on a register or `M`.
    fn alu_reg(&mut self, op: AluOp, r: Reg)
        ensures
            final(self)@ == old(self)@.execute(Instr::Alu(op, r), 0),
    {
        let v = self.reg(r);
        self.accumulate(op, v);
        self.skip(1);
    }

    /// An accumulator operation on the byte behind the opcode.
    fn alu_imm(&mut self, op: AluOp)
        ensures
            final(self)@ == old(self)@.execute(Instr::AluImm(op), 0),
    {
        let v = self.imm8();
        self.accumulate(op, v);
        self.skip(2);
    }

    /// `RLC`.
    fn rlc(&mut self)
        ensures
            final(self)@ == old(self)@.execute(Instr::Rlc, 0),
    {
        let (value, carry) = rotate_left(self.a);
        self.a = value;
        self.flags.carry = carry;
        self.skip(1);
    }

    /// `RRC`.
    fn rrc(&mut self)
        ensures
            final(self)@ == old(self)@.execute(Instr::Rrc, 0),
    {
        let (value, carry) = rotate_right(self.a);
        self.a = value;
        self.flags.carry = carry;
        self.skip(1);
    }

    /// `RAL`.
    fn ral(&mut self)
        ensures
            final(self)@ == old(self)@.execute(Instr::Ral, 0),
    {
        let (value, carry) = rotate_left_through(self.a, self.flags.carry);
        self.a = value;
        self.flags.carry = carry;
        self.skip(1);
    }

    /// `RAR`.
    fn rar(&mut self)
        ensures
            final(self)@ == old(self)@.execute(Instr::Rar, 0),
    {
        let (value, carry) = rotate_right_through(self.a, self.flags.carry);
        self.a = value;
        self.flags.carry = carry;
        self.skip(1);
    }

    /// `CMA`.
    fn cma(&mut self)
        ensures
            final(self)@ == old(self)@.execute(Instr::Cma, 0),
    {
        self.a = 255 - self.a;
        self.skip(1);
    }

    /// `CMC`.
    fn cmc(&mut self)
        ensures
            final(self)@ == old(self)@.execute(Instr::Cmc, 0),
    {
        self.flags.carry = !self.flags.carry;
        self.skip(1);
    }

    /// `STC`.
    fn stc(&mut self)
        ensures
            final(self)@ == old(self)@.execute(Instr::Stc, 0),
    {
        self.flags.carry = true;
        self.skip(1);
    }

    /// `DAA`.
    fn daa(&mut self)
        ensures
            final(self)@ == old(self)@.execute(Instr::Daa, 0),
    {
        let out = decimal_adjust(self.a, self.flags);
        self.a = out.value;
        self.flags = out.flags;
        self.skip(1);
    }

    /// `PCHL`.
    fn pchl(&mut self)
        ensures
            final(self)@ == old(self)@.execute(Instr::Pchl, 0),
    {
        self.pc = self.hl();
    }

    /// `SPHL`.
    fn sphl(&mut self)
        ensures
            final(self)@ == old(self)@.execute(Instr::Sphl, 0),
    {
        self.sp = self.hl();
        self.skip(1);
    }

    /// `RST n`.
    fn rst(&mut self, n: u8)
        ensures
            final(self)@ == old(self)@.execute(Instr::Rst(n), 0),
    {
        self.push_pc(1, n as u16 * 8);
    }

    /// `EI`.
    fn ei(&mut self)
        ensures
            final(self)@ == old(self)@.execute(Instr::Ei, 0),
    {
        self.interrupt = InterruptEnable::ArmPending;
        self.skip(1);
    }

    /// `DI`.
    fn di(&mut self)
        ensures
            final(self)@ == old(self)@.execute(Instr::Di, 0),
    {
        self.interrupt = InterruptEnable::Disabled;
        self.skip(1);
    }

    /// `IN`, with `input` the byte that the bus answered.
    fn port_in(&mut self, input: u8)
        ensures
            final(self)@ == old(self)@.execute(Instr::In, input),
    {
        self.a = input;
        self.skip(2);
    }

    /// `OUT`, after the bus has taken the byte.
    fn port_out(&mut self)
        ensures
            final(self)@ == old(self)@.execute(Instr::Out, 0),
    {
        self.skip(2);
    }

    /// Executes the instruction `i`, taking its immediate operand from the
    /// memory behind the program counter, and returns its T-states. `input` is
    /// the byte that `IN` loads; no other instruction uses it.
    pub fn execute(&mut self, i: Instr, input: u8) -> (t: u8)
        ensures
            final(self)@ == old(self)@.execute(i, input),
            t == i.cycles(old(self)@.flags),
            4 <= t <= 18,
    {
        let t = i.t_states(self.flags);
        match i {
            Instr::Nop => self.nop(),
            Instr::Hlt => self.hlt(),
            Instr::Mov(dst, src) => self.mov(dst, src),
            Instr::Mvi(r) => self.mvi(r),
            Instr::Lxi(p) => self.lxi(p),
            Instr::Lda => self.lda(),
            Instr::Sta => self.sta(),
            Instr::Lhld => self.lhld(),
            Instr::Shld => self.shld(),
            Instr::Ldax(p) => self.ldax(p),
            Instr::Stax(p) => self.stax(p),
            Instr::Xchg => self.xchg(),
            Instr::Inx(p) => self.reg_cx(p, true),
            Instr::Dcx(p) => self.reg_cx(p, false),
            Instr::Inr(r) => self.incr(r),
            Instr::Dcr(r) => self.dcr(r),
            Instr::Dad(p) => self.dad(p),
            Instr::Alu(op, r) => self.alu_reg(op, r),
            Instr::AluImm(op) => self.alu_imm(op),
            Instr::Rlc => self.rlc(),
            Instr::Rrc => self.rrc(),
            Instr::Ral => self.ral(),
            Instr::Rar => self.rar(),
            Instr::Cma => self.cma(),
            Instr::Cmc => self.cmc(),
            Instr::Stc => self.stc(),
            Instr::Daa => self.daa(),
            Instr::Jmp => self.jump(true),
            Instr::Jcc(c) => self.jump(c.test(self.flags)),
            Instr::Call => self.call(true),
            Instr::Ccc(c) => self.call(c.test(self.flags)),
            Instr::Ret => self.ret(true),
            Instr::Rcc(c) => self.ret(c.test(self.flags)),
            Instr::Pchl => self.pchl(),
            Instr::Sphl => self.sphl(),
            Instr::Xthl => self.xthl(),
            Instr::Push(p) => self.push(p),
            Instr::Pop(p) => self.pop(p),
            Instr::Rst(n) => self.rst(n),
            Instr::In => self.port_in(input),
            Instr::Out => self.port_out(),
            Instr::Ei => self.ei(),
            Instr::Di => self.di(),
        }
        t
    }

    /// Begins a cycle: advances the interrupt-enable flip-flop, takes a latched
    /// interrupt if there is one, and returns the opcode to execute.
    fn begin(&mut self) -> (op: u8)
        ensures
            final(self)@ == old(self)@.begun(),
            op == old(self)@.opcode(),
    {
        self.interrupt = self.interrupt.advance();
        match self.pending_interrupt {
            Some(rst) => {
                self.pending_interrupt = None;
                self.halt = false;
                self.pc = backward(self.pc, 1);
                rst
            },
            None => self.load(self.pc),
        }
    }

    /// Whether the next cycle does nothing: the processor is halted and no
    /// interrupt is latched.
    pub fn idle(&self) -> (b: bool)
        ensures
            b == self@.idle(),
    {
        self.halt && self.pending_interrupt.is_none()
    }

    /// Tells what the next cycle will ask of the bus.
    pub fn port_access(&self) -> (access: PortAccess)
        ensures
            access == self@.access(),
    {
        if self.idle() {
            return PortAccess::Unused;
        }
        match self.pending_interrupt {
            Some(rst) => match decode(rst) {
                Instr::In => PortAccess::Read(self.load(self.pc)),
                Instr::Out => PortAccess::Write(self.load(self.pc), self.a),
                _ => PortAccess::Unused,
            },
            None => match decode(self.load(self.pc)) {
                Instr::In => PortAccess::Read(self.imm8()),
                Instr::Out => PortAccess::Write(self.imm8(), self.a),
                _ => PortAccess::Unused,
            },
        }
    }

    /// Advances the processor by one cycle without a bus: `input` stands for
    /// the byte that the bus would answer to `IN`, and what `OUT` writes is
    /// dropped. Returns the T-states, 1 for an idle cycle.
    pub fn step(&mut self, input: u8) -> (t: u8)
        ensures
            final(self)@ == old(self)@.step(input),
            t == old(self)@.step_cycles(),
            t > 0,
    {
        if self.idle() {
            return 1;
        }
        let opcode = self.begin();
        self.execute(decode(opcode), input)
    }

    /// Advances the processor by one cycle: executes the latched interrupt if
    /// there is one, else the instruction at the program counter, and returns
    /// its T-states. A halted processor with no interrupt latched stays as it
    /// is and reports 1.
    ///
    /// `IN` loads what `bus.read` answers; `OUT` hands the accumulator to
    /// `bus.write`. No other instruction touches the bus.
    pub fn cycle<B: Bus>(&mut self, bus: &mut B) -> (t: u8)
        ensures
            t == old(self)@.step_cycles(),
            t > 0,
            old(self)@.access() is Unused ==> {
                &&& final(self)@ == old(self)@.step(0)
                &&& *final(bus) == *old(bus)
            },
            old(self)@.access() matches PortAccess::Read(port) ==> exists|data: u8|
                {
                    &&& old(bus).may_read(old(self)@.begun(), port, data, final(bus))
                    &&& final(self)@ == #[trigger] old(self)@.step(data)
                },
            old(self)@.access() matches PortAccess::Write(port, data) ==> {
                &&& old(bus).may_write(old(self)@.begun(), port, data, final(bus))
                &&& final(self)@ == old(self)@.step(0)
            },
    {
        if self.idle() {
            return 1;
        }
        let opcode = self.begin();
        let i = decode(opcode);
        match i {
            Instr::In => {
                let port = self.imm8();
                let data = bus.read(&*self, port);
                let t = self.execute(i, data);
                assert(self@ == old(self)@.step(data));
                t
            },
            Instr::Out => {
                let port = self.imm8();
                bus.write(&*self, port, self.a);
                self.execute(i, 0)
            },
            _ => self.execute(i, 0),
        }
    }

    /// Offers the opcode `rst` as an interrupt. It is latched, and runs in
    /// place of the next instruction, when interrupts are enabled and `rst` is
    /// a restart opcode; else nothing changes.
    pub fn interrupt(&mut self, rst: u8) -> (accepted: bool)
        ensures
            accepted == old(self)@.accepts(rst),
            final(self)@ == old(self)@.interrupted(rst),
    {
        match self.interrupt {
            InterruptEnable::Enabled => {
                if restart_opcode(rst) {
                    self.pending_interrupt = Some(rst);
                    true
                } else {
                    false
                }
            },
            _ => false,
        }
    }

    /// Returns the register with the given index: 0 to 6 are B, C, D, E, H, L, A.
    pub fn register(&self, reg: u8) -> (v: u8)
        requires
            reg <= 6,
        ensures
            v == self@.register(reg),
    {
        match reg {
            0 => self.b,
            1 => self.c,
            2 => self.d,
            3 => self.e,
            4 => self.h,
            5 => self.l,
            _ => self.a,
        }
    }

    /// The program counter.
    pub fn pc(&self) -> (pc: u16)
        ensures
            pc == self@.pc,
    {
        self.pc
    }

    /// The stack pointer.
    pub fn sp(&self) -> (sp: u16)
        ensures
            sp == self@.sp,
    {
        self.sp
    }

    /// The flags.
    pub fn flags(&self) -> (f: Flags)
        ensures
            f == self@.flags,
    {
        self.flags
    }

    /// The flag byte `S Z 0 AC 0 P 1 C`.
    pub fn flag_byte(&self) -> (b: u8)
        ensures
            b == self@.flags.byte(),
            b & FIXED_MASK == FIXED_BITS,
    {
        self.flags.to_byte()
    }

    /// The interrupt-enable flip-flop.
    pub fn interrupt_enable(&self) -> (ie: InterruptEnable)
        ensures
            ie == self@.ie,
    {
        self.interrupt
    }

    /// The interrupt opcode that is latched and has not run yet.
    pub fn pending(&self) -> (op: Option<u8>)
        ensures
            op == self@.pending,
    {
        self.pending_interrupt
    }
}

impl CPU {
    /// Writes the first line of the dump.
    fn control_text(&self) -> (text: String)
        ensures
            text@ == control_line(self@),
    {
        let mut out = "\nPC: ".to_owned();
        push_decimal(&mut out, self.pc);
        out.push_str(", SP: ");
        push_decimal(&mut out, self.sp);
        out.push_str(", Halt: ");
        out.push_str(
            if self.halt {
                "true"
            } else {
                "false"
            },
        );
        out.push_str(", Interrupt: ");
        let code: u8 = match self.interrupt {
            InterruptEnable::Disabled => 0,
            InterruptEnable::Enabled => 1,
            InterruptEnable::ArmPending => 2,
            InterruptEnable::Armed => 4,
        };
        push_binary_byte(&mut out, code);
        out.push_str("\n");
        out
    }

    /// Writes the second line of the dump.
    fn register_text(&self) -> (text: String)
        ensures
            text@ == register_line(self@),
    {
        let mut out = "Registers: B: 0x".to_owned();
        push_hex_byte(&mut out, self.b);
        out.push_str(", C: 0x");
        push_hex_byte(&mut out, self.c);
        out.push_str(", D: 0x");
        push_hex_byte(&mut out, self.d);
        out.push_str(", E: 0x");
        push_hex_byte(&mut out, self.e);
        out.push_str(", H: 0x");
        push_hex_byte(&mut out, self.h);
        out.push_str(", L: 0x");
        push_hex_byte(&mut out, self.l);
        out.push_str(", A: 0x");
        push_hex_byte(&mut out, self.a);
        out.push_str("\n");
        out
    }

    /// Writes the third line of the dump.
    fn flag_text(&self) -> (text: String)
        ensures
            text@ == flag_line(self@),
    {
        let mut out = String::new();
        push_flag(&mut out, "Flags: S: ", self.flags.sign);
        push_flag(&mut out, ", Z: ", self.flags.zero);
        push_flag(&mut out, ", A: ", self.flags.aux);
        push_flag(&mut out, ", P: ", self.flags.parity);
        push_flag(&mut out, ", C: ", self.flags.carry);
        out.push_str("\n");
        assert(out@ =~= flag_line(self@));
        out
    }

    /// Returns the diagnostic dump as text: program counter, stack pointer,
    /// halt state and interrupt-enable flip-flop, then the registers in
    /// hexadecimal, then the five flags, one line each behind an empty line.
    pub fn debug(&self) -> (text: String)
        ensures
            text@ == dump_text(self@),
    {
        let mut out = self.control_text();
        let registers = self.register_text();
        out.push_str(registers.as_str());
        let flags = self.flag_text();
        out.push_str(flags.as_str());
        out
    }
}

} // verus!
