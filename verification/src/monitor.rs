//! A bus for diagnostic programs written for a CP/M-style monitor.
//!
//! Such a program is loaded at `0x0100`. The host puts `OUT 0` at `0x0000`,
//! where the program jumps when it is done, and `OUT 1; RET` at `0x0005`,
//! which the program calls with a function number in register C to print:
//! function 2 prints the character in register E, any other function the
//! string at the address in DE, which ends before the first `$`.

use vstd::prelude::*;
use crate::bus::Bus;
use crate::cpu::CPU;
use crate::image::{blank, clipped, place, place_clipped, placed};
use crate::state::{forward, make_word, wrap16, CpuState};
use crate::MEM_SIZE;

verus! {

/// The address at which a diagnostic program is loaded and started.
pub const START: u16 = 0x0100;

/// The byte that ends a string: `$`.
pub const TERMINATOR: u8 = 0x24;

/// The function number that prints one character.
pub const PRINT_CHARACTER: u8 = 2;

/// The string in `mem` that starts at `addr` and ends before the first `$`,
/// cut off after `limit` bytes. Addresses wrap at the end of memory.
pub open spec fn text_at(mem: Seq<u8>, addr: u16, limit: nat) -> Seq<u8>
    decreases limit,
{
    if limit == 0 || mem[addr as int] == TERMINATOR {
        Seq::empty()
    } else {
        seq![mem[addr as int]] + text_at(mem, wrap16(addr + 1), (limit - 1) as nat)
    }
}

/// What a write to `port` prints when the processor is in state `cpu`.
pub open spec fn printed(cpu: CpuState, port: u8) -> Seq<u8> {
    if port != 1 {
        Seq::empty()
    } else if cpu.c == PRINT_CHARACTER {
        seq![cpu.e]
    } else {
        text_at(cpu.mem, cpu.de(), 0x10000)
    }
}

/// The bus of the diagnostic monitor. It collects what the program prints in
/// `output` and sets `exit` when the program is done.
pub struct TestingBus {
    /// Set once the program has written to port 0.
    pub exit: bool,
    /// What the program has printed and nobody has taken yet.
    pub output: Vec<u8>,
}

impl TestingBus {
    /// A bus that has seen nothing yet.
    pub fn new() -> (bus: TestingBus)
        ensures
            !bus.exit,
            bus.output@ == Seq::<u8>::empty(),
    {
        TestingBus { exit: false, output: Vec::new() }
    }

    /// Appends the string at `addr` to the output.
    fn print_text(&mut self, cpu: &CPU, addr: u16)
        ensures
            final(self).exit == old(self).exit,
            final(self).output@ == old(self).output@ + text_at(cpu@.mem, addr, 0x10000),
    {
        let mem = cpu.memory();
        let mut at = addr;
        let mut left: u32 = 0x10000;
        while left > 0 && mem[at as usize] != TERMINATOR
            invariant
                mem@ == cpu@.mem,
                mem@.len() == 0x10000,
                left <= 0x10000,
                self.exit == old(self).exit,
                self.output@ + text_at(mem@, at, left as nat) == old(self).output@ + text_at(
                    mem@,
                    addr,
                    0x10000,
                ),
            decreases left,
        {
            let ghost before = self.output@;
            let ghost rest = text_at(mem@, wrap16(at + 1), (left - 1) as nat);
            assert(text_at(mem@, at, left as nat) == seq![mem@[at as int]] + rest);
            self.output.push(mem[at as usize]);
            assert(self.output@ + rest =~= before + (seq![mem@[at as int]] + rest));
            at = forward(at, 1);
            left = left - 1;
        }
        assert(text_at(mem@, at, left as nat) =~= Seq::<u8>::empty());
        assert(self.output@ + Seq::<u8>::empty() =~= self.output@);
    }
}

impl Default for TestingBus {
    fn default() -> (bus: TestingBus)
        ensures
            !bus.exit,
            bus.output@ == Seq::<u8>::empty(),
    {
        TestingBus::new()
    }
}

impl Bus for TestingBus {
    /// Every port reads as zero and reading changes nothing.
    open spec fn may_read(&self, cpu: CpuState, port: u8, data: u8, after: &Self) -> bool {
        data == 0 && after.exit == self.exit && after.output@ == self.output@
    }

    /// A write to port 0 ends the program, a write to port 1 prints; the byte
    /// written plays no part.
    open spec fn may_write(&self, cpu: CpuState, port: u8, data: u8, after: &Self) -> bool {
        after.exit == (self.exit || port == 0) && after.output@ == self.output@ + printed(cpu, port)
    }

    fn read(&mut self, cpu: &CPU, port: u8) -> (data: u8) {
        0x00
    }

    fn write(&mut self, cpu: &CPU, port: u8, data: u8) {
        if port == 0 {
            self.exit = true;
            assert(self.output@ + Seq::<u8>::empty() =~= self.output@);
        } else if port == 1 {
            if cpu.register(1) == PRINT_CHARACTER {
                self.output.push(cpu.register(3));
                assert(self.output@ =~= old(self).output@ + seq![cpu@.e]);
            } else {
                let addr = make_word(cpu.register(2), cpu.register(3));
                self.print_text(cpu, addr);
            }
        } else {
            assert(self.output@ + Seq::<u8>::empty() =~= self.output@);
        }
    }
}


/// The code at `0x0000`: `OUT 0`, which ends the program.
pub open spec fn exit_code() -> Seq<u8> {
    seq![0xD3u8, 0x00u8]
}

/// The code at `0x0005`: `OUT 1; RET`, which prints.
pub open spec fn print_code() -> Seq<u8> {
    seq![0xD3u8, 0x01u8, 0xC9u8]
}

/// The memory in which `program` runs: zeros, the program from `0x0100` on,
/// cut off at the end of memory, and the monitor's two entry points.
pub open spec fn monitor_memory(program: Seq<u8>) -> Seq<u8> {
    placed(
        placed(
            placed(Seq::new(0x10000, |i: int| 0u8), 0x100, clipped(program, 0x10000 - 0x100)),
            0,
            exit_code(),
        ),
        5,
        print_code(),
    )
}

/// Builds the memory in which the diagnostic program `program` runs.
pub fn monitor_image(program: &[u8]) -> (memory: [u8; MEM_SIZE])
    ensures
        memory@ == monitor_memory(program@),
{
    let mut memory = blank();
    place_clipped(&mut memory, 0x100, program);
    let exit: [u8; 2] = [0xD3, 0x00];
    let print: [u8; 3] = [0xD3, 0x01, 0xC9];
    assert(exit@ =~= exit_code());
    assert(print@ =~= print_code());
    place(&mut memory, 0, exit.as_slice());
    place(&mut memory, 5, print.as_slice());
    memory
}

/// Creates a processor that is about to run the diagnostic program `program`.
pub fn load(program: &[u8]) -> (cpu: CPU)
    ensures
        cpu@ == CpuState::reset(monitor_memory(program@), START),
{
    CPU::new_from_start(monitor_image(program), START)
}

} // verus!
