//! The input/output bus that the processor talks to.

use vstd::prelude::*;
use crate::cpu::CPU;
use crate::state::CpuState;

verus! {

/// The devices behind the 256 input and 256 output ports.
///
/// The processor calls [`Bus::read`] when it executes `IN` and [`Bus::write`]
/// when it executes `OUT`. Both get a shared reference to the processor, whose
/// program counter still points at the instruction.
///
/// The two specification functions describe the device: which answers it may
/// give and how a call may change it. Left as they are, they allow anything.
/// What is proved about a program that runs on a bus holds as far as the bus
/// keeps to its description; a bus whose code is not verified is taken at its
/// word.
pub trait Bus {
    /// Whether a read of `port`, made while the processor is in state `cpu`,
    /// may answer `data` and leave the bus as `after`.
    open spec fn may_read(&self, cpu: CpuState, port: u8, data: u8, after: &Self) -> bool {
        true
    }

    /// Whether a write of `data` to `port`, made while the processor is in
    /// state `cpu`, may leave the bus as `after`.
    open spec fn may_write(&self, cpu: CpuState, port: u8, data: u8, after: &Self) -> bool {
        true
    }

    /// Reads a byte from `port`.
    fn read(&mut self, cpu: &CPU, port: u8) -> (data: u8)
        ensures
            old(self).may_read(cpu@, port, data, final(self)),
    ;

    /// Writes `data` to `port`.
    fn write(&mut self, cpu: &CPU, port: u8, data: u8)
        ensures
            old(self).may_write(cpu@, port, data, final(self)),
    ;
}

/// The bus with nothing on it: every port reads as zero and writes are dropped.
impl Bus for () {
    open spec fn may_read(&self, cpu: CpuState, port: u8, data: u8, after: &Self) -> bool {
        data == 0
    }

    fn read(&mut self, cpu: &CPU, port: u8) -> (data: u8) {
        0x00
    }

    fn write(&mut self, cpu: &CPU, port: u8, data: u8) {
    }
}

} // verus!
