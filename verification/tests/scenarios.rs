use intel8080::flags::Flags;
use intel8080::state::{InterruptEnable, PortAccess};
use intel8080::{Bus, CPU, MEM_SIZE, RATE};

/// A bus that answers every read with one byte and records what it is asked.
struct Recorder {
    answer: u8,
    reads: Vec<u8>,
    writes: Vec<(u8, u8)>,
    seen_pc: Vec<u16>,
}

impl Recorder {
    fn new(answer: u8) -> Recorder {
        Recorder { answer, reads: vec![], writes: vec![], seen_pc: vec![] }
    }
}

impl Bus for Recorder {
    fn read(&mut self, cpu: &CPU, port: u8) -> u8 {
        self.reads.push(port);
        self.seen_pc.push(cpu.pc());
        self.answer
    }

    fn write(&mut self, cpu: &CPU, port: u8, data: u8) {
        self.writes.push((port, data));
        self.seen_pc.push(cpu.pc());
    }
}

/// The console of a CP/M-style monitor: port 0 ends the program, port 1
/// prints register E (function 2) or the `$`-terminated string at DE
/// (function 9), as register C selects.
struct Console {
    exit: bool,
    out: Vec<u8>,
}

impl Bus for Console {
    fn read(&mut self, _cpu: &CPU, _port: u8) -> u8 {
        0x00
    }

    fn write(&mut self, cpu: &CPU, port: u8, _data: u8) {
        if port == 0 {
            self.exit = true;
        } else if port == 1 {
            if cpu.register(1) == 2 {
                self.out.push(cpu.register(3));
            } else if cpu.register(1) == 9 {
                let mut addr = ((cpu.register(2) as u16) << 8) | cpu.register(3) as u16;
                let mut left = MEM_SIZE;
                while cpu.memory()[addr as usize] != b'$' && left > 0 {
                    self.out.push(cpu.memory()[addr as usize]);
                    addr = addr.wrapping_add(1);
                    left -= 1;
                }
            }
        }
    }
}

fn image(at: usize, program: &[u8]) -> [u8; MEM_SIZE] {
    let mut memory = [0u8; MEM_SIZE];
    memory[at..at + program.len()].copy_from_slice(program);
    memory
}

#[test]
fn constants() {
    assert_eq!(RATE, 2_000_000);
    assert_eq!(MEM_SIZE, 65_536);
}

#[test]
fn reset_state() {
    let cpu = CPU::new(&[1, 2, 3]);
    assert_eq!(cpu.pc(), 0);
    assert_eq!(cpu.sp(), 0xFFFF);
    assert_eq!(cpu.flag_byte(), 0b0000_0010);
    assert_eq!(cpu.flags(), Flags::new());
    for index in 0..=6 {
        assert_eq!(cpu.register(index), 0);
    }
    assert!(!cpu.halted());
    assert!(!cpu.idle());
    assert_eq!(cpu.interrupt_enable(), InterruptEnable::Disabled);
    assert_eq!(cpu.pending(), None);
    assert_eq!(cpu.memory().len(), MEM_SIZE);
    assert_eq!(&cpu.memory()[..4], &[1, 2, 3, 0]);
    assert!(cpu.memory()[3..].iter().all(|&b| b == 0));
}

#[test]
fn new_cuts_the_program_at_64k() {
    let program = vec![0xAB; MEM_SIZE + 10];
    let cpu = CPU::new(&program);
    assert_eq!(cpu.memory().len(), MEM_SIZE);
    assert!(cpu.memory().iter().all(|&b| b == 0xAB));
    let empty = CPU::new(&[]);
    assert!(empty.memory().iter().all(|&b| b == 0));
}

#[test]
fn new_from_start_sets_the_program_counter() {
    let cpu = CPU::new_from_start(image(0x100, &[0x76]), 0x100);
    assert_eq!(cpu.pc(), 0x100);
    assert_eq!(cpu.sp(), 0xFFFF);
    assert_eq!(cpu.memory()[0x100], 0x76);
    assert_eq!(cpu.flag_byte(), 2);
}

#[test]
fn mvi_and_halt() {
    let mut cpu = CPU::new(&[0x3E, 0x42, 0x76]);
    assert_eq!(cpu.cycle(&mut ()), 7);
    assert_eq!(cpu.cycle(&mut ()), 7);
    assert_eq!(cpu.register(6), 0x42);
    assert_eq!(cpu.pc(), 0x0003);
    assert!(cpu.halted());
    assert!(cpu.idle());
    assert_eq!(cpu.cycle(&mut ()), 1);
    assert_eq!(cpu.step(0), 1);
    assert_eq!(cpu.pc(), 0x0003);
    assert!(cpu.halted());
}

#[test]
fn add_sets_zero_carry_and_parity() {
    // MVI A,0x80; MVI B,0x80; ADD B
    let mut cpu = CPU::new(&[0x3E, 0x80, 0x06, 0x80, 0x80]);
    cpu.cycle(&mut ());
    cpu.cycle(&mut ());
    assert_eq!(cpu.cycle(&mut ()), 4);
    assert_eq!(cpu.register(6), 0x00);
    assert_eq!(cpu.register(0), 0x80);
    let f = cpu.flags();
    assert!(f.zero);
    assert!(f.carry);
    assert!(!f.sign);
    assert!(f.parity);
    assert!(!f.aux);
    assert_eq!(cpu.flag_byte(), 0b0100_0111);
}

#[test]
fn inr_sets_auxiliary_carry_and_keeps_carry() {
    // MVI A,0x0F; INR A
    let mut cpu = CPU::new(&[0x3E, 0x0F, 0x3C]);
    cpu.cycle(&mut ());
    assert_eq!(cpu.cycle(&mut ()), 5);
    assert_eq!(cpu.register(6), 0x10);
    let f = cpu.flags();
    assert!(f.aux);
    assert!(!f.zero);
    assert!(!f.carry);
    assert_eq!(cpu.flag_byte(), 0b0001_0010);

    // STC; MVI A,0x0F; INR A: the carry stays set
    let mut cpu = CPU::new(&[0x37, 0x3E, 0x0F, 0x3C]);
    cpu.cycle(&mut ());
    cpu.cycle(&mut ());
    cpu.cycle(&mut ());
    assert_eq!(cpu.register(6), 0x10);
    assert!(cpu.flags().carry);
    assert!(cpu.flags().aux);
}

#[test]
fn daa_adjusts_9b() {
    // MVI A,0x9B; DAA
    let mut cpu = CPU::new(&[0x3E, 0x9B, 0x27]);
    cpu.cycle(&mut ());
    assert!(!cpu.flags().carry);
    assert!(!cpu.flags().aux);
    assert_eq!(cpu.cycle(&mut ()), 4);
    assert_eq!(cpu.register(6), 0x01);
    assert!(cpu.flags().carry);
    assert!(cpu.flags().aux);
    assert_eq!(cpu.pc(), 3);
}

#[test]
fn interrupt_delivery() {
    // DI; EI; NOP; NOP
    let mut cpu = CPU::new(&[0xF3, 0xFB, 0x00, 0x00]);
    assert_eq!(cpu.cycle(&mut ()), 4);
    assert_eq!(cpu.interrupt_enable(), InterruptEnable::Disabled);
    assert!(!cpu.interrupt(0xCF));
    assert_eq!(cpu.cycle(&mut ()), 4);
    assert_eq!(cpu.interrupt_enable(), InterruptEnable::ArmPending);
    assert!(!cpu.interrupt(0xCF));
    // first NOP
    assert_eq!(cpu.cycle(&mut ()), 4);
    assert_eq!(cpu.interrupt_enable(), InterruptEnable::Armed);
    assert!(!cpu.interrupt(0xCF));
    assert_eq!(cpu.pending(), None);
    // second NOP runs as usual
    assert_eq!(cpu.cycle(&mut ()), 4);
    assert_eq!(cpu.pc(), 0x0004);
    assert_eq!(cpu.sp(), 0xFFFF);
    assert_eq!(cpu.interrupt_enable(), InterruptEnable::Enabled);
    // now the interrupt is taken
    assert!(cpu.interrupt(0xCF));
    assert_eq!(cpu.pending(), Some(0xCF));
    assert_eq!(cpu.pc(), 0x0004);
    assert_eq!(cpu.cycle(&mut ()), 11);
    assert_eq!(cpu.pc(), 0x0008);
    assert_eq!(cpu.sp(), 0xFFFD);
    assert_eq!(cpu.memory()[0xFFFD], 0x04);
    assert_eq!(cpu.memory()[0xFFFE], 0x00);
    assert_eq!(cpu.pending(), None);
}

#[test]
fn interrupt_takes_only_restart_opcodes() {
    // EI; NOP; NOP
    let mut cpu = CPU::new(&[0xFB, 0x00, 0x00]);
    cpu.cycle(&mut ());
    cpu.cycle(&mut ());
    cpu.cycle(&mut ());
    assert_eq!(cpu.interrupt_enable(), InterruptEnable::Enabled);
    for op in 0..=255u8 {
        let mut probe = CPU::new(&[0xFB, 0x00, 0x00]);
        probe.cycle(&mut ());
        probe.cycle(&mut ());
        probe.cycle(&mut ());
        let restart = matches!(op, 0xC7 | 0xCF | 0xD7 | 0xDF | 0xE7 | 0xEF | 0xF7 | 0xFF);
        assert_eq!(probe.interrupt(op), restart);
        assert_eq!(probe.pending(), if restart { Some(op) } else { None });
    }
    for (n, op) in [0xC7u8, 0xCF, 0xD7, 0xDF, 0xE7, 0xEF, 0xF7, 0xFF].iter().enumerate() {
        let mut probe = CPU::new(&[0xFB, 0x00, 0x00]);
        probe.cycle(&mut ());
        probe.cycle(&mut ());
        probe.cycle(&mut ());
        assert!(probe.interrupt(*op));
        assert_eq!(probe.cycle(&mut ()), 11);
        assert_eq!(probe.pc(), 8 * n as u16);
        assert_eq!(probe.memory()[0xFFFD], 0x03);
    }
}

#[test]
fn interrupt_wakes_a_halted_processor() {
    // EI; NOP; NOP; HLT, and at 0x0010 (RST 2): MVI A,0x55; HLT
    let mut memory = image(0, &[0xFB, 0x00, 0x00, 0x76]);
    memory[0x10..0x13].copy_from_slice(&[0x3E, 0x55, 0x76]);
    let mut cpu = CPU::new_from_start(memory, 0);
    for _ in 0..4 {
        cpu.cycle(&mut ());
    }
    assert!(cpu.halted());
    assert_eq!(cpu.pc(), 4);
    assert_eq!(cpu.cycle(&mut ()), 1);
    assert!(cpu.interrupt(0xD7));
    assert!(cpu.halted());
    assert!(!cpu.idle());
    assert_eq!(cpu.cycle(&mut ()), 11);
    assert!(!cpu.halted());
    assert_eq!(cpu.pc(), 0x0010);
    assert_eq!(cpu.memory()[0xFFFD], 0x04);
    assert_eq!(cpu.cycle(&mut ()), 7);
    assert_eq!(cpu.register(6), 0x55);
}

#[test]
fn halt_before_the_flip_flop_is_enabled_stays_halted() {
    // EI; HLT: the flip-flop stops at Armed, so no interrupt gets in
    let mut cpu = CPU::new(&[0xFB, 0x76]);
    cpu.cycle(&mut ());
    cpu.cycle(&mut ());
    assert!(cpu.halted());
    assert_eq!(cpu.interrupt_enable(), InterruptEnable::Armed);
    assert_eq!(cpu.cycle(&mut ()), 1);
    assert_eq!(cpu.interrupt_enable(), InterruptEnable::Armed);
    assert!(!cpu.interrupt(0xC7));
}

#[test]
fn call_ret_round_trip() {
    // CALL 0x1234, and at 0x1234: RET
    let mut memory = image(0, &[0xCD, 0x34, 0x12]);
    memory[0x1234] = 0xC9;
    let mut cpu = CPU::new_from_start(memory, 0);
    assert_eq!(cpu.sp(), 0xFFFF);
    assert_eq!(cpu.cycle(&mut ()), 17);
    assert_eq!(cpu.pc(), 0x1234);
    assert_eq!(cpu.sp(), 0xFFFD);
    assert_eq!(cpu.memory()[0xFFFE], 0x00);
    assert_eq!(cpu.memory()[0xFFFD], 0x03);
    assert_eq!(cpu.cycle(&mut ()), 11);
    assert_eq!(cpu.pc(), 0x0003);
    assert_eq!(cpu.sp(), 0xFFFF);
}

#[test]
fn call_from_high_memory_saves_both_bytes() {
    // at 0xABCD: CALL 0x0010
    let memory = image(0xABCD, &[0xCD, 0x10, 0x00]);
    let mut cpu = CPU::new_from_start(memory, 0xABCD);
    cpu.cycle(&mut ());
    assert_eq!(cpu.pc(), 0x0010);
    assert_eq!(cpu.memory()[0xFFFE], 0xAB);
    assert_eq!(cpu.memory()[0xFFFD], 0xD0);
}

#[test]
fn in_and_out_go_through_the_bus() {
    // IN 7; OUT 9
    let mut cpu = CPU::new(&[0xDB, 0x07, 0xD3, 0x09]);
    let mut bus = Recorder::new(0x5A);
    assert_eq!(cpu.port_access(), PortAccess::Read(7));
    assert_eq!(cpu.cycle(&mut bus), 10);
    assert_eq!(cpu.register(6), 0x5A);
    assert_eq!(cpu.pc(), 2);
    assert_eq!(cpu.port_access(), PortAccess::Write(9, 0x5A));
    assert_eq!(cpu.cycle(&mut bus), 10);
    assert_eq!(cpu.pc(), 4);
    assert_eq!(cpu.port_access(), PortAccess::Unused);
    assert_eq!(bus.reads, vec![7]);
    assert_eq!(bus.writes, vec![(9, 0x5A)]);
    assert_eq!(bus.seen_pc, vec![0, 2]);
    assert_eq!(cpu.flags(), Flags::new());
}

#[test]
fn other_instructions_leave_the_bus_alone() {
    let mut bus = Recorder::new(0xFF);
    for op in 0..=255u8 {
        if op == 0xDB || op == 0xD3 {
            continue;
        }
        let mut cpu = CPU::new(&[op, 0x00, 0x00]);
        assert_eq!(cpu.port_access(), PortAccess::Unused);
        cpu.cycle(&mut bus);
    }
    assert!(bus.reads.is_empty());
    assert!(bus.writes.is_empty());
}

#[test]
fn null_bus_reads_zero() {
    // MVI A,0x42; IN 1
    let mut cpu = CPU::new(&[0x3E, 0x42, 0xDB, 0x01]);
    cpu.cycle(&mut ());
    assert_eq!(cpu.register(6), 0x42);
    assert_eq!(cpu.cycle(&mut ()), 10);
    assert_eq!(cpu.register(6), 0x00);
}

#[test]
fn step_takes_the_input_byte() {
    // IN 1; OUT 2; MVI B,9
    let mut cpu = CPU::new(&[0xDB, 0x01, 0xD3, 0x02, 0x06, 0x09]);
    assert_eq!(cpu.step(0x77), 10);
    assert_eq!(cpu.register(6), 0x77);
    assert_eq!(cpu.step(0x11), 10);
    assert_eq!(cpu.register(6), 0x77);
    assert_eq!(cpu.step(0x11), 7);
    assert_eq!(cpu.register(0), 9);
    assert_eq!(cpu.register(6), 0x77);
    assert_eq!(cpu.pc(), 6);
}

#[test]
fn step_and_cycle_agree() {
    let program = [
        0x31, 0x00, 0x20, 0x21, 0x34, 0x12, 0x01, 0xFF, 0x00, 0x09, 0xE5, 0xC1, 0x78, 0x87, 0x27, 0xF5,
        0xCD, 0x14, 0x00, 0x76, 0x3C, 0xC8, 0x2F, 0x17, 0xC9,
    ];
    let mut a = CPU::new(&program);
    let mut b = CPU::new(&program);
    for _ in 0..40 {
        assert_eq!(a.cycle(&mut ()), b.step(0));
        assert_eq!(a.pc(), b.pc());
        assert_eq!(a.sp(), b.sp());
        assert_eq!(a.flag_byte(), b.flag_byte());
        assert_eq!(a.halted(), b.halted());
        for index in 0..=6 {
            assert_eq!(a.register(index), b.register(index));
        }
    }
    assert!(a.halted());
    assert_eq!(a.memory(), b.memory());
}

#[test]
fn monitor_prints_through_port_one() {
    // at 0x0100: LXI D,msg; MVI C,9; CALL 5; MVI E,'!'; MVI C,2; CALL 5; JMP 0
    let mut memory = image(
        0x100,
        &[
            0x11, 0x13, 0x01, 0x0E, 0x09, 0xCD, 0x05, 0x00, 0x1E, 0x21, 0x0E, 0x02, 0xCD, 0x05, 0x00,
            0xC3, 0x00, 0x00, 0x00, b'H', b'E', b'L', b'L', b'O', b'$',
        ],
    );
    memory[0x0000] = 0xD3;
    memory[0x0001] = 0x00;
    memory[0x0005] = 0xD3;
    memory[0x0006] = 0x01;
    memory[0x0007] = 0xC9;
    let mut cpu = CPU::new_from_start(memory, 0x100);
    let mut bus = Console { exit: false, out: vec![] };
    let mut cycles = 0u32;
    let mut instructions = 0;
    while !bus.exit && instructions < 100 {
        cycles += cpu.cycle(&mut bus) as u32;
        instructions += 1;
    }
    assert!(bus.exit);
    assert_eq!(bus.out, b"HELLO!".to_vec());
    assert_eq!(instructions, 12);
    assert_eq!(cycles, 10 + 7 + 17 + 10 + 11 + 7 + 7 + 17 + 10 + 11 + 10 + 10);
    assert_eq!(cpu.sp(), 0xFFFF);
}

#[test]
fn sum_loop_runs_to_completion() {
    // MVI B,10; XRA A; loop: ADD B; DCR B; JNZ loop; HLT
    let mut cpu = CPU::new(&[0x06, 0x0A, 0xAF, 0x80, 0x05, 0xC2, 0x03, 0x00, 0x76]);
    let mut cycles = 0u32;
    while !cpu.halted() {
        cycles += cpu.cycle(&mut ()) as u32;
    }
    assert_eq!(cpu.register(6), 55);
    assert_eq!(cpu.register(0), 0);
    assert!(cpu.flags().zero);
    assert_eq!(cycles, 7 + 4 + 10 * (4 + 5 + 10) + 7);
    assert_eq!(cpu.pc(), 9);
}
