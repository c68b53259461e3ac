use intel8080::image::{blank, place, place_clipped};
use intel8080::monitor::{load, monitor_image, TestingBus, START};
use intel8080::{Bus, CPU, MEM_SIZE};

fn run_to_exit(cpu: &mut CPU, bus: &mut TestingBus, most: usize) -> usize {
    let mut instructions = 0;
    while !bus.exit && instructions < most {
        cpu.cycle(bus);
        instructions += 1;
    }
    instructions
}

#[test]
fn placing_bytes() {
    let mut memory = blank();
    assert!(memory.iter().all(|&b| b == 0));
    place(&mut memory, 0x10, &[1, 2, 3]);
    assert_eq!(&memory[0x0E..0x15], &[0, 0, 1, 2, 3, 0, 0]);
    place(&mut memory, 0x11, &[9]);
    assert_eq!(&memory[0x10..0x13], &[1, 9, 3]);
    place(&mut memory, MEM_SIZE - 2, &[7, 8]);
    assert_eq!(&memory[MEM_SIZE - 3..], &[0, 7, 8]);
    place(&mut memory, MEM_SIZE, &[]);
    place_clipped(&mut memory, MEM_SIZE - 2, &[4, 5, 6, 7]);
    assert_eq!(&memory[MEM_SIZE - 3..], &[0, 4, 5]);
    place_clipped(&mut memory, 0x20, &[0xAA, 0xBB]);
    assert_eq!(&memory[0x1F..0x23], &[0, 0xAA, 0xBB, 0]);
    place_clipped(&mut memory, MEM_SIZE, &[1]);
    assert_eq!(memory[MEM_SIZE - 1], 5);
}

#[test]
fn monitor_memory_layout() {
    let memory = monitor_image(&[0x11, 0x22, 0x33]);
    assert_eq!(&memory[0x0000..0x0008], &[0xD3, 0x00, 0, 0, 0, 0xD3, 0x01, 0xC9]);
    assert_eq!(&memory[0x00FF..0x0104], &[0, 0x11, 0x22, 0x33, 0]);
    assert!(memory[0x0008..0x0100].iter().all(|&b| b == 0));
    assert!(memory[0x0103..].iter().all(|&b| b == 0));

    let long = vec![0x5A; MEM_SIZE];
    let memory = monitor_image(&long);
    assert!(memory[0x0100..].iter().all(|&b| b == 0x5A));
    assert_eq!(&memory[0x0000..0x0008], &[0xD3, 0x00, 0, 0, 0, 0xD3, 0x01, 0xC9]);

    let cpu = load(&[0x76]);
    assert_eq!(START, 0x0100);
    assert_eq!(cpu.pc(), 0x0100);
    assert_eq!(cpu.sp(), 0xFFFF);
    assert_eq!(cpu.memory()[0x0100], 0x76);
    assert_eq!(cpu.memory()[0x0005], 0xD3);
}

#[test]
fn monitor_prints_strings_and_characters() {
    // LXI D,msg; MVI C,9; CALL 5; MVI E,'!'; MVI C,2; CALL 5; JMP 0; msg
    let mut cpu = load(&[
        0x11, 0x13, 0x01, 0x0E, 0x09, 0xCD, 0x05, 0x00, 0x1E, 0x21, 0x0E, 0x02, 0xCD, 0x05, 0x00, 0xC3,
        0x00, 0x00, 0x00, b'H', b'E', b'L', b'L', b'O', b'$', b'X',
    ]);
    let mut bus = TestingBus::new();
    assert!(!bus.exit);
    assert!(bus.output.is_empty());
    let fresh = TestingBus::default();
    assert!(!fresh.exit && fresh.output.is_empty());
    assert_eq!(run_to_exit(&mut cpu, &mut bus, 100), 12);
    assert!(bus.exit);
    assert_eq!(bus.output, b"HELLO!".to_vec());
}

#[test]
fn monitor_bus_ports() {
    let mut memory = [0u8; MEM_SIZE];
    memory[0x2000..0x2004].copy_from_slice(b"ab$c");
    memory[0xFFFE..].copy_from_slice(b"yz");
    memory[0x0000..0x0003].copy_from_slice(b"A$B");
    // LXI D,0x2000; MVI C,9; HLT at 0x3000
    memory[0x3000..0x3006].copy_from_slice(&[0x11, 0x00, 0x20, 0x0E, 0x09, 0x76]);
    let mut cpu = CPU::new_from_start(memory, 0x3000);
    cpu.cycle(&mut ());
    cpu.cycle(&mut ());
    let mut bus = TestingBus::new();
    assert_eq!(bus.read(&cpu, 0), 0);
    assert_eq!(bus.read(&cpu, 1), 0);
    assert_eq!(bus.read(&cpu, 200), 0);
    assert!(!bus.exit && bus.output.is_empty());
    bus.write(&cpu, 1, 0x77);
    assert_eq!(bus.output, b"ab".to_vec());
    bus.write(&cpu, 2, 0x77);
    bus.write(&cpu, 255, 0x77);
    assert_eq!(bus.output, b"ab".to_vec());
    assert!(!bus.exit);
    bus.write(&cpu, 1, 0);
    assert_eq!(bus.output, b"abab".to_vec());
    bus.write(&cpu, 0, 0);
    assert!(bus.exit);
    assert_eq!(bus.output, b"abab".to_vec());
    bus.write(&cpu, 1, 0);
    assert!(bus.exit);
    assert_eq!(bus.output, b"ababab".to_vec());
}

#[test]
fn monitor_string_wraps_and_may_be_empty() {
    let mut memory = [0u8; MEM_SIZE];
    memory[0xFFFE..].copy_from_slice(b"yz");
    memory[0x0000..0x0003].copy_from_slice(b"A$B");
    memory[0x2000] = b'$';
    // LXI D,0xFFFE; MVI C,9; LXI D,0x2000; MVI C,7; MVI E,'q'; MVI C,2
    memory[0x3000..0x300F].copy_from_slice(&[
        0x11, 0xFE, 0xFF, 0x0E, 0x09, 0x11, 0x00, 0x20, 0x0E, 0x07, 0x1E, b'q', 0x0E, 0x02, 0x76,
    ]);
    let mut cpu = CPU::new_from_start(memory, 0x3000);
    let mut bus = TestingBus::new();
    cpu.cycle(&mut ());
    cpu.cycle(&mut ());
    bus.write(&cpu, 1, 0);
    assert_eq!(bus.output, b"yzA".to_vec());
    cpu.cycle(&mut ());
    cpu.cycle(&mut ());
    bus.write(&cpu, 1, 0);
    assert_eq!(bus.output, b"yzA".to_vec());
    cpu.cycle(&mut ());
    cpu.cycle(&mut ());
    bus.write(&cpu, 1, 0);
    assert_eq!(bus.output, b"yzAq".to_vec());
}

#[test]
fn monitor_string_without_terminator_stops_after_one_round() {
    let memory = [0x41u8; MEM_SIZE];
    let cpu = CPU::new_from_start(memory, 0);
    // registers are zero: function 0 prints the string at 0x0000
    let mut bus = TestingBus::new();
    bus.write(&cpu, 1, 0);
    assert_eq!(bus.output.len(), MEM_SIZE);
    assert!(bus.output.iter().all(|&b| b == 0x41));
}
