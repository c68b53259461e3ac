use intel8080::dump::{digit_char, push_binary_byte, push_decimal, push_flag, push_hex_byte};
use intel8080::CPU;

#[test]
fn digits() {
    let all: String = (0..16).map(digit_char).collect();
    assert_eq!(all, "0123456789abcdef");
}

#[test]
fn numbers_are_appended() {
    let mut out = String::from("n=");
    push_decimal(&mut out, 0);
    out.push(' ');
    push_decimal(&mut out, 7);
    out.push(' ');
    push_decimal(&mut out, 10);
    out.push(' ');
    push_decimal(&mut out, 4096);
    out.push(' ');
    push_decimal(&mut out, 65535);
    assert_eq!(out, "n=0 7 10 4096 65535");

    let mut out = String::from("0x");
    push_hex_byte(&mut out, 0x0A);
    push_hex_byte(&mut out, 0xF0);
    push_hex_byte(&mut out, 0x00);
    assert_eq!(out, "0x0af000");

    let mut out = String::new();
    push_binary_byte(&mut out, 0b1010_0101);
    out.push('/');
    push_binary_byte(&mut out, 4);
    assert_eq!(out, "10100101/00000100");

    let mut out = String::new();
    push_flag(&mut out, "S: ", true);
    push_flag(&mut out, ", Z: ", false);
    assert_eq!(out, "S: 1, Z: 0");
}

#[test]
fn dump_after_reset() {
    let cpu = CPU::new(&[]);
    assert_eq!(
        cpu.debug(),
        "\nPC: 0, SP: 65535, Halt: false, Interrupt: 00000000\n\
         Registers: B: 0x00, C: 0x00, D: 0x00, E: 0x00, H: 0x00, L: 0x00, A: 0x00\n\
         Flags: S: 0, Z: 0, A: 0, P: 0, C: 0\n"
    );
}

#[test]
fn dump_of_a_running_program() {
    // LXI B,0x1234; LXI D,0x5678; LXI H,0x9ABC; LXI SP,0x0400; MVI A,0xFF; ADI 1; EI; HLT
    let mut cpu = CPU::new(&[
        0x01, 0x34, 0x12, 0x11, 0x78, 0x56, 0x21, 0xBC, 0x9A, 0x31, 0x00, 0x04, 0x3E, 0xFF, 0xC6,
        0x01, 0xFB, 0x76,
    ]);
    for _ in 0..7 {
        cpu.cycle(&mut ());
    }
    assert_eq!(
        cpu.debug(),
        "\nPC: 17, SP: 1024, Halt: false, Interrupt: 00000010\n\
         Registers: B: 0x12, C: 0x34, D: 0x56, E: 0x78, H: 0x9a, L: 0xbc, A: 0x00\n\
         Flags: S: 0, Z: 1, A: 1, P: 1, C: 1\n"
    );
    cpu.cycle(&mut ());
    assert_eq!(
        cpu.debug(),
        "\nPC: 18, SP: 1024, Halt: true, Interrupt: 00000100\n\
         Registers: B: 0x12, C: 0x34, D: 0x56, E: 0x78, H: 0x9a, L: 0xbc, A: 0x00\n\
         Flags: S: 0, Z: 1, A: 1, P: 1, C: 1\n"
    );
}

#[test]
fn dump_shows_enabled_interrupts() {
    // EI; NOP; NOP
    let mut cpu = CPU::new(&[0xFB, 0x00, 0x00]);
    for _ in 0..3 {
        cpu.cycle(&mut ());
    }
    assert!(cpu.debug().starts_with("\nPC: 3, SP: 65535, Halt: false, Interrupt: 00000001\n"));
}
