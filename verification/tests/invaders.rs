use intel8080::invaders::{
    colour, ends_frame, faster, load_rom, map_display, slower, turn_budget, Button, Fault, Invaders,
    Pacer, FPS, FRAME_SIZE, HALF_FRAME, HEIGHT, PORT0, ROM_SIZE, VIDEO_SIZE, VIDEO_START, WIDTH,
};
use intel8080::{Bus, CPU, RATE};

const WHITE: [u8; 4] = [0x80, 0x80, 0x80, 0xFF];
const GREEN: [u8; 4] = [0x00, 0x80, 0x00, 0xFF];
const RED: [u8; 4] = [0x80, 0x00, 0x00, 0xFF];
const BLACK: [u8; 4] = [0x00, 0x00, 0x00, 0xFF];

#[test]
fn cabinet_constants() {
    assert_eq!((WIDTH, HEIGHT, FPS), (224, 256, 60));
    assert_eq!(VIDEO_START + VIDEO_SIZE, 0x4000);
    assert_eq!(VIDEO_SIZE, 224 * 32);
    assert_eq!(FRAME_SIZE, 224 * 256 * 4);
    assert_eq!(HALF_FRAME, RATE / FPS / 2);
    assert_eq!(ROM_SIZE, 2048);
}

#[test]
fn input_ports() {
    let cpu = CPU::new(&[]);
    let mut cabinet = Invaders::new();
    assert_eq!(cabinet.read(&cpu, 0), 0b0111_1110);
    assert_eq!(PORT0, 0b0111_1110);
    assert_eq!(cabinet.read(&cpu, 1), 0b0000_1000);
    assert_eq!(cabinet.read(&cpu, 2), 0b0000_0001);
    assert_eq!(cabinet.read(&cpu, 3), 0);
    assert_eq!(cabinet.fault(), None);

    let on_port1 = [
        (Button::Credit, 0x01u8),
        (Button::Start2, 0x02),
        (Button::Start1, 0x04),
        (Button::Shoot1, 0x10),
        (Button::Left1, 0x20),
        (Button::Right1, 0x40),
    ];
    for (button, mask) in on_port1 {
        assert!(button.is_on_port1());
        assert_eq!(button.bit(), mask);
        cabinet.set_button(button, true);
        assert_eq!(cabinet.read(&cpu, 1), 0b0000_1000 | mask);
        assert_eq!(cabinet.read(&cpu, 2), 0b0000_0001);
        cabinet.set_button(button, true);
        assert_eq!(cabinet.read(&cpu, 1), 0b0000_1000 | mask);
        cabinet.set_button(button, false);
        assert_eq!(cabinet.read(&cpu, 1), 0b0000_1000);
    }
    let on_port2 = [
        (Button::Tilt, 0x04u8),
        (Button::Shoot2, 0x10),
        (Button::Left2, 0x20),
        (Button::Right2, 0x40),
    ];
    for (button, mask) in on_port2 {
        assert!(!button.is_on_port1());
        assert_eq!(button.bit(), mask);
        cabinet.set_button(button, true);
        assert_eq!(cabinet.read(&cpu, 2), 0b0000_0001 | mask);
        assert_eq!(cabinet.read(&cpu, 1), 0b0000_1000);
        cabinet.set_button(button, false);
        assert_eq!(cabinet.read(&cpu, 2), 0b0000_0001);
    }
    cabinet.set_button(Button::Left1, true);
    cabinet.set_button(Button::Shoot1, true);
    cabinet.set_button(Button::Left1, false);
    assert_eq!(cabinet.read(&cpu, 1), 0b0001_1000);
}

#[test]
fn shift_register() {
    let cpu = CPU::new(&[]);
    let mut cabinet = Invaders::new();
    cabinet.write(&cpu, 4, 0xAB);
    assert_eq!(cabinet.read(&cpu, 3), 0xAB);
    cabinet.write(&cpu, 4, 0xCD);
    // the register holds 0xCDAB
    assert_eq!(cabinet.read(&cpu, 3), 0xCD);
    let expected = [0xCDu8, 0x9B, 0x36, 0x6D, 0xDA, 0xB5, 0x6A, 0xD5];
    for offset in 0..8u8 {
        cabinet.write(&cpu, 2, offset);
        assert_eq!(cabinet.read(&cpu, 3), expected[offset as usize]);
        assert_eq!(cabinet.read(&cpu, 3), ((0xCDABu32 << offset) >> 8) as u8);
    }
    // only the low three bits of the offset count
    cabinet.write(&cpu, 2, 0xF9);
    assert_eq!(cabinet.read(&cpu, 3), 0x9B);
    cabinet.write(&cpu, 2, 0x08);
    assert_eq!(cabinet.read(&cpu, 3), 0xCD);
    assert_eq!(cabinet.take_sounds(), 0);
    assert_eq!(cabinet.fault(), None);
}

#[test]
fn sounds_start_on_rising_bits() {
    let cpu = CPU::new(&[]);
    let mut cabinet = Invaders::new();
    cabinet.write(&cpu, 3, 0b0000_0101);
    assert_eq!(cabinet.take_sounds(), 0b0_0000_0101);
    assert_eq!(cabinet.take_sounds(), 0);
    // the same value again starts nothing
    cabinet.write(&cpu, 3, 0b0000_0101);
    assert_eq!(cabinet.take_sounds(), 0);
    // bit 1 rises, bit 0 falls, bit 2 stays
    cabinet.write(&cpu, 3, 0b0000_0110);
    assert_eq!(cabinet.take_sounds(), 0b0_0000_0010);
    // bit 0 rises again; bits 4 to 7 start nothing
    cabinet.write(&cpu, 3, 0b1111_0111);
    assert_eq!(cabinet.take_sounds(), 0b0_0000_0001);
    cabinet.write(&cpu, 3, 0);
    cabinet.write(&cpu, 3, 0b0000_1000);
    assert_eq!(cabinet.take_sounds(), 0b0_0000_1000);

    cabinet.write(&cpu, 5, 0b0001_0001);
    assert_eq!(cabinet.take_sounds(), 0b1_0001_0000);
    cabinet.write(&cpu, 5, 0b0001_1111);
    assert_eq!(cabinet.take_sounds(), 0b0_1110_0000);
    cabinet.write(&cpu, 5, 0b1110_0000);
    assert_eq!(cabinet.take_sounds(), 0);
    cabinet.write(&cpu, 5, 0b1110_0010);
    assert_eq!(cabinet.take_sounds(), 0b0_0010_0000);

    // sounds wait until they are taken
    cabinet.write(&cpu, 3, 0);
    cabinet.write(&cpu, 5, 0);
    cabinet.write(&cpu, 3, 0b0001);
    cabinet.write(&cpu, 5, 0b0001);
    cabinet.write(&cpu, 3, 0b0011);
    assert_eq!(cabinet.take_sounds(), 0b0_0001_0011);
    // the watchdog port does nothing
    cabinet.write(&cpu, 6, 0xFF);
    assert_eq!(cabinet.take_sounds(), 0);
    assert_eq!(cabinet.fault(), None);
}

#[test]
fn unwired_ports_are_noted() {
    let cpu = CPU::new(&[]);
    let mut cabinet = Invaders::new();
    assert_eq!(cabinet.read(&cpu, 4), 0);
    assert_eq!(cabinet.fault(), Some(Fault::Read(4)));
    cabinet.write(&cpu, 7, 1);
    assert_eq!(cabinet.fault(), Some(Fault::Read(4)));
    let mut cabinet = Invaders::new();
    for port in [0u8, 1, 7, 8, 255] {
        let mut fresh = Invaders::new();
        fresh.write(&cpu, port, 0xFF);
        assert_eq!(fresh.fault(), Some(Fault::Write(port)));
        assert_eq!(fresh.read(&cpu, 1), 0b0000_1000);
        assert_eq!(fresh.read(&cpu, 3), 0);
        assert_eq!(fresh.take_sounds(), 0);
    }
    cabinet.write(&cpu, 0, 1);
    assert_eq!(cabinet.read(&cpu, 200), 0);
    assert_eq!(cabinet.fault(), Some(Fault::Write(0)));
}

#[test]
fn cabinet_on_the_bus() {
    // MVI A,0x12; OUT 4; MVI A,0x34; OUT 4; MVI A,4; OUT 2; IN 3; MOV B,A; IN 1; HLT
    let mut cpu = CPU::new(&[
        0x3E, 0x12, 0xD3, 0x04, 0x3E, 0x34, 0xD3, 0x04, 0x3E, 0x04, 0xD3, 0x02, 0xDB, 0x03, 0x47, 0xDB,
        0x01, 0x76,
    ]);
    let mut cabinet = Invaders::new();
    cabinet.set_button(Button::Credit, true);
    while !cpu.halted() {
        cpu.cycle(&mut cabinet);
    }
    assert_eq!(cpu.register(0), 0x41);
    assert_eq!(cpu.register(6), 0b0000_1001);
}

#[test]
fn pixel_colours() {
    assert_eq!(colour(false, 0, 0), BLACK);
    assert_eq!(colour(false, 100, 100), BLACK);
    assert_eq!(colour(true, 0, 0), WHITE);
    assert_eq!(colour(true, 15, 15), WHITE);
    assert_eq!(colour(true, 15, 16), GREEN);
    assert_eq!(colour(true, 0, 134), GREEN);
    assert_eq!(colour(true, 0, 135), WHITE);
    assert_eq!(colour(true, 16, 0), GREEN);
    assert_eq!(colour(true, 72, 223), GREEN);
    assert_eq!(colour(true, 73, 100), WHITE);
    assert_eq!(colour(true, 191, 100), WHITE);
    assert_eq!(colour(true, 192, 100), RED);
    assert_eq!(colour(true, 223, 0), RED);
    assert_eq!(colour(true, 224, 0), WHITE);
    assert_eq!(colour(true, 255, 223), WHITE);
}

#[test]
fn screen_is_turned_on_its_side() {
    let mut video = vec![0u8; VIDEO_SIZE];
    // line 0: pixels 0 and 255; line 5: pixel 20; line 223: pixel 200
    video[0] = 0x01;
    video[31] = 0x80;
    video[5 * 32 + 2] = 0x10;
    video[223 * 32 + 25] = 0x01;
    let frame = map_display(&video);
    assert_eq!(frame.len(), FRAME_SIZE);
    let at = |column: usize, row: usize| -> [u8; 4] {
        let i = (row * 224 + column) * 4;
        [frame[i], frame[i + 1], frame[i + 2], frame[i + 3]]
    };
    assert_eq!(at(0, 255), WHITE);
    assert_eq!(at(0, 0), WHITE);
    assert_eq!(at(5, 255 - 20), GREEN);
    assert_eq!(at(223, 255 - 200), RED);
    let lit = (0..224 * 256).filter(|p| frame[p * 4] != 0 || frame[p * 4 + 1] != 0).count();
    assert_eq!(lit, 4);
    assert!((0..224 * 256).all(|p| frame[p * 4 + 3] == 0xFF));
}

#[test]
fn screen_follows_the_byte_by_byte_mapping() {
    let mut video = vec![0u8; VIDEO_SIZE];
    for (i, byte) in video.iter_mut().enumerate() {
        *byte = (i as u32).wrapping_mul(2654435761).rotate_left(7) as u8;
    }
    let frame = map_display(&video);
    let mut expected = vec![0u8; FRAME_SIZE];
    for (byte, packed) in video.iter().enumerate() {
        let x = (byte * 8) % 256;
        let y = (byte * 8) / 256;
        for bit in 0..8 {
            let value = (packed >> bit) & 1;
            let x = x + bit;
            let rgba = colour(value == 1, x, y);
            let pixel = (224 * (255 - x) + y) * 4;
            expected[pixel..pixel + 4].copy_from_slice(&rgba);
        }
    }
    assert_eq!(frame, expected);
}

#[test]
fn interrupts_alternate_every_half_frame() {
    let mut pacer = Pacer::new();
    let mut counted = 0u32;
    let mut raised = vec![];
    let mut at = vec![];
    for _ in 0..20_000 {
        counted += 10;
        if let Some(rst) = pacer.advance(10) {
            raised.push(rst);
            at.push(counted);
        }
    }
    assert_eq!(raised.len(), 12);
    assert_eq!(&raised[..4], &[0xCF, 0xD7, 0xCF, 0xD7]);
    assert_eq!(&at[..3], &[16670, 33340, 50000]);
    assert!(!ends_frame(0xCF));
    assert!(ends_frame(0xD7));

    let mut pacer = Pacer::new();
    for _ in 0..16665 {
        assert_eq!(pacer.advance(1), None);
    }
    assert_eq!(pacer.advance(1), Some(0xCF));
    assert_eq!(pacer.advance(0), None);
    let mut pacer = Pacer::new();
    for _ in 0..65 {
        assert_eq!(pacer.advance(255), None);
    }
    // 65 * 255 = 16575; 91 more reach 16666
    assert_eq!(pacer.advance(90), None);
    assert_eq!(pacer.advance(18), Some(0xCF));
    // 17 are carried over
    for _ in 0..65 {
        assert_eq!(pacer.advance(255), None);
    }
    assert_eq!(pacer.advance(73), None);
    assert_eq!(pacer.advance(1), Some(0xD7));
}

#[test]
fn speed_stays_between_three_and_ten() {
    assert_eq!(faster(5), 6);
    assert_eq!(faster(9), 10);
    assert_eq!(faster(10), 10);
    assert_eq!(faster(u32::MAX), 10);
    assert_eq!(slower(5), 4);
    assert_eq!(slower(4), 3);
    assert_eq!(slower(3), 3);
    assert_eq!(slower(0), 3);
    assert_eq!(turn_budget(5), 10_000);
    assert_eq!(turn_budget(3), 6_000);
    assert_eq!(turn_budget(10), 20_000);
}

#[test]
fn program_roms_are_laid_end_to_end() {
    let h = vec![0x11u8; ROM_SIZE];
    let g = vec![0x22u8; ROM_SIZE];
    let f = vec![0x33u8; ROM_SIZE];
    let mut e = vec![0x44u8; ROM_SIZE];
    e[ROM_SIZE - 1] = 0x99;
    let cpu = load_rom(&h, &g, &f, &e);
    assert_eq!(cpu.pc(), 0);
    let memory = cpu.memory();
    assert!(memory[0x0000..0x0800].iter().all(|&b| b == 0x11));
    assert!(memory[0x0800..0x1000].iter().all(|&b| b == 0x22));
    assert!(memory[0x1000..0x1800].iter().all(|&b| b == 0x33));
    assert!(memory[0x1800..0x1FFF].iter().all(|&b| b == 0x44));
    assert_eq!(memory[0x1FFF], 0x99);
    assert!(memory[0x2000..].iter().all(|&b| b == 0));
}
