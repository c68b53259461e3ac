//! The ports behind which a CHIP-8 interpreter written for the 8080 finds its
//! keys, timers, random numbers and screen.
//!
//! The interpreter keeps the CHIP-8 machine in the processor's memory. To draw
//! a sprite it writes the position and the height to three ports; the device
//! then lists the screen cells that the sprite touches, and the interpreter
//! fetches them one by one.

use vstd::prelude::*;
use crate::bus::Bus;
use crate::cpu::CPU;
use crate::image::{blank, place, placed};
use crate::state::CpuState;
use crate::MEM_SIZE;

verus! {

/// Address at which the interpreter starts.
pub const START: u16 = 0x18e2;

/// Width of the screen in cells.
pub const WIDTH: usize = 64;

/// Height of the screen in cells.
pub const HEIGHT: usize = 32;

/// Pixels along the side of a cell on the host's window.
pub const SCALE: usize = 10;

/// Address of the CHIP-8 index register, high byte first.
pub const I: usize = 0x10;

/// Address of the first screen cell; each cell is one byte, 1 when lit.
pub const GFX: usize = 4116;

/// Address of the font.
pub const FONT_AT: usize = 20;

/// Address of the CHIP-8 program.
pub const PROGRAM_AT: usize = 532;

/// Largest CHIP-8 program in bytes.
pub const PROGRAM_MAX: usize = 4096;

/// Address of the interpreter.
pub const INTERPRETER_AT: usize = 6196;

/// Microseconds between two ticks of the timers.
pub const TICK_MICROS: u64 = 4_500;

/// T-states to run between two looks at the keyboard.
pub const TURN_CYCLES: u32 = 1000;

/// Something the interpreter asked for that the device cannot give.
#[derive(Clone, Copy, PartialEq, Eq, Structural, Debug)]
pub enum Fault {
    /// A read from a port that nothing is wired to.
    Read(u8),
    /// A write to a port that nothing is wired to.
    Write(u8),
    /// A read of the state of a key that does not exist.
    Key(u8),
    /// A read from this port of a screen cell when none is left.
    Cell(u8),
    /// A sprite that reaches beyond the end of memory.
    Sprite,
}

/// The sixteen glyphs of the font, five bytes each.
pub const FONTSET: [u8; 80] = [
    0xF0, 0x90, 0x90, 0x90, 0xF0, 0x20, 0x60, 0x20, 0x20, 0x70, 0xF0, 0x10, 0xF0, 0x80, 0xF0, 0xF0,
    0x10, 0xF0, 0x10, 0xF0, 0x90, 0x90, 0xF0, 0x10, 0x10, 0xF0, 0x80, 0xF0, 0x10, 0xF0, 0xF0, 0x80,
    0xF0, 0x90, 0xF0, 0xF0, 0x10, 0x20, 0x40, 0x40, 0xF0, 0x90, 0xF0, 0x90, 0xF0, 0xF0, 0x90, 0xF0,
    0x10, 0xF0, 0xF0, 0x90, 0xF0, 0x90, 0x90, 0xE0, 0x90, 0xE0, 0x90, 0xE0, 0xF0, 0x80, 0x80, 0x80,
    0xF0, 0xE0, 0x90, 0x90, 0x90, 0xE0, 0xF0, 0x80, 0xF0, 0x80, 0xF0, 0xF0, 0x80, 0xF0, 0x80, 0x80,
];

/// The address in the CHIP-8 index register.
pub open spec fn sprite_address(mem: Seq<u8>) -> int {
    mem[I as int] * 256 + mem[I + 1]
}

/// The screen cell that bit `n` of a sprite drawn at column `x` and row `y`
/// touches, with what the cell holds: 1 when it is lit. Bit `n` is bit
/// `n % 8`, counted from the left, of the sprite's row `n / 8`. `None` when
/// the bit is clear or falls off the screen.
pub open spec fn sprite_cell(mem: Seq<u8>, x: int, y: int, n: int) -> Option<(usize, u8)> {
    let row = n / 8;
    let column = n % 8;
    let pattern = mem[sprite_address(mem) + row];
    if x + column < WIDTH && y + row < HEIGHT && pattern & (0x80u8 >> (column as u8)) != 0 {
        let pos = GFX + x + column + (y + row) * WIDTH;
        Some(
            (
                pos as usize,
                if mem[pos] == 1 {
                    1u8
                } else {
                    0u8
                },
            ),
        )
    } else {
        None
    }
}

/// The cells that the first `n` bits of a sprite touch, in order.
pub open spec fn sprite_cells(mem: Seq<u8>, x: int, y: int, n: nat) -> Seq<(usize, u8)>
    decreases n,
{
    if n == 0 {
        Seq::empty()
    } else {
        let before = sprite_cells(mem, x, y, (n - 1) as nat);
        match sprite_cell(mem, x, y, n - 1) {
            Some(cell) => before.push(cell),
            None => before,
        }
    }
}

/// What the device holds.
pub struct ChipState {
    /// The first byte of an opcode that the interpreter does not know, while
    /// the second is still to come.
    pub unknown: Option<u8>,
    /// An opcode that the interpreter does not know and that the host has not
    /// taken yet.
    pub reported: Option<(u8, u8)>,
    /// Whether the screen has changed.
    pub draw: bool,
    /// Whether the buzzer sounds.
    pub sound: bool,
    /// The sixteen keys, 1 when down.
    pub keys: Seq<u8>,
    /// The key whose state the interpreter has asked for.
    pub read_key: Option<u8>,
    /// The key that went down last and is still down, or `0xFF`.
    pub keypress: u8,
    pub delay_timer: u8,
    pub sound_timer: u8,
    /// Column of the sprite to draw.
    pub draw_x: u8,
    /// Row of the sprite to draw.
    pub draw_y: u8,
    /// Height of the sprite to draw.
    pub draw_height: u8,
    /// 1 when no cell of a sprite is left to fetch.
    pub end_draw: u8,
    /// The cells of the sprite that is being drawn.
    pub cells: Seq<(usize, u8)>,
    /// The cell to fetch next.
    pub next_cell: Option<usize>,
    /// When the timers last ticked, in microseconds.
    pub last_update: Option<u64>,
    /// The byte that port 1 answers; the host renews it.
    pub random: u8,
    /// The first request that could not be met.
    pub fault: Option<Fault>,
}

impl ChipState {
    /// The device when it is switched on.
    pub open spec fn initial() -> ChipState {
        ChipState {
            unknown: None,
            reported: None,
            draw: false,
            sound: false,
            keys: Seq::new(16, |i: int| 0u8),
            read_key: None,
            keypress: 0xFF,
            delay_timer: 0,
            sound_timer: 0,
            draw_x: 0,
            draw_y: 0,
            draw_height: 0,
            end_draw: 1,
            cells: Seq::empty(),
            next_cell: None,
            last_update: None,
            random: 0,
            fault: None,
        }
    }

    /// The keys are sixteen.
    pub open spec fn wf(self) -> bool {
        self.keys.len() == 16
    }

    /// The device with a fault noted, unless one is noted already.
    pub open spec fn faulted(self, fault: Fault) -> ChipState {
        if self.fault is None {
            ChipState { fault: Some(fault), ..self }
        } else {
            self
        }
    }

    /// The device with a key pressed or released.
    pub open spec fn with_key(self, key: u8, pressed: bool) -> ChipState {
        ChipState {
            keypress: if pressed {
                key
            } else if key == self.keypress {
                0xFF
            } else {
                self.keypress
            },
            keys: self.keys.update(
                key as int,
                if pressed {
                    1u8
                } else {
                    0u8
                },
            ),
            ..self
        }
    }

    /// The device after a tick of the timers: both count down to zero and the
    /// buzzer sounds while the sound timer runs.
    pub open spec fn ticked(self) -> ChipState {
        let sound_timer = if self.sound_timer == 0 {
            0u8
        } else {
            (self.sound_timer - 1) as u8
        };
        ChipState {
            delay_timer: if self.delay_timer == 0 {
                0u8
            } else {
                (self.delay_timer - 1) as u8
            },
            sound_timer,
            sound: sound_timer != 0,
            ..self
        }
    }

    /// The device after the host has looked at the clock at `now`
    /// microseconds: the timers tick when 4500 microseconds have gone by
    /// since they last did.
    pub open spec fn stepped(self, now: u64) -> ChipState {
        match self.last_update {
            Some(last) => if now - last >= TICK_MICROS {
                ChipState { last_update: Some(now), ..self.ticked() }
            } else {
                self
            },
            None => ChipState { last_update: Some(now), ..self },
        }
    }

    /// The device after the sprite has been laid out over the memory `mem`.
    pub open spec fn drawn(self, mem: Seq<u8>) -> ChipState {
        if sprite_address(mem) + self.draw_height > mem.len() {
            ChipState { cells: Seq::empty(), next_cell: None, end_draw: 1, ..self }.faulted(
                Fault::Sprite,
            )
        } else {
            let cells = sprite_cells(
                mem,
                self.draw_x as int % 64,
                self.draw_y as int % 32,
                (8 * self.draw_height) as nat,
            );
            if cells.len() > 0 {
                ChipState { cells, next_cell: Some(0), end_draw: 0, ..self }
            } else {
                ChipState { cells, next_cell: None, end_draw: 1, ..self }
            }
        }
    }

    /// The cell that the interpreter is fetching, if there is one.
    pub open spec fn cell(self) -> Option<(usize, u8)> {
        match self.next_cell {
            Some(index) => if index < self.cells.len() {
                Some(self.cells[index as int])
            } else {
                None
            },
            None => None,
        }
    }

    /// What a read of `port` answers. A request that cannot be met answers zero.
    pub open spec fn read_value(self, port: u8) -> u8 {
        if port == 1 {
            self.random
        } else if port == 2 {
            match self.read_key {
                Some(key) => if key < 16 {
                    self.keys[key as int]
                } else {
                    0
                },
                None => 0,
            }
        } else if port == 3 {
            self.delay_timer
        } else if port == 4 {
            self.sound_timer
        } else if port == 5 {
            self.keypress
        } else if port == 7 {
            self.end_draw
        } else if port == 8 {
            match self.cell() {
                Some(cell) => cell.1,
                None => 0,
            }
        } else if port == 9 {
            match self.cell() {
                Some(cell) => (cell.0 % 256) as u8,
                None => 0,
            }
        } else if port == 10 {
            match self.cell() {
                Some(cell) => (cell.0 / 256 % 256) as u8,
                None => 0,
            }
        } else {
            0
        }
    }

    /// The device after a read of `port`: port 2 forgets which key was asked
    /// for, port 8 moves on to the next cell of the sprite.
    pub open spec fn after_read(self, port: u8) -> ChipState {
        if port == 1 || port == 3 || port == 4 || port == 5 || port == 7 {
            self
        } else if port == 2 {
            match self.read_key {
                Some(key) => if key < 16 {
                    ChipState { read_key: None, ..self }
                } else {
                    ChipState { read_key: None, ..self }.faulted(Fault::Key(key))
                },
                None => self,
            }
        } else if port == 8 {
            match self.cell() {
                Some(_) => if self.cells.len() <= self.next_cell->0 + 1 {
                    ChipState { next_cell: None, end_draw: 1, ..self }
                } else {
                    ChipState { next_cell: Some((self.next_cell->0 + 1) as usize), ..self }
                },
                None => self.faulted(Fault::Cell(port)),
            }
        } else if port == 9 || port == 10 {
            match self.cell() {
                Some(_) => self,
                None => self.faulted(Fault::Cell(port)),
            }
        } else {
            self.faulted(Fault::Read(port))
        }
    }

    /// The device after `data` has been written to `port` while the memory
    /// was `mem`.
    pub open spec fn after_write(self, port: u8, data: u8, mem: Seq<u8>) -> ChipState {
        if port == 1 {
            match self.unknown {
                Some(first) => ChipState { unknown: None, reported: Some((first, data)), ..self },
                None => ChipState { unknown: Some(data), ..self },
            }
        } else if port == 2 {
            ChipState { read_key: Some(data), ..self }
        } else if port == 3 {
            ChipState { delay_timer: data, ..self }
        } else if port == 4 {
            ChipState { sound_timer: data, ..self }
        } else if port == 5 {
            ChipState { draw_x: data, ..self }
        } else if port == 6 {
            ChipState { draw_y: data, ..self }
        } else if port == 7 {
            ChipState { draw_height: data, ..self }.drawn(mem)
        } else if port == 8 {
            ChipState { draw: data == 1, ..self }
        } else {
            self.faulted(Fault::Write(port))
        }
    }
}


/// The device behind the ports.
pub struct Chip {
    unknown: Option<u8>,
    reported: Option<(u8, u8)>,
    draw: bool,
    sound: bool,
    keys: [u8; 16],
    /// The key read requested by the cpu.
    read_key: Option<u8>,
    keypress: u8,
    delay_timer: u8,
    sound_timer: u8,
    draw_px: (u8, u8, u8),
    end_draw: u8,
    pixels: Vec<(usize, u8)>,
    px_idx: Option<usize>,
    last_update: Option<u64>,
    random: u8,
    fault: Option<Fault>,
}

impl View for Chip {
    type V = ChipState;

    closed spec fn view(&self) -> ChipState {
        ChipState {
            unknown: self.unknown,
            reported: self.reported,
            draw: self.draw,
            sound: self.sound,
            keys: self.keys@,
            read_key: self.read_key,
            keypress: self.keypress,
            delay_timer: self.delay_timer,
            sound_timer: self.sound_timer,
            draw_x: self.draw_px.0,
            draw_y: self.draw_px.1,
            draw_height: self.draw_px.2,
            end_draw: self.end_draw,
            cells: self.pixels@,
            next_cell: self.px_idx,
            last_update: self.last_update,
            random: self.random,
            fault: self.fault,
        }
    }
}

impl Chip {
    /// The device when it is switched on.
    pub fn new() -> (chip: Chip)
        ensures
            chip@ == ChipState::initial(),
    {
        let chip = Chip {
            unknown: None,
            reported: None,
            keys: [0x0;16],
            read_key: None,
            keypress: 0xff,
            draw: false,
            sound: false,
            delay_timer: 0,
            sound_timer: 0,
            draw_px: (0, 0, 0),
            end_draw: 0x01,
            pixels: Vec::new(),
            px_idx: None,
            last_update: None,
            random: 0,
            fault: None,
        };
        assert(chip.keys@ =~= Seq::new(16, |i: int| 0u8));
        chip
    }

    /// Looks at the clock: `now` is the time in microseconds. The timers tick
    /// when 4500 microseconds have gone by since they last did.
    pub fn step(&mut self, now: u64)
        ensures
            final(self)@ == old(self)@.stepped(now),
    {
        match self.last_update {
            Some(last) => {
                if now >= last && now - last >= TICK_MICROS {
                    if self.delay_timer > 0 {
                        self.delay_timer = self.delay_timer - 1;
                    }
                    if self.sound_timer > 0 {
                        self.sound_timer = self.sound_timer - 1;
                    }
                    self.sound = self.sound_timer != 0;
                    self.last_update = Some(now);
                }
            },
            None => {
                self.last_update = Some(now);
            },
        }
    }

    /// Presses or releases the key `key`.
    pub fn set_key(&mut self, key: u8, pressed: bool)
        requires
            key < 16,
        ensures
            final(self)@ == old(self)@.with_key(key, pressed),
    {
        if pressed {
            self.keypress = key;
        } else if key == self.keypress {
            self.keypress = 0xff
        }
        self.keys[key as usize] = if pressed {
            1
        } else {
            0
        };
    }

    /// Renews the byte that port 1 answers.
    pub fn set_random(&mut self, byte: u8)
        ensures
            final(self)@ == (ChipState { random: byte, ..old(self)@ }),
    {
        self.random = byte;
    }

    /// Hands out an opcode that the interpreter did not know, and forgets it.
    pub fn take_report(&mut self) -> (opcode: Option<(u8, u8)>)
        ensures
            opcode == old(self)@.reported,
            final(self)@ == (ChipState { reported: None, ..old(self)@ }),
    {
        let opcode = self.reported;
        self.reported = None;
        opcode
    }

    /// Whether the screen has changed.
    pub fn screen_changed(&self) -> (b: bool)
        ensures
            b == self@.draw,
    {
        self.draw
    }

    /// Whether the buzzer sounds.
    pub fn sounding(&self) -> (b: bool)
        ensures
            b == self@.sound,
    {
        self.sound
    }

    /// The first request that could not be met, if there was one.
    pub fn fault(&self) -> (fault: Option<Fault>)
        ensures
            fault == self@.fault,
    {
        self.fault
    }

    fn note(&mut self, fault: Fault)
        ensures
            final(self)@ == old(self)@.faulted(fault),
    {
        if self.fault.is_none() {
            self.fault = Some(fault);
        }
    }

    /// The cell that the interpreter is fetching.
    fn cell(&self) -> (cell: Option<(usize, u8)>)
        ensures
            cell == self@.cell(),
    {
        match self.px_idx {
            Some(idx) => if idx < self.pixels.len() {
                Some(self.pixels[idx])
            } else {
                None
            },
            None => None,
        }
    }

    /// Lists the cells that the sprite touches.
    fn draw(&mut self, memory: &[u8])
        requires
            memory@.len() == MEM_SIZE,
        ensures
            final(self)@ == old(self)@.drawn(memory@),
    {
        let x = self.draw_px.0 as usize % WIDTH;
        let y = self.draw_px.1 as usize % HEIGHT;
        let height = self.draw_px.2 as usize;
        let i = (memory[I] as usize) * 256 + memory[I + 1] as usize;
        self.pixels.clear();
        if i + height > memory.len() {
            self.px_idx = None;
            self.end_draw = 1;
            self.note(Fault::Sprite);
            return ;
        }
        let mut row: usize = 0;
        while row < height
            invariant
                row <= height,
                height < 256,
                x < 64,
                y < 32,
                memory@.len() == MEM_SIZE,
                i == sprite_address(memory@),
                i + height <= MEM_SIZE,
                self.pixels@ == sprite_cells(memory@, x as int, y as int, (8 * row) as nat),
                self@ == (ChipState { cells: self.pixels@, ..old(self)@ }),
            decreases height - row,
        {
            let pixel = memory[i + row];
            let mut bit_offset: usize = 0;
            while bit_offset < 8
                invariant
                    row < height,
                    height < 256,
                    bit_offset <= 8,
                    x < 64,
                    y < 32,
                    memory@.len() == MEM_SIZE,
                    i == sprite_address(memory@),
                    i + height <= MEM_SIZE,
                    pixel == memory@[i + row],
                    self.pixels@ == sprite_cells(
                        memory@,
                        x as int,
                        y as int,
                        (8 * row + bit_offset) as nat,
                    ),
                    self@ == (ChipState { cells: self.pixels@, ..old(self)@ }),
                decreases 8 - bit_offset,
            {
                let ghost n = (8 * row + bit_offset) as int;
                assert(n / 8 == row && n % 8 == bit_offset);
                if (x + bit_offset) < WIDTH && (y + row) < HEIGHT {
                    let pos = GFX + x + bit_offset + (y + row) * WIDTH;
                    if (pixel & (0x80u8 >> (bit_offset as u8))) != 0 {
                        let clip: u8 = if memory[pos] == 1 {
                            1
                        } else {
                            0
                        };
                        self.pixels.push((pos, clip));
                    }
                }
                assert(self.pixels@ == sprite_cells(memory@, x as int, y as int, (n + 1) as nat));
                bit_offset = bit_offset + 1;
            }
            row = row + 1;
        }
        if !self.pixels.is_empty() {
            self.px_idx = Some(0);
            self.end_draw = 0;
        } else {
            self.px_idx = None;
            self.end_draw = 1;
        }
    }
}

impl Bus for Chip {
    open spec fn may_read(&self, cpu: CpuState, port: u8, data: u8, after: &Self) -> bool {
        data == self@.read_value(port) && after@ == self@.after_read(port)
    }

    open spec fn may_write(&self, cpu: CpuState, port: u8, data: u8, after: &Self) -> bool {
        after@ == self@.after_write(port, data, cpu.mem)
    }

    fn read(&mut self, cpu: &CPU, port: u8) -> (data: u8) {
        match port {
            0x01 => self.random,
            0x02 => match self.read_key {
                Some(key) => {
                    self.read_key = None;
                    if key < 16 {
                        self.keys[key as usize]
                    } else {
                        self.note(Fault::Key(key));
                        0
                    }
                },
                None => 0x00,
            },
            0x03 => self.delay_timer,
            0x04 => self.sound_timer,
            0x05 => self.keypress,
            0x07 => self.end_draw,
            0x08 => match self.cell() {
                Some(cell) => {
                    let idx = self.px_idx.unwrap();
                    if self.pixels.len() <= idx + 1 {
                        self.px_idx = None;
                        self.end_draw = 1;
                    } else {
                        self.px_idx = Some(idx + 1);
                    }
                    cell.1
                },
                None => {
                    self.note(Fault::Cell(port));
                    0
                },
            },
            0x09 => match self.cell() {
                Some(cell) => (cell.0 % 256) as u8,
                None => {
                    self.note(Fault::Cell(port));
                    0
                },
            },
            0x0a => match self.cell() {
                Some(cell) => (cell.0 / 256 % 256) as u8,
                None => {
                    self.note(Fault::Cell(port));
                    0
                },
            },
            unknown => {
                self.note(Fault::Read(unknown));
                0
            },
        }
    }

    fn write(&mut self, cpu: &CPU, port: u8, data: u8) {
        match port {
            0x01 => {
                match self.unknown {
                    Some(first) => {
                        self.reported = Some((first, data));
                        self.unknown = None;
                    },
                    None => {
                        self.unknown = Some(data);
                    },
                }
            },
            0x02 => {
                self.read_key = Some(data);
            },
            0x03 => {
                self.delay_timer = data;
            },
            0x04 => {
                self.sound_timer = data;
            },
            0x05 => {
                self.draw_px.0 = data;
            },
            0x06 => {
                self.draw_px.1 = data;
            },
            0x07 => {
                self.draw_px.2 = data;
                self.draw(cpu.memory());
            },
            0x08 => {
                self.draw = data == 0x01;
            },
            unknown => {
                self.note(Fault::Write(unknown));
            },
        }
    }
}

/// The bytes at the bottom of memory: the offsets of the registers that come
/// in pairs.
pub open spec fn register_offsets() -> Seq<u8> {
    seq![2u8, 4u8, 6u8, 8u8, 10u8, 12u8, 14u8]
}

/// The memory in which the interpreter runs the CHIP-8 program `program`:
/// zeros, the font, the program, the interpreter, the register offsets, and
/// the index register pointing at the font.
pub open spec fn chip8_memory(program: Seq<u8>, interpreter: Seq<u8>) -> Seq<u8> {
    placed(
        placed(
            placed(
                placed(
                    placed(Seq::new(0x10000, |i: int| 0u8), FONT_AT as int, FONTSET@),
                    PROGRAM_AT as int,
                    program,
                ),
                INTERPRETER_AT as int,
                interpreter,
            ),
            0,
            register_offsets(),
        ),
        I + 1,
        seq![0x14u8],
    )
}

/// Creates the processor that runs the CHIP-8 program `chip8` under the
/// interpreter `interpreter`.
pub fn load_rom(chip8: &[u8], interpreter: &[u8]) -> (cpu: CPU)
    requires
        chip8@.len() <= PROGRAM_MAX,
        INTERPRETER_AT + interpreter@.len() <= MEM_SIZE,
    ensures
        cpu@ == CpuState::reset(chip8_memory(chip8@, interpreter@), START),
{
    let mut program = blank();
    let font = FONTSET;
    place(&mut program, FONT_AT, font.as_slice());
    place(&mut program, PROGRAM_AT, chip8);
    place(&mut program, INTERPRETER_AT, interpreter);
    let offsets: [u8; 7] = [2, 4, 6, 8, 10, 12, 14];
    assert(offsets@ =~= register_offsets());
    place(&mut program, 0, offsets.as_slice());
    let index: [u8; 1] = [0x14];
    assert(index@ =~= seq![0x14u8]);
    place(&mut program, I + 1, index.as_slice());
    CPU::new_from_start(program, START)
}

/// The window's pixels for the screen cells `display`: each cell becomes a
/// square of `SCALE` by `SCALE` pixels, white when the cell holds 1 and black
/// otherwise.
pub open spec fn scaled(display: Seq<u8>) -> Seq<u32> {
    Seq::new(
        (WIDTH * SCALE * HEIGHT * SCALE) as nat,
        |i: int|
            if display[(i / 640) / 10 * 64 + (i % 640) / 10] == 1 {
                0xFFFFFFFFu32
            } else {
                0u32
            },
    )
}

/// Scales the screen cells up to the pixels of the window.
pub fn scale_display(display: &[u8]) -> (buffer: Vec<u32>)
    requires
        display@.len() == WIDTH * HEIGHT,
    ensures
        buffer@ == scaled(display@),
{
    let mut buffer: Vec<u32> = Vec::new();
    let mut sy: usize = 0;
    while sy < 320
        invariant
            sy <= 320,
            display@.len() == 2048,
            buffer@.len() == sy * 640,
            forall|i: int| 0 <= i < buffer@.len() ==> buffer@[i] == scaled(display@)[i],
        decreases 320 - sy,
    {
        let mut sx: usize = 0;
        while sx < 640
            invariant
                sy < 320,
                sx <= 640,
                display@.len() == 2048,
                buffer@.len() == sy * 640 + sx,
                forall|i: int| 0 <= i < buffer@.len() ==> buffer@[i] == scaled(display@)[i],
            decreases 640 - sx,
        {
            let color: u32 = if display[sy / 10 * 64 + sx / 10] == 1 {
                0xFFFFFFFF
            } else {
                0x00000000
            };
            assert((sy * 640 + sx) / 640 == sy && (sy * 640 + sx) % 640 == sx);
            buffer.push(color);
            sx = sx + 1;
        }
        sy = sy + 1;
    }
    assert(buffer@ =~= scaled(display@));
    buffer
}

} // verus!
