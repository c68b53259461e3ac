//! The Space Invaders cabinet: its ports, its shift register, its sound
//! triggers, its screen and the pace of its frame interrupts.
//!
//! The cabinet never draws, plays or reads a key itself. It says which sounds
//! should start and what the screen shows; the host does the rest.

use vstd::prelude::*;
use crate::bus::Bus;
use crate::cpu::CPU;
use crate::image::{blank, place, placed};
use crate::state::CpuState;
use crate::{MEM_SIZE, RATE};

verus! {

/// Width of the upright screen in pixels.
pub const WIDTH: u32 = 224;

/// Height of the upright screen in pixels.
pub const HEIGHT: u32 = 256;

/// Frames per second.
pub const FPS: u32 = 60;

/// Address of the first byte of video memory.
pub const VIDEO_START: usize = 0x2400;

/// Number of bytes of video memory: 224 lines of 32 bytes.
pub const VIDEO_SIZE: usize = 0x1C00;

/// Number of bytes in a frame: four for each pixel.
pub const FRAME_SIZE: usize = 229376;

/// Size of each of the four program ROMs.
pub const ROM_SIZE: usize = 0x800;

/// What port 0 reads as.
pub const PORT0: u8 = 0b0111_1110;

/// T-states between two interrupts: half a frame.
pub const HALF_FRAME: u32 = 16666;

/// A control of the cabinet.
#[derive(Clone, Copy, PartialEq, Eq, Structural, Debug)]
pub enum Button {
    Credit,
    Start1,
    Start2,
    Shoot1,
    Left1,
    Right1,
    Shoot2,
    Left2,
    Right2,
    Tilt,
}

/// A port that nothing is wired to.
#[derive(Clone, Copy, PartialEq, Eq, Structural, Debug)]
pub enum Fault {
    /// The program read from this port.
    Read(u8),
    /// The program wrote to this port.
    Write(u8),
}

impl Button {
    /// Whether the control is wired to input port 1; the others are on port 2.
    pub open spec fn on_port1(self) -> bool {
        match self {
            Button::Credit
            | Button::Start1
            | Button::Start2
            | Button::Shoot1
            | Button::Left1
            | Button::Right1 => true,
            _ => false,
        }
    }

    /// The bit of its input port that the control drives.
    pub open spec fn mask(self) -> u8 {
        match self {
            Button::Credit => 0x01,
            Button::Start2 => 0x02,
            Button::Start1 | Button::Tilt => 0x04,
            Button::Shoot1 | Button::Shoot2 => 0x10,
            Button::Left1 | Button::Left2 => 0x20,
            Button::Right1 | Button::Right2 => 0x40,
        }
    }

    /// Tells whether the control is wired to input port 1.
    pub fn is_on_port1(self) -> (b: bool)
        ensures
            b == self.on_port1(),
    {
        match self {
            Button::Credit
            | Button::Start1
            | Button::Start2
            | Button::Shoot1
            | Button::Left1
            | Button::Right1 => true,
            _ => false,
        }
    }

    /// Gives the bit of its input port that the control drives.
    pub fn bit(self) -> (m: u8)
        ensures
            m == self.mask(),
    {
        match self {
            Button::Credit => 0x01,
            Button::Start2 => 0x02,
            Button::Start1 | Button::Tilt => 0x04,
            Button::Shoot1 | Button::Shoot2 => 0x10,
            Button::Left1 | Button::Left2 => 0x20,
            Button::Right1 | Button::Right2 => 0x40,
        }
    }
}

/// `port` with the bits of `mask` set if `down` and cleared if not.
pub open spec fn with_bits(port: u8, mask: u8, down: bool) -> u8 {
    if down {
        port | mask
    } else {
        port & !mask
    }
}

/// The bits of `mask` that are set in `now` and were clear in `before`.
pub open spec fn rising(before: u8, now: u8, mask: u8) -> u8 {
    now & !before & mask
}

/// The byte that the shift register shows: eight bits of `data`, starting
/// `offset` bits below the top.
pub open spec fn shifted(data: u16, offset: u8) -> u8 {
    ((data >> ((8 - offset) as u16)) & 0xFF) as u8
}

/// The shift register after `byte` has entered at the top and the old top
/// byte has moved to the bottom.
pub open spec fn shift_in(data: u16, byte: u8) -> u16 {
    (byte * 256 + data / 256) as u16
}

/// Setting a bit makes it read as set, clearing it makes it read as clear,
/// and the other bits stay.
pub proof fn lemma_with_bits(port: u8, mask: u8, down: bool)
    ensures
        with_bits(port, mask, down) & mask == if down {
            mask
        } else {
            0
        },
        with_bits(port, mask, down) & !mask == port & !mask,
{
    assert((port | mask) & mask == mask) by (bit_vector);
    assert((port & !mask) & mask == 0) by (bit_vector);
    assert((port | mask) & !mask == port & !mask) by (bit_vector);
    assert((port & !mask) & !mask == port & !mask) by (bit_vector);
}

/// Nothing rises when the port is written with what it holds, and what rises
/// is set in the new value, was clear in the old one and lies in the mask.
pub proof fn lemma_rising(before: u8, now: u8, mask: u8)
    ensures
        rising(before, before, mask) == 0,
        rising(before, now, mask) & before == 0,
        rising(before, now, mask) & now == rising(before, now, mask),
        rising(before, now, mask) & mask == rising(before, now, mask),
{
    assert(before & !before & mask == 0) by (bit_vector);
    assert((now & !before & mask) & before == 0) by (bit_vector);
    assert((now & !before & mask) & now == now & !before & mask) by (bit_vector);
    assert((now & !before & mask) & mask == now & !before & mask) by (bit_vector);
}

/// With offset 0 the shift register shows its top byte, and after two bytes
/// have entered it shows the later one.
pub proof fn lemma_shift_register(data: u16, first: u8, second: u8)
    ensures
        shifted(data, 0) == data / 256,
        shifted(shift_in(data, first), 0) == first,
        shift_in(shift_in(data, first), second) == second * 256 + first,
{
    let fed = shift_in(data, first);
    assert((data >> 8u16) & 0xFF == data / 256) by (bit_vector);
    assert((fed >> 8u16) & 0xFF == fed / 256) by (bit_vector);
}

/// What the cabinet holds.
pub struct CabinetState {
    /// Input port 1: coin, start buttons and the controls of player 1.
    pub input1: u8,
    /// Input port 2: switches, tilt and the controls of player 2.
    pub input2: u8,
    pub shift_data: u16,
    /// How far below its top the shift register is read: 0 to 7.
    pub shift_offset: u8,
    /// What was last written to sound port 3.
    pub port3: u8,
    /// What was last written to sound port 5.
    pub port5: u8,
    /// The sounds that should start and that the host has not taken yet:
    /// bit `n` for sound `n`, 0 to 8.
    pub sounds: u16,
    /// The first access to a port that nothing is wired to.
    pub fault: Option<Fault>,
}

impl CabinetState {
    /// The cabinet when it is switched on: bit 3 of port 1 and bit 0 of port 2
    /// are wired high.
    pub open spec fn initial() -> CabinetState {
        CabinetState {
            input1: 0b0000_1000,
            input2: 0b0000_0001,
            shift_data: 0,
            shift_offset: 0,
            port3: 0,
            port5: 0,
            sounds: 0,
            fault: None,
        }
    }

    /// The cabinet with a control pressed or released.
    pub open spec fn with_button(self, button: Button, down: bool) -> CabinetState {
        if button.on_port1() {
            CabinetState { input1: with_bits(self.input1, button.mask(), down), ..self }
        } else {
            CabinetState { input2: with_bits(self.input2, button.mask(), down), ..self }
        }
    }

    /// The cabinet with a fault noted, unless one is noted already.
    pub open spec fn faulted(self, fault: Fault) -> CabinetState {
        if self.fault is None {
            CabinetState { fault: Some(fault), ..self }
        } else {
            self
        }
    }

    /// What a read of `port` answers; ports that nothing is wired to read as zero.
    pub open spec fn read_value(self, port: u8) -> u8 {
        if port == 0 {
            PORT0
        } else if port == 1 {
            self.input1
        } else if port == 2 {
            self.input2
        } else if port == 3 {
            shifted(self.shift_data, self.shift_offset)
        } else {
            0
        }
    }

    /// The cabinet after a read of `port`.
    pub open spec fn after_read(self, port: u8) -> CabinetState {
        if port <= 3 {
            self
        } else {
            self.faulted(Fault::Read(port))
        }
    }

    /// The cabinet after `data` has been written to `port`: port 2 sets the
    /// shift offset, port 4 feeds the shift register, ports 3 and 5 start the
    /// sounds whose bits rise, port 6 is the watchdog.
    pub open spec fn after_write(self, port: u8, data: u8) -> CabinetState {
        if port == 2 {
            CabinetState { shift_offset: data & 7, ..self }
        } else if port == 4 {
            CabinetState { shift_data: shift_in(self.shift_data, data), ..self }
        } else if port == 3 {
            CabinetState {
                sounds: self.sounds | rising(self.port3, data, 0x0F) as u16,
                port3: data,
                ..self
            }
        } else if port == 5 {
            CabinetState {
                sounds: self.sounds | ((rising(self.port5, data, 0x1F) as u16) << 4u16),
                port5: data,
                ..self
            }
        } else if port == 6 {
            self
        } else {
            self.faulted(Fault::Write(port))
        }
    }
}

/// The ports of the cabinet.
pub struct Invaders {
    input1: u8,
    input2: u8,
    shift_data: u16,
    shift_offset: u8,
    port3: u8,
    port5: u8,
    sounds: u16,
    fault: Option<Fault>,
}

impl View for Invaders {
    type V = CabinetState;

    closed spec fn view(&self) -> CabinetState {
        CabinetState {
            input1: self.input1,
            input2: self.input2,
            shift_data: self.shift_data,
            shift_offset: self.shift_offset,
            port3: self.port3,
            port5: self.port5,
            sounds: self.sounds,
            fault: self.fault,
        }
    }
}

proof fn lemma_offset_in_range(data: u8)
    by (bit_vector)
    ensures
        data & 7 < 8,
{
}

proof fn lemma_shift_in(data: u16, byte: u8)
    by (bit_vector)
    ensures
        data >> 8u16 | (byte as u16) << 8u16 == byte as u16 * 256 + data / 256,
{
}

impl Invaders {
    #[verifier::type_invariant]
    spec fn inv(self) -> bool {
        self.shift_offset < 8
    }

    /// The cabinet when it is switched on.
    pub fn new() -> (cabinet: Invaders)
        ensures
            cabinet@ == CabinetState::initial(),
    {
        Invaders {
            shift_data: 0,
            input1: 0b0000_1000,
            input2: 0b0000_0001,
            shift_offset: 0,
            port3: 0,
            port5: 0,
            sounds: 0,
            fault: None,
        }
    }

    /// Presses or releases a control.
    pub fn set_button(&mut self, button: Button, down: bool)
        ensures
            final(self)@ == old(self)@.with_button(button, down),
    {
        proof {
            use_type_invariant(&*self);
        }
        let mask = button.bit();
        if button.is_on_port1() {
            if down {
                self.input1 = self.input1 | mask;
            } else {
                self.input1 = self.input1 & !mask;
            }
        } else {
            if down {
                self.input2 = self.input2 | mask;
            } else {
                self.input2 = self.input2 & !mask;
            }
        }
    }

    /// Hands out the sounds that should start, bit `n` for sound `n`, and
    /// forgets them.
    pub fn take_sounds(&mut self) -> (sounds: u16)
        ensures
            sounds == old(self)@.sounds,
            final(self)@ == (CabinetState { sounds: 0, ..old(self)@ }),
    {
        proof {
            use_type_invariant(&*self);
        }
        let sounds = self.sounds;
        self.sounds = 0;
        sounds
    }

    /// The first access to a port that nothing is wired to, if there was one.
    pub fn fault(&self) -> (fault: Option<Fault>)
        ensures
            fault == self@.fault,
    {
        self.fault
    }

    fn note(&mut self, fault: Fault)
        ensures
            final(self)@ == old(self)@.faulted(fault),
    {
        proof {
            use_type_invariant(&*self);
        }
        if self.fault.is_none() {
            self.fault = Some(fault);
        }
    }
}

impl Bus for Invaders {
    open spec fn may_read(&self, cpu: CpuState, port: u8, data: u8, after: &Self) -> bool {
        data == self@.read_value(port) && after@ == self@.after_read(port)
    }

    open spec fn may_write(&self, cpu: CpuState, port: u8, data: u8, after: &Self) -> bool {
        after@ == self@.after_write(port, data)
    }

    fn read(&mut self, cpu: &CPU, port: u8) -> (data: u8) {
        proof {
            use_type_invariant(&*self);
        }
        match port {
            0 => PORT0,
            1 => self.input1,
            2 => self.input2,
            3 => {
                let offset: u16 = (8 - self.shift_offset) as u16;
                ((self.shift_data >> offset) & 0xFF) as u8
            },
            unknown => {
                self.note(Fault::Read(unknown));
                0
            },
        }
    }

    fn write(&mut self, cpu: &CPU, port: u8, data: u8) {
        proof {
            use_type_invariant(&*self);
        }
        match port {
            2 => {
                proof {
                    lemma_offset_in_range(data);
                }
                self.shift_offset = data & 7;
            },
            4 => {
                proof {
                    lemma_shift_in(self.shift_data, data);
                }
                self.shift_data = self.shift_data >> 8u16 | (data as u16) << 8u16;
            },
            3 => {
                self.sounds = self.sounds | (data & !self.port3 & 0x0F) as u16;
                self.port3 = data;
            },
            5 => {
                self.sounds = self.sounds | (((data & !self.port5 & 0x1F) as u16) << 4u16);
                self.port5 = data;
            },
            6 => {},
            unknown => {
                self.note(Fault::Write(unknown));
            },
        }
    }
}


/// The red, green, blue and alpha bytes of the pixel at column `x` of video
/// line `y`. A pixel that is off is black. One that is on is green in the
/// band of the player and the shields, red in the band of the saucer, and
/// white elsewhere; at the foot of the screen only the middle is green.
pub open spec fn tint(lit: bool, x: int, y: int) -> Seq<u8> {
    if !lit {
        seq![0u8, 0u8, 0u8, 0xFFu8]
    } else if x < 16 {
        if y < 16 || y > 134 {
            seq![0x80u8, 0x80u8, 0x80u8, 0xFFu8]
        } else {
            seq![0u8, 0x80u8, 0u8, 0xFFu8]
        }
    } else if x <= 72 {
        seq![0u8, 0x80u8, 0u8, 0xFFu8]
    } else if 192 <= x < 224 {
        seq![0x80u8, 0u8, 0u8, 0xFFu8]
    } else {
        seq![0x80u8, 0x80u8, 0x80u8, 0xFFu8]
    }
}

/// Whether the pixel at column `x` of video line `y` is on: video memory
/// holds 32 bytes for each of the 224 lines, the lowest bit first.
pub open spec fn lit(video: Seq<u8>, x: int, y: int) -> bool {
    (video[y * 32 + x / 8] >> ((x % 8) as u8)) & 1 == 1
}

/// The frame that the upright screen shows, four bytes for each pixel, row by
/// row from the top. The tube is mounted on its side: video line `y` is the
/// screen column `y`, and column `x` of that line is the screen row `255 - x`.
pub open spec fn frame(video: Seq<u8>) -> Seq<u8> {
    Seq::new(
        FRAME_SIZE as nat,
        |i: int|
            {
                let x = 255 - (i / 4) / 224;
                let y = (i / 4) % 224;
                tint(lit(video, x, y), x, y)[i % 4]
            },
    )
}

/// Picks the colour of a pixel.
pub fn colour(lit: bool, x: usize, y: usize) -> (rgba: [u8; 4])
    ensures
        rgba@ == tint(lit, x as int, y as int),
{
    let white: [u8; 4] = [0x80, 0x80, 0x80, 0xFF];
    let green: [u8; 4] = [0, 0x80, 0, 0xFF];
    let red: [u8; 4] = [0x80, 0, 0, 0xFF];
    let black: [u8; 4] = [0, 0, 0, 0xFF];
    let rgba = if !lit {
        black
    } else if x < 16 {
        if y < 16 || y > 118 + 16 {
            white
        } else {
            green
        }
    } else if x <= 16 + 56 {
        green
    } else if x >= 16 + 56 + 120 && x < 16 + 56 + 120 + 32 {
        red
    } else {
        white
    };
    assert(rgba@ =~= tint(lit, x as int, y as int));
    rgba
}

/// Draws the frame that the video memory `memory` holds.
pub fn map_display(memory: &[u8]) -> (pixels: Vec<u8>)
    requires
        memory@.len() == VIDEO_SIZE,
    ensures
        pixels@ == frame(memory@),
{
    let mut pixels: Vec<u8> = Vec::new();
    let mut row: usize = 0;
    while row < 256
        invariant
            row <= 256,
            memory@.len() == VIDEO_SIZE,
            pixels@.len() == 4 * (row * 224),
            forall|i: int| 0 <= i < pixels@.len() ==> pixels@[i] == frame(memory@)[i],
        decreases 256 - row,
    {
        let mut column: usize = 0;
        while column < 224
            invariant
                row < 256,
                column <= 224,
                memory@.len() == VIDEO_SIZE,
                pixels@.len() == 4 * (row * 224 + column),
                forall|i: int| 0 <= i < pixels@.len() ==> pixels@[i] == frame(memory@)[i],
            decreases 224 - column,
        {
            let x = 255 - row;
            let y = column;
            let packed = memory[y * 32 + x / 8];
            let on = (packed >> ((x % 8) as u8)) & 1 == 1;
            let rgba = colour(on, x, y);
            let ghost start = pixels@.len() as int;
            assert(start == 4 * (row * 224 + column));
            assert forall|i: int| start <= i < start + 4 implies frame(memory@)[i] == rgba@[i
                - start] by {
                assert(i / 4 == row * 224 + column);
                assert((i / 4) / 224 == row);
                assert((i / 4) % 224 == column);
                assert(i % 4 == i - start);
            }
            pixels.push(rgba[0]);
            pixels.push(rgba[1]);
            pixels.push(rgba[2]);
            pixels.push(rgba[3]);
            column = column + 1;
        }
        row = row + 1;
    }
    assert(pixels@ =~= frame(memory@));
    pixels
}

/// The restart that the other half of the frame raises.
pub open spec fn other_half(rst: u8) -> u8 {
    if rst == 0xCF {
        0xD7
    } else {
        0xCF
    }
}

/// Counts T-states and says when the screen raises an interrupt: `RST 1` in
/// the middle of every frame and `RST 2` at its end.
pub struct Pacer {
    count: u32,
    interrupt: u8,
}

impl Pacer {
    #[verifier::type_invariant]
    spec fn inv(self) -> bool {
        self.count < HALF_FRAME && (self.interrupt == 0xCF || self.interrupt == 0xD7)
    }

    /// T-states counted since the last interrupt.
    pub closed spec fn count(&self) -> u32 {
        self.count
    }

    /// The restart that the next interrupt supplies.
    pub closed spec fn interrupt(&self) -> u8 {
        self.interrupt
    }

    /// A pacer at the start of a frame.
    pub fn new() -> (pacer: Pacer)
        ensures
            pacer.count() == 0,
            pacer.interrupt() == 0xCF,
    {
        Pacer { count: 0, interrupt: 0xcf }
    }

    /// Counts the T-states that an instruction has taken. When half a frame
    /// has gone by, returns the restart to offer to the processor.
    pub fn advance(&mut self, spent: u8) -> (due: Option<u8>)
        ensures
            ({
                let total = old(self).count() + spent;
                if total < HALF_FRAME {
                    &&& due is None
                    &&& final(self).count() == total
                    &&& final(self).interrupt() == old(self).interrupt()
                } else {
                    &&& due == Some(old(self).interrupt())
                    &&& final(self).count() == total - HALF_FRAME
                    &&& final(self).interrupt() == other_half(old(self).interrupt())
                }
            }),
            final(self).count() < HALF_FRAME,
            final(self).interrupt() == 0xCF || final(self).interrupt() == 0xD7,
    {
        proof {
            use_type_invariant(&*self);
        }
        let total = self.count + spent as u32;
        if total >= HALF_FRAME {
            let rst = self.interrupt;
            let next: u8 = if rst == 0xcf {
                0xd7
            } else {
                0xcf
            };
            *self = Pacer { count: total - HALF_FRAME, interrupt: next };
            Some(rst)
        } else {
            *self = Pacer { count: total, interrupt: self.interrupt };
            None
        }
    }
}

/// Tells whether the restart `rst` ends a frame, so that the screen is due.
pub fn ends_frame(rst: u8) -> (b: bool)
    ensures
        b == (rst != 0xCF),
{
    rst != 0xcf
}

/// One step faster, at most 10.
pub fn faster(speed: u32) -> (next: u32)
    ensures
        next == if speed + 1 <= 10 {
            speed + 1
        } else {
            10
        },
{
    if speed >= 10 {
        10
    } else {
        speed + 1
    }
}

/// One step slower, at least 3.
pub fn slower(speed: u32) -> (next: u32)
    ensures
        next == if speed - 1 >= 3 {
            speed - 1
        } else {
            3
        },
{
    if speed <= 4 {
        3
    } else {
        speed - 1
    }
}

/// T-states to run between two looks at the keyboard: `speed` milliseconds of
/// processor time.
pub fn turn_budget(speed: u32) -> (cycles: u32)
    requires
        speed * (RATE / 1000) <= u32::MAX,
    ensures
        cycles == speed * 2000,
{
    speed * (RATE / 1000)
}

/// The memory with the four program ROMs in place: `h` at `0x0000`, `g` at
/// `0x0800`, `f` at `0x1000` and `e` at `0x1800`.
pub open spec fn rom_memory(h: Seq<u8>, g: Seq<u8>, f: Seq<u8>, e: Seq<u8>) -> Seq<u8> {
    placed(
        placed(placed(placed(Seq::new(0x10000, |i: int| 0u8), 0, h), 0x800, g), 0x1000, f),
        0x1800,
        e,
    )
}

/// Creates the processor of the cabinet with its four program ROMs.
pub fn load_rom(h: &[u8], g: &[u8], f: &[u8], e: &[u8]) -> (cpu: CPU)
    requires
        h@.len() == ROM_SIZE,
        g@.len() == ROM_SIZE,
        f@.len() == ROM_SIZE,
        e@.len() == ROM_SIZE,
    ensures
        cpu@ == CpuState::reset(rom_memory(h@, g@, f@, e@), 0),
{
    let mut program = blank();
    place(&mut program, 0, h);
    place(&mut program, 0x0800, g);
    place(&mut program, 0x1000, f);
    place(&mut program, 0x1800, e);
    CPU::new_from_start(program, 0)
}

} // verus!
