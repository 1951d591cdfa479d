//! The device driver: what the trackball remembers and how each operation
//! turns into bus transactions.

use crate::protocol::{
    led_write, BusRequest, CHIP_ID, CHIP_ID_LEN, I2C_ADDR_PRIMARY, INPUT_BLOCK_LEN,
    MSK_CLICKED, MSK_CLICK_STATE_UPDATE, REG_CHIP_ID_L, REG_LED_BLU, REG_LED_GRN, REG_LED_RED,
    REG_LED_WHT, REG_LEFT,
};
use vstd::prelude::*;

verus! {

/// One sample of the ball: how far it rolled since the last sample and what
/// the switch is doing.
#[derive(Debug, Copy, Clone, PartialEq, Eq)]
pub struct Input {
    /// Steps to the right, negative to the left.
    pub x: i16,
    /// Steps down, negative up.
    pub y: i16,
    /// [`MSK_CLICKED`] while the ball is pressed, `0` otherwise.
    pub clicked: u8,
    /// [`MSK_CLICK_STATE_UPDATE`] when the press state has changed, `0`
    /// otherwise.
    pub click_state_update: u8,
    /// Whether the sample reports anything at all: motion on any axis or a
    /// change of the press state.
    pub state_update: bool,
}

/// What the driver can be asked to do.
#[derive(Debug, Copy, Clone, PartialEq, Eq)]
pub enum Command {
    /// Darken the LEDs; the colour is remembered.
    TurnOff,
    /// Select the device and ask it to identify itself.
    TurnOn,
    /// Show the colour given as red, green, blue and white.
    SetColour(u8, u8, u8, u8),
    /// Change the brightness of the colour on show.
    SetContrast(u8),
}

/// The order of the bytes of a number.
#[derive(Debug, Clone, Copy, PartialEq, Eq)]
pub enum Endianness {
    /// The byte that counts most comes first.
    Big,
    /// The byte that counts least comes first.
    Little,
}

/// What the driver remembers between operations.
///
/// The colour is the one last asked for, before the contrast is applied; the
/// levels that reach the LEDs are derived from it on every write.
#[derive(Debug, Clone, Copy, PartialEq, Eq)]
pub struct DeviceState {
    /// The order in which the two bytes of the chip identifier are read.
    pub endianness: Endianness,
    /// Brightness applied to every channel, `0` for dark and `255` for full.
    pub contrast: u8,
    pub red: u8,
    pub green: u8,
    pub blue: u8,
    pub white: u8,
}

/// The driver of one trackball.
pub struct Trackball {
    state: DeviceState,
}

/// The sample that the five motion registers stand for.
pub open spec fn input_of(left: u8, right: u8, up: u8, down: u8, switch: u8) -> Input {
    Input {
        x: (right - left) as i16,
        y: (down - up) as i16,
        clicked: switch & MSK_CLICKED,
        click_state_update: switch & MSK_CLICK_STATE_UPDATE,
        state_update: left > 0 || right > 0 || up > 0 || down > 0 || (switch
            & MSK_CLICK_STATE_UPDATE) > 0,
    }
}

/// The chip identifier that two bytes stand for, `first` being the byte at
/// the lower register.
pub open spec fn chip_id_of(endianness: Endianness, first: u8, second: u8) -> u16 {
    match endianness {
        Endianness::Big => (first * 256 + second) as u16,
        Endianness::Little => (second * 256 + first) as u16,
    }
}

/// The identifier to warn of after a transaction: the one that the device
/// reported, if the transaction was the read of the chip identifier, both
/// bytes came back, and they are not those of a PIM447.
pub open spec fn chip_id_warning_of(
    s: DeviceState,
    request: BusRequest,
    answer: Seq<u8>,
) -> Option<u16> {
    if request == (BusRequest::BlockRead { register: REG_CHIP_ID_L, length: CHIP_ID_LEN })
        && answer.len() == CHIP_ID_LEN && chip_id_of(s.endianness, answer[0], answer[1])
        != CHIP_ID {
        Some(chip_id_of(s.endianness, answer[0], answer[1]))
    } else {
        None
    }
}

/// A channel at brightness `contrast`: the share `contrast / 255` of
/// `level`, rounded down.
pub open spec fn scaled(level: u8, contrast: u8) -> u8 {
    ((level * contrast) / 255) as u8
}

/// The brightness that is applied to a state's colour: its contrast, but
/// none at all for black.
pub open spec fn effective_contrast(s: DeviceState) -> u8 {
    if s.red == 0 && s.green == 0 && s.blue == 0 && s.white == 0 {
        0
    } else {
        s.contrast
    }
}

/// The levels that the four LEDs are driven with, as red, green, blue and
/// white.
pub open spec fn physical_colour(s: DeviceState) -> (u8, u8, u8, u8) {
    let c = effective_contrast(s);
    (scaled(s.red, c), scaled(s.green, c), scaled(s.blue, c), scaled(s.white, c))
}

/// Whether no LED is lit.
pub open spec fn is_dark(s: DeviceState) -> bool {
    physical_colour(s) == (0u8, 0u8, 0u8, 0u8)
}

/// The four writes that put a state's colour on show, in the order in
/// which they go out.
pub open spec fn colour_writes(s: DeviceState) -> Seq<BusRequest> {
    let levels = physical_colour(s);
    seq![
        led_write(REG_LED_RED, levels.0),
        led_write(REG_LED_GRN, levels.1),
        led_write(REG_LED_BLU, levels.2),
        led_write(REG_LED_WHT, levels.3),
    ]
}

/// The transactions that wake the device: select it, then read its
/// identifier.
pub open spec fn wake_requests() -> Seq<BusRequest> {
    seq![
        BusRequest::SelectAddress(I2C_ADDR_PRIMARY),
        BusRequest::BlockRead { register: REG_CHIP_ID_L, length: CHIP_ID_LEN },
    ]
}

/// What the driver remembers once `command` has been executed.
pub open spec fn state_after(s: DeviceState, command: Command) -> DeviceState {
    match command {
        Command::TurnOff => DeviceState { contrast: 0, ..s },
        Command::TurnOn => s,
        Command::SetColour(r, g, b, w) => DeviceState { red: r, green: g, blue: b, white: w, ..s },
        Command::SetContrast(c) => DeviceState { contrast: c, ..s },
    }
}

/// The transactions that `command` asks of the bus, in order.
pub open spec fn requests_of(s: DeviceState, command: Command) -> Seq<BusRequest> {
    match command {
        Command::TurnOn => wake_requests(),
        _ => colour_writes(state_after(s, command)),
    }
}

/// At contrast `0` every LED is dark, whatever the colour.
pub proof fn lemma_zero_contrast_is_dark(s: DeviceState)
    requires
        s.contrast == 0,
    ensures
        is_dark(s),
{
}

/// Black is dark at every contrast.
pub proof fn lemma_black_is_dark(s: DeviceState)
    requires
        s.red == 0,
        s.green == 0,
        s.blue == 0,
        s.white == 0,
    ensures
        is_dark(s),
{
}

/// A colour with a channel that is lit is shown at the contrast itself:
/// each LED gets `level * contrast / 255`, rounded down.
pub proof fn lemma_lit_colour_is_scaled(s: DeviceState)
    requires
        s.red > 0 || s.green > 0 || s.blue > 0 || s.white > 0,
    ensures
        physical_colour(s) == (
            scaled(s.red, s.contrast),
            scaled(s.green, s.contrast),
            scaled(s.blue, s.contrast),
            scaled(s.white, s.contrast),
        ),
        scaled(s.red, s.contrast) == (s.red as int * s.contrast as int) / 255,
        scaled(s.green, s.contrast) == (s.green as int * s.contrast as int) / 255,
        scaled(s.blue, s.contrast) == (s.blue as int * s.contrast as int) / 255,
        scaled(s.white, s.contrast) == (s.white as int * s.contrast as int) / 255,
{
    lemma_scaled_bounds(s.red, s.contrast);
    lemma_scaled_bounds(s.green, s.contrast);
    lemma_scaled_bounds(s.blue, s.contrast);
    lemma_scaled_bounds(s.white, s.contrast);
}

/// Scaling never brightens: the result exceeds neither the level nor the
/// contrast. Full contrast keeps the level, and no contrast leaves nothing.
pub proof fn lemma_scaled_bounds(level: u8, contrast: u8)
    ensures
        scaled(level, contrast) == (level as int * contrast as int) / 255,
        scaled(level, contrast) <= level,
        scaled(level, contrast) <= contrast,
        scaled(level, 255) == level,
        scaled(level, 0) == 0,
{
    let l: int = level as int;
    let c: int = contrast as int;
    assert(0 <= l * c <= 255 * l && l * c <= 255 * c) by (nonlinear_arith)
        requires
            0 <= l <= 255,
            0 <= c <= 255,
    ;
    assert(l * 255 == 255 * l && l * 0 == 0) by (nonlinear_arith);
}

/// The two bits of the switch register in plain numbers: the press bit is
/// the top bit of the byte, the change bit its parity.
pub proof fn lemma_switch_bits(switch: u8)
    ensures
        switch & MSK_CLICKED == (if switch >= 128 {
            128u8
        } else {
            0u8
        }),
        switch & MSK_CLICK_STATE_UPDATE == switch % 2,
{
    assert(switch & 0x80 == (if switch >= 128 {
        128u8
    } else {
        0u8
    })) by (bit_vector);
    assert(switch & 0x01 == switch % 2) by (bit_vector);
}

/// A sample is worth reporting exactly when the ball has moved on some axis
/// or the switch register is odd. Its motion is the difference of the two
/// counts of each axis, which is never lost to the width of the result.
pub proof fn lemma_state_update(left: u8, right: u8, up: u8, down: u8, switch: u8)
    ensures
        input_of(left, right, up, down, switch).state_update <==> (left != 0 || right != 0 || up
            != 0 || down != 0 || switch % 2 == 1),
        input_of(left, right, up, down, switch).x == right - left,
        input_of(left, right, up, down, switch).y == down - up,
        -255 <= input_of(left, right, up, down, switch).x <= 255,
        -255 <= input_of(left, right, up, down, switch).y <= 255,
{
    lemma_switch_bits(switch);
}

impl View for Trackball {
    type V = DeviceState;

    closed spec fn view(&self) -> DeviceState {
        self.state
    }
}

impl Trackball {
    /// A driver for a device that has not been lit yet: contrast and colour
    /// are all zero. `endianness` is the byte order of the host, in which
    /// the chip identifier is read; it stays as it is for good.
    pub fn new(endianness: Endianness) -> (driver: Self)
        ensures
            driver@ == (DeviceState {
                endianness,
                contrast: 0,
                red: 0,
                green: 0,
                blue: 0,
                white: 0,
            }),
    {
        Trackball {
            state: DeviceState { endianness, contrast: 0, red: 0, green: 0, blue: 0, white: 0 },
        }
    }

    /// What the driver remembers.
    pub fn state(&self) -> (s: DeviceState)
        ensures
            s == self@,
    {
        self.state
    }

    /// The levels that the LEDs are driven with, as red, green, blue and
    /// white.
    pub fn physical_colour(&self) -> (levels: (u8, u8, u8, u8))
        ensures
            levels == physical_colour(self@),
    {
        let s: DeviceState = self.state;
        let contrast: u8 = if s.red > 0 || s.green > 0 || s.blue > 0 || s.white > 0 {
            s.contrast
        } else {
            0
        };
        (
            scale(s.red, contrast),
            scale(s.green, contrast),
            scale(s.blue, contrast),
            scale(s.white, contrast),
        )
    }

    /// Whether no LED is lit.
    pub fn is_dark(&self) -> (dark: bool)
        ensures
            dark == is_dark(self@),
    {
        let levels: (u8, u8, u8, u8) = self.physical_colour();
        levels.0 == 0 && levels.1 == 0 && levels.2 == 0 && levels.3 == 0
    }

    fn write_colour(&self) -> (plan: Vec<BusRequest>)
        ensures
            plan@ == colour_writes(self@),
    {
        let levels: (u8, u8, u8, u8) = self.physical_colour();
        let plan: Vec<BusRequest> = vec![
            BusRequest::BlockWrite { register: REG_LED_RED, value: levels.0 },
            BusRequest::BlockWrite { register: REG_LED_GRN, value: levels.1 },
            BusRequest::BlockWrite { register: REG_LED_BLU, value: levels.2 },
            BusRequest::BlockWrite { register: REG_LED_WHT, value: levels.3 },
        ];
        assert(plan@ =~= colour_writes(self@));
        plan
    }

    /// Wakes the device. Nothing the driver remembers changes; the plan
    /// selects the device and reads its identifier, which
    /// [`Trackball::chip_id_warning`] then judges.
    pub fn turn_on(&self) -> (plan: Vec<BusRequest>)
        ensures
            plan@ == wake_requests(),
    {
        let plan: Vec<BusRequest> = vec![
            BusRequest::SelectAddress(I2C_ADDR_PRIMARY),
            BusRequest::BlockRead { register: REG_CHIP_ID_L, length: CHIP_ID_LEN },
        ];
        assert(plan@ =~= wake_requests());
        plan
    }

    /// The identifier that the device reported, if it is not the one of a
    /// PIM447. `bytes` are the two bytes read at [`REG_CHIP_ID_L`]. A
    /// device with another identifier is still driven: the caller reports
    /// it and goes on.
    pub fn unexpected_chip_id(&self, bytes: [u8; 2]) -> (found: Option<u16>)
        ensures
            found == (if chip_id_of(self@.endianness, bytes[0], bytes[1]) == CHIP_ID {
                None
            } else {
                Some(chip_id_of(self@.endianness, bytes[0], bytes[1]))
            }),
    {
        let first: u16 = bytes[0] as u16;
        let second: u16 = bytes[1] as u16;
        let id: u16 = match self.state.endianness {
            Endianness::Big => first * 256 + second,
            Endianness::Little => second * 256 + first,
        };
        if id == CHIP_ID {
            None
        } else {
            Some(id)
        }
    }

    /// Judges what came back from a transaction: the identifier to warn
    /// of, if `request` was the read of the chip identifier and `answer`
    /// holds another identifier than that of a PIM447. Answers to other
    /// transactions give no cause for a warning.
    pub fn chip_id_warning(&self, request: BusRequest, answer: &[u8]) -> (found: Option<u16>)
        ensures
            found == chip_id_warning_of(self@, request, answer@),
    {
        match request {
            BusRequest::BlockRead { register, length } => {
                if register == REG_CHIP_ID_L && length == CHIP_ID_LEN && answer.len() == 2 {
                    self.unexpected_chip_id([answer[0], answer[1]])
                } else {
                    None
                }
            },
            _ => None,
        }
    }

    /// Darkens the LEDs: the contrast drops to `0`, the colour is kept.
    pub fn turn_off(&mut self) -> (plan: Vec<BusRequest>)
        ensures
            final(self)@ == (DeviceState { contrast: 0, ..old(self)@ }),
            plan@ == colour_writes(final(self)@),
            is_dark(final(self)@),
    {
        self.set_contrast(0)
    }

    /// Changes the brightness and puts the remembered colour on show with
    /// it.
    pub fn set_contrast(&mut self, contrast: u8) -> (plan: Vec<BusRequest>)
        ensures
            final(self)@ == (DeviceState { contrast, ..old(self)@ }),
            plan@ == colour_writes(final(self)@),
            contrast == 0 ==> is_dark(final(self)@),
    {
        self.state.contrast = contrast;
        proof {
            if contrast == 0 {
                lemma_zero_contrast_is_dark(self@);
            }
        }
        self.write_colour()
    }

    /// Remembers a colour and puts it on show at the current contrast.
    ///
    /// The plan holds four writes, one per LED register, red first. Each
    /// may fail on the bus by itself, and the first failure ends the plan:
    /// the LEDs written before it keep their new level.
    pub fn set_colour(&mut self, r: u8, g: u8, b: u8, w: u8) -> (plan: Vec<BusRequest>)
        ensures
            final(self)@ == (DeviceState { red: r, green: g, blue: b, white: w, ..old(self)@ }),
            plan@ == colour_writes(final(self)@),
            r > 0 || g > 0 || b > 0 || w > 0 ==> plan@ == seq![
                led_write(REG_LED_RED, scaled(r, old(self)@.contrast)),
                led_write(REG_LED_GRN, scaled(g, old(self)@.contrast)),
                led_write(REG_LED_BLU, scaled(b, old(self)@.contrast)),
                led_write(REG_LED_WHT, scaled(w, old(self)@.contrast)),
            ],
            old(self)@.contrast == 0 ==> is_dark(final(self)@),
    {
        self.state.red = r;
        self.state.green = g;
        self.state.blue = b;
        self.state.white = w;
        proof {
            if self@.contrast == 0 {
                lemma_zero_contrast_is_dark(self@);
            }
        }
        self.write_colour()
    }

    /// Executes one command: updates what the driver remembers and plans the
    /// bus transactions that carry it out.
    ///
    /// The caller performs the plan in order and stops at the first
    /// transaction that fails. What the driver remembers does not depend
    /// on how the plan fares.
    pub fn execute_command(&mut self, command: Command) -> (plan: Vec<BusRequest>)
        ensures
            final(self)@ == state_after(old(self)@, command),
            plan@ == requests_of(old(self)@, command),
            command is TurnOff ==> is_dark(final(self)@),
    {
        match command {
            Command::TurnOff => self.turn_off(),
            Command::TurnOn => self.turn_on(),
            Command::SetColour(r, g, b, w) => self.set_colour(r, g, b, w),
            Command::SetContrast(c) => self.set_contrast(c),
        }
    }

    /// What [`Trackball::execute_command`] does to the driver's memory, and
    /// nothing else. It never gives up half way, so whoever holds the
    /// driver can keep its own books in step with it.
    pub(crate) fn remember(&mut self, command: Command)
        ensures
            final(self)@ == state_after(old(self)@, command),
        no_unwind
    {
        match command {
            Command::TurnOff => {
                self.state.contrast = 0;
            },
            Command::TurnOn => {},
            Command::SetColour(r, g, b, w) => {
                self.state.red = r;
                self.state.green = g;
                self.state.blue = b;
                self.state.white = w;
            },
            Command::SetContrast(c) => {
                self.state.contrast = c;
            },
        }
    }

    /// The transactions that carry out a command of which the driver has
    /// taken note.
    pub(crate) fn requests(&self, command: Command) -> (plan: Vec<BusRequest>)
        ensures
            plan@ == (match command {
                Command::TurnOn => wake_requests(),
                _ => colour_writes(self@),
            }),
    {
        match command {
            Command::TurnOn => self.turn_on(),
            _ => self.write_colour(),
        }
    }

    /// The single read that fetches one motion sample: five bytes from
    /// [`REG_LEFT`] on.
    pub fn input_request() -> (request: BusRequest)
        ensures
            request == (BusRequest::BlockRead { register: REG_LEFT, length: INPUT_BLOCK_LEN }),
    {
        BusRequest::BlockRead { register: REG_LEFT, length: INPUT_BLOCK_LEN }
    }

    /// Decodes one motion sample from the five bytes read at [`REG_LEFT`]:
    /// left, right, up, down and switch.
    ///
    /// Every sample is decoded, also one that reports nothing; whether to
    /// pass it on is the caller's decision.
    pub fn read_input(&self, raw: [u8; 5]) -> (input: Input)
        ensures
            input == input_of(raw[0], raw[1], raw[2], raw[3], raw[4]),
    {
        let left: u8 = raw[0];
        let right: u8 = raw[1];
        let up: u8 = raw[2];
        let down: u8 = raw[3];
        let switch: u8 = raw[4];
        let click_state_update: u8 = switch & MSK_CLICK_STATE_UPDATE;
        Input {
            x: right as i16 - left as i16,
            y: down as i16 - up as i16,
            clicked: switch & MSK_CLICKED,
            click_state_update,
            state_update: left > 0 || right > 0 || up > 0 || down > 0 || click_state_update > 0,
        }
    }
}

fn scale(level: u8, contrast: u8) -> (out: u8)
    ensures
        out == scaled(level, contrast),
{
    assert(level * contrast <= 255 * 255) by (nonlinear_arith)
        requires
            level <= 255,
            contrast <= 255,
    ;
    let product: u32 = level as u32 * contrast as u32;
    (product / 255) as u8
}

} // verus!
