//! The hardware bridge: frames state and color commands for the LED strip
//! and records every framed command on a log, in the order it was issued.
//!
//! A command is the payload bytes, then a fixed terminator byte, then a
//! checksum: the low byte of the sum of everything before it.  The caller
//! that owns the transport reads the log and puts the frames on the wire;
//! a run without hardware can show them instead.

use vstd::prelude::*;

verus! {

/// Prefix byte of an on/off state command.
pub const STATE_COMMAND_PREFIX: u8 = 0x71;

/// Prefix byte of a built-in program command.
pub const PROGRAM_COMMAND_PREFIX: u8 = 0x61;

/// Prefix byte of a color command.
pub const COLOR_COMMAND_PREFIX: u8 = 0x31;

/// Terminator byte of a color command's payload.
pub const COLOR_PAYLOAD_TERMINATOR: u8 = 0xF0;

/// Terminator byte appended to every command before the checksum.
pub const MESSAGE_TERMINATOR: u8 = 0x0F;

/// Switches the whole strip on or off.
#[derive(Debug, Clone, Copy, PartialEq, Eq, Structural)]
pub enum StateStripCommand {
    On,
    Off,
}

/// One of the strip's built-in animation programs.
#[derive(Debug, Clone, Copy, PartialEq, Eq, Structural)]
pub enum ProgramStripCommand {
    SevenCrossFade,
    RedGradual,
    GreenGradual,
    BlueGradual,
    WhiteGradual,
    RedGreenCross,
    RedBlueCross,
    GreenBlueCross,
    SevenStrobe,
    RedStrobe,
    GreenStrobe,
    BlueStrobe,
    WhiteStrobe,
    SevenJumping,
}

/// The wire byte of a state command.
pub open spec fn spec_state_command_code(cmd: StateStripCommand) -> u8 {
    match cmd {
        StateStripCommand::On => 0x23,
        StateStripCommand::Off => 0x24,
    }
}

/// The wire byte of a program command.
pub open spec fn spec_program_command_code(cmd: ProgramStripCommand) -> u8 {
    match cmd {
        ProgramStripCommand::SevenCrossFade => 0x25,
        ProgramStripCommand::RedGradual => 0x26,
        ProgramStripCommand::GreenGradual => 0x27,
        ProgramStripCommand::BlueGradual => 0x28,
        ProgramStripCommand::WhiteGradual => 0x2c,
        ProgramStripCommand::RedGreenCross => 0x2d,
        ProgramStripCommand::RedBlueCross => 0x2e,
        ProgramStripCommand::GreenBlueCross => 0x2f,
        ProgramStripCommand::SevenStrobe => 0x30,
        ProgramStripCommand::RedStrobe => 0x31,
        ProgramStripCommand::GreenStrobe => 0x32,
        ProgramStripCommand::BlueStrobe => 0x33,
        ProgramStripCommand::WhiteStrobe => 0x37,
        ProgramStripCommand::SevenJumping => 0x38,
    }
}

impl StateStripCommand {
    /// The wire byte of this command.
    pub fn code(&self) -> (r: u8)
        ensures
            r == spec_state_command_code(*self),
    {
        match self {
            StateStripCommand::On => 0x23,
            StateStripCommand::Off => 0x24,
        }
    }
}

impl ProgramStripCommand {
    /// The wire byte of this command.
    pub fn code(&self) -> (r: u8)
        ensures
            r == spec_program_command_code(*self),
    {
        match self {
            ProgramStripCommand::SevenCrossFade => 0x25,
            ProgramStripCommand::RedGradual => 0x26,
            ProgramStripCommand::GreenGradual => 0x27,
            ProgramStripCommand::BlueGradual => 0x28,
            ProgramStripCommand::WhiteGradual => 0x2c,
            ProgramStripCommand::RedGreenCross => 0x2d,
            ProgramStripCommand::RedBlueCross => 0x2e,
            ProgramStripCommand::GreenBlueCross => 0x2f,
            ProgramStripCommand::SevenStrobe => 0x30,
            ProgramStripCommand::RedStrobe => 0x31,
            ProgramStripCommand::GreenStrobe => 0x32,
            ProgramStripCommand::BlueStrobe => 0x33,
            ProgramStripCommand::WhiteStrobe => 0x37,
            ProgramStripCommand::SevenJumping => 0x38,
        }
    }
}

/// The sum of a byte sequence's values.
pub open spec fn spec_sum(data: Seq<u8>) -> int
    decreases data.len(),
{
    if data.len() == 0 {
        0
    } else {
        spec_sum(data.drop_last()) + data.last()
    }
}

/// The frame a payload is wrapped in: the payload, the terminator byte,
/// and the low byte of the sum of everything before as checksum.
pub open spec fn spec_message(data: Seq<u8>) -> Seq<u8> {
    let with_terminator = data.push(MESSAGE_TERMINATOR);
    with_terminator.push((spec_sum(with_terminator) % 256) as u8)
}

/// The frame of an on/off state command.
pub open spec fn spec_state_frame(on: bool) -> Seq<u8> {
    spec_message(
        seq![
            STATE_COMMAND_PREFIX,
            spec_state_command_code(
                if on {
                    StateStripCommand::On
                } else {
                    StateStripCommand::Off
                },
            ),
        ],
    )
}

/// The frame of a color command.
pub open spec fn spec_color_frame(r: u8, g: u8, b: u8) -> Seq<u8> {
    spec_message(seq![COLOR_COMMAND_PREFIX, r, g, b, COLOR_PAYLOAD_TERMINATOR])
}

/// The sum of a byte sequence grows by the pushed byte.
proof fn lemma_sum_push(data: Seq<u8>, byte: u8)
    ensures
        spec_sum(data.push(byte)) == spec_sum(data) + byte,
{
    assert(data.push(byte).drop_last() =~= data);
}

/// Creates a message for the led strip: the payload, the terminator and
/// the checksum byte.
pub fn create_message(data: &[u8]) -> (r: Vec<u8>)
    ensures
        r@ == spec_message(data@),
{
    let mut out: Vec<u8> = Vec::new();
    let mut i: usize = 0;
    while i < data.len()
        invariant
            i <= data@.len(),
            out@ =~= data@.take(i as int),
        decreases data@.len() - i,
    {
        out.push(data[i]);
        assert(out@ =~= data@.take(i + 1));
        i = i + 1;
    }
    assert(out@ =~= data@);
    out.push(MESSAGE_TERMINATOR);
    let ghost framed = data@.push(MESSAGE_TERMINATOR);
    let mut sum: u128 = 0;
    let mut j: usize = 0;
    while j < out.len()
        invariant
            j <= out@.len(),
            out@ == framed,
            sum == spec_sum(out@.take(j as int)),
            sum <= 255 * j,
        decreases out@.len() - j,
    {
        proof {
            lemma_sum_push(out@.take(j as int), out@[j as int]);
            assert(out@.take(j as int).push(out@[j as int]) =~= out@.take(j + 1));
        }
        sum = sum + out[j] as u128;
        j = j + 1;
    }
    assert(out@.take(out@.len() as int) =~= out@);
    let checksum = (sum % 256) as u8;
    out.push(checksum);
    assert(out@ =~= spec_message(data@));
    out
}

/// The hardware bridge handle.  `r`, `g` and `b` hold the color most
/// recently framed; `sent` is the log of every framed command, oldest
/// first.
pub struct LedStripController {
    pub r: u8,
    pub g: u8,
    pub b: u8,
    pub sent: Vec<Vec<u8>>,
}

impl View for LedStripController {
    type V = Seq<Seq<u8>>;

    /// The log of framed commands.
    open spec fn view(&self) -> Seq<Seq<u8>> {
        self.sent@.map_values(|m: Vec<u8>| m@)
    }
}

impl LedStripController {
    pub fn new() -> (r: Self)
        ensures
            r@ =~= Seq::<Seq<u8>>::empty(),
            r.r == 0 && r.g == 0 && r.b == 0,
    {
        LedStripController { r: 0, g: 0, b: 0, sent: Vec::new() }
    }

    /// Records one framed command on the log.
    fn send(&mut self, message: Vec<u8>)
        ensures
            final(self)@ == old(self)@.push(message@),
            final(self).r == old(self).r,
            final(self).g == old(self).g,
            final(self).b == old(self).b,
    {
        let ghost before = self.sent@;
        self.sent.push(message);
        assert(self@ =~= before.map_values(|m: Vec<u8>| m@).push(message@));
    }

    /// Frames an rgb color command and logs it for the strip.
    pub fn send_rgb_color(&mut self, r: u8, g: u8, b: u8)
        ensures
            final(self)@ == old(self)@.push(spec_color_frame(r, g, b)),
            final(self).r == r && final(self).g == g && final(self).b == b,
    {
        self.r = r;
        self.g = g;
        self.b = b;
        let payload = [COLOR_COMMAND_PREFIX, r, g, b, COLOR_PAYLOAD_TERMINATOR];
        assert(payload@ =~= seq![COLOR_COMMAND_PREFIX, r, g, b, COLOR_PAYLOAD_TERMINATOR]);
        let message = create_message(payload.as_slice());
        self.send(message);
    }

    /// Frames a state command that switches the strip on or off and logs it.
    pub fn set_state(&mut self, cmd: StateStripCommand)
        ensures
            final(self)@ == old(self)@.push(
                spec_message(seq![STATE_COMMAND_PREFIX, spec_state_command_code(cmd)]),
            ),
            final(self).r == old(self).r,
            final(self).g == old(self).g,
            final(self).b == old(self).b,
    {
        let payload = [STATE_COMMAND_PREFIX, cmd.code()];
        assert(payload@ =~= seq![STATE_COMMAND_PREFIX, spec_state_command_code(cmd)]);
        let message = create_message(payload.as_slice());
        self.send(message);
    }

    /// Frames a built-in program command with a speed, one of 0x01, 0x06,
    /// 0x10, 0x1c, and logs it.
    pub fn send_command(&mut self, cmd: ProgramStripCommand, speed: u8)
        ensures
            final(self)@ == old(self)@.push(
                spec_message(
                    seq![PROGRAM_COMMAND_PREFIX, spec_program_command_code(cmd), speed],
                ),
            ),
            final(self).r == old(self).r,
            final(self).g == old(self).g,
            final(self).b == old(self).b,
    {
        let payload = [PROGRAM_COMMAND_PREFIX, cmd.code(), speed];
        assert(payload@ =~= seq![PROGRAM_COMMAND_PREFIX, spec_program_command_code(cmd), speed]);
        let message = create_message(payload.as_slice());
        self.send(message);
    }
}

} // verus!
