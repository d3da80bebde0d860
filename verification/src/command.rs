//! The controller's commands and their encoding on the wire.

use crate::displayrotation::DisplayRotation;
use crate::error::Error;
use crate::interface::{
    concat_all, fault_of, frame_program, lemma_concat_push, lemma_outcome_follows_attempts,
    lemma_ran_nothing, lemma_ran_part, ran, succeeded, Action, Attempt, Interface,
};
use vstd::prelude::*;

verus! {

/// Colour depth of the pixel data.
#[derive(Clone, Copy, Debug, PartialEq, Eq, Structural)]
pub enum ColorMode {
    /// 256 colours, one byte per pixel.
    CM256,
    /// 65k colours, two bytes per pixel.
    CM65k,
}

/// Direction in which the controller advances its address pointer.
#[derive(Clone, Copy, Debug, PartialEq, Eq, Structural)]
pub enum AddressIncrementMode {
    /// Along a row first.
    Horizontal,
    /// Along a column first.
    Vertical,
}

/// VCOMH deselect level, as a fraction of the reference voltage.
#[derive(Clone, Copy, Debug, PartialEq, Eq, Structural)]
pub enum VcomhLevel {
    /// 0.44 x Vref
    V044,
    /// 0.52 x Vref
    V052,
    /// 0.61 x Vref
    V061,
    /// 0.71 x Vref
    V071,
    /// 0.83 x Vref
    V083,
}

/// A configuration or addressing command of the controller.
#[derive(Clone, Copy, Debug, PartialEq, Eq, Structural)]
pub enum Command {
    /// Contrast of the three colour channels.
    Contrast(u8, u8, u8),
    /// Light every pixel regardless of memory (`true`), or show memory (`false`).
    AllOn(bool),
    /// Show the display inverted.
    Invert(bool),
    /// Switch the panel on or off.
    DisplayOn(bool),
    /// First and last column of the draw window.
    ColumnAddress(u8, u8),
    /// First and last row of the draw window.
    RowAddress(u8, u8),
    /// Display start line.
    StartLine(u8),
    /// Column remap, vertical flip, colour depth and address increment direction.
    RemapAndColorDepth(bool, bool, ColorMode, AddressIncrementMode),
    /// Multiplex ratio.
    Multiplex(u8),
    /// Vertical display offset.
    DisplayOffset(u8),
    /// Clock divider and oscillator frequency.
    DisplayClockDiv(u8, u8),
    /// Lengths of phase 1 and phase 2 of the pre-charge period.
    PreChargePeriod(u8, u8),
    /// VCOMH deselect level.
    VcomhDeselect(VcomhLevel),
}

/// A byte whose high nibble is the low nibble of `high` and whose low nibble is that of `low`.
pub open spec fn pack_nibbles(high: u8, low: u8) -> u8 {
    ((high % 16) * 16 + (low % 16)) as u8
}

/// The operand of the remap command.
///
/// Bit 0 is the address increment direction, bit 1 the column remap, bit 4
/// the vertical flip, bit 5 is always set (odd/even split of the common
/// lines), and bits 6 and 7 hold the colour depth.
pub open spec fn remap_operand(
    column_remap: bool,
    vertical_flip: bool,
    depth: ColorMode,
    increment: AddressIncrementMode,
) -> u8 {
    (32 + (if vertical_flip { 16int } else { 0 }) + (if column_remap { 2int } else { 0 })
        + 64 * depth.code() + increment.code()) as u8
}

/// The packed byte read as a register: the upper four bits are the low nibble
/// of `high`, the lower four bits are the low nibble of `low`.
pub proof fn lemma_pack_nibbles_bits(high: u8, low: u8)
    ensures
        pack_nibbles(high, low) == ((high & 0x0F) << 4) | (low & 0x0F),
        pack_nibbles(high, low) >> 4 == high & 0x0F,
        pack_nibbles(high, low) & 0x0F == low & 0x0F,
{
    let packed: u8 = ((high & 0x0F) << 4) | (low & 0x0F);
    assert(high % 16 == high & 0x0F) by (bit_vector);
    assert(low % 16 == low & 0x0F) by (bit_vector);
    let h: u8 = high & 0x0F;
    let l: u8 = low & 0x0F;
    assert(h < 16 && l < 16 ==> (h << 4) | l == h * 16 + l) by (bit_vector);
    assert(h <= 15) by (bit_vector)
        requires
            h == high & 0x0F,
    ;
    assert(l <= 15) by (bit_vector)
        requires
            l == low & 0x0F,
    ;
    assert(h < 16 && l < 16 ==> ((h << 4) | l) >> 4 == h) by (bit_vector);
    assert(h < 16 && l < 16 ==> ((h << 4) | l) & 0x0F == l) by (bit_vector);
}

/// The remap operand read as a register, field by field.
pub proof fn lemma_remap_operand_bits(
    column_remap: bool,
    vertical_flip: bool,
    depth: ColorMode,
    increment: AddressIncrementMode,
)
    ensures
        remap_operand(column_remap, vertical_flip, depth, increment) & 0x01 == increment.code(),
        (remap_operand(column_remap, vertical_flip, depth, increment) & 0x02 != 0) == column_remap,
        (remap_operand(column_remap, vertical_flip, depth, increment) & 0x10 != 0) == vertical_flip,
        remap_operand(column_remap, vertical_flip, depth, increment) & 0x20 != 0,
        remap_operand(column_remap, vertical_flip, depth, increment) >> 6 == depth.code(),
        remap_operand(column_remap, vertical_flip, depth, increment) & 0x0C == 0,
{
    let v: u8 = if vertical_flip {
        1
    } else {
        0
    };
    let h: u8 = if column_remap {
        1
    } else {
        0
    };
    let d: u8 = depth.code();
    let i: u8 = increment.code();
    assert(remap_operand(column_remap, vertical_flip, depth, increment) == (32 + 16 * v + 2 * h
        + 64 * d + i) as u8);
    assert(v <= 1 && h <= 1 && d <= 1 && i <= 1 ==> {
        &&& ((32 + 16 * v + 2 * h + 64 * d + i) as u8) & 0x01 == i
        &&& (((32 + 16 * v + 2 * h + 64 * d + i) as u8) & 0x02 != 0) == (h == 1)
        &&& (((32 + 16 * v + 2 * h + 64 * d + i) as u8) & 0x10 != 0) == (v == 1)
        &&& ((32 + 16 * v + 2 * h + 64 * d + i) as u8) & 0x20 != 0
        &&& ((32 + 16 * v + 2 * h + 64 * d + i) as u8) >> 6 == d
        &&& ((32 + 16 * v + 2 * h + 64 * d + i) as u8) & 0x0C == 0
    }) by (bit_vector);
}

impl ColorMode {
    /// The value of the colour-depth field.
    pub open spec fn code(self) -> u8 {
        match self {
            ColorMode::CM256 => 0,
            ColorMode::CM65k => 1,
        }
    }

    /// The value of the colour-depth field.
    pub fn bits(self) -> (out: u8)
        ensures
            out == self.code(),
    {
        match self {
            ColorMode::CM256 => 0,
            ColorMode::CM65k => 1,
        }
    }
}

impl AddressIncrementMode {
    /// The value of the increment-direction bit.
    pub open spec fn code(self) -> u8 {
        match self {
            AddressIncrementMode::Horizontal => 0,
            AddressIncrementMode::Vertical => 1,
        }
    }

    /// The value of the increment-direction bit.
    pub fn bits(self) -> (out: u8)
        ensures
            out == self.code(),
    {
        match self {
            AddressIncrementMode::Horizontal => 0,
            AddressIncrementMode::Vertical => 1,
        }
    }
}

impl VcomhLevel {
    /// The operand byte that selects this level.
    pub open spec fn code(self) -> u8 {
        match self {
            VcomhLevel::V044 => 0x00,
            VcomhLevel::V052 => 0x10,
            VcomhLevel::V061 => 0x20,
            VcomhLevel::V071 => 0x30,
            VcomhLevel::V083 => 0x3E,
        }
    }

    /// The operand byte that selects this level.
    pub fn bits(self) -> (out: u8)
        ensures
            out == self.code(),
    {
        match self {
            VcomhLevel::V044 => 0x00,
            VcomhLevel::V052 => 0x10,
            VcomhLevel::V061 => 0x20,
            VcomhLevel::V071 => 0x30,
            VcomhLevel::V083 => 0x3E,
        }
    }
}

impl Command {
    /// The frames that put this command on the wire, each an opcode followed by its operands.
    ///
    /// Every command is one frame, except the contrast command, which is one
    /// frame for each colour channel.
    pub open spec fn frames(self) -> Seq<Seq<u8>> {
        match self {
            Command::Contrast(a, b, c) => seq![seq![0x81u8, a], seq![0x82u8, b], seq![0x83u8, c]],
            Command::AllOn(on) => seq![seq![if on { 0xA5u8 } else { 0xA4u8 }]],
            Command::Invert(on) => seq![seq![if on { 0xA7u8 } else { 0xA6u8 }]],
            Command::DisplayOn(on) => seq![seq![if on { 0xAFu8 } else { 0xAEu8 }]],
            Command::ColumnAddress(start, end) => seq![seq![0x15u8, start, end]],
            Command::RowAddress(start, end) => seq![seq![0x75u8, start, end]],
            Command::StartLine(line) => seq![seq![0xA1u8, line]],
            Command::RemapAndColorDepth(column_remap, vertical_flip, depth, increment) => seq![
                seq![0xA0u8, remap_operand(column_remap, vertical_flip, depth, increment)],
            ],
            Command::Multiplex(ratio) => seq![seq![0xA8u8, ratio]],
            Command::DisplayOffset(offset) => seq![seq![0xA2u8, offset]],
            Command::DisplayClockDiv(div, osc) => seq![seq![0xB3u8, pack_nibbles(osc, div)]],
            Command::PreChargePeriod(phase1, phase2) => seq![
                seq![0xB1u8, pack_nibbles(phase2, phase1)],
            ],
            Command::VcomhDeselect(level) => seq![seq![0xBEu8, level.code()]],
        }
    }

    /// Everything that sending this command asks of the hardware.
    pub open spec fn program(self) -> Seq<Action> {
        concat_all(self.frames().map_values(|f: Seq<u8>| frame_program(f)))
    }

    /// The number of frames of this command.
    pub fn frame_count(&self) -> (out: usize)
        ensures
            out == self.frames().len(),
    {
        match self {
            Command::Contrast(_, _, _) => 3,
            _ => 1,
        }
    }

    /// The bytes of frame `index` of this command.
    pub fn frame(&self, index: usize) -> (out: Vec<u8>)
        requires
            index < self.frames().len(),
        ensures
            out@ == self.frames()[index as int],
    {
        let out = match *self {
            Command::Contrast(a, b, c) => {
                if index == 0 {
                    vec![0x81u8, a]
                } else if index == 1 {
                    vec![0x82u8, b]
                } else {
                    vec![0x83u8, c]
                }
            },
            Command::AllOn(on) => vec![if on { 0xA5u8 } else { 0xA4u8 }],
            Command::Invert(on) => vec![if on { 0xA7u8 } else { 0xA6u8 }],
            Command::DisplayOn(on) => vec![if on { 0xAFu8 } else { 0xAEu8 }],
            Command::ColumnAddress(start, end) => vec![0x15u8, start, end],
            Command::RowAddress(start, end) => vec![0x75u8, start, end],
            Command::StartLine(line) => vec![0xA1u8, line],
            Command::RemapAndColorDepth(column_remap, vertical_flip, depth, increment) => {
                let flip: u8 = if vertical_flip { 16 } else { 0 };
                let remap: u8 = if column_remap { 2 } else { 0 };
                vec![0xA0u8, 32 + flip + remap + 64 * depth.bits() + increment.bits()]
            },
            Command::Multiplex(ratio) => vec![0xA8u8, ratio],
            Command::DisplayOffset(offset) => vec![0xA2u8, offset],
            Command::DisplayClockDiv(div, osc) => vec![0xB3u8, (osc % 16) * 16 + (div % 16)],
            Command::PreChargePeriod(phase1, phase2) => vec![
                0xB1u8,
                (phase2 % 16) * 16 + (phase1 % 16),
            ],
            Command::VcomhDeselect(level) => vec![0xBEu8, level.bits()],
        };
        assert(out@ =~= self.frames()[index as int]);
        out
    }

    /// The remap command that puts the controller into the given rotation.
    pub open spec fn remap_for(rotation: DisplayRotation) -> Command {
        match rotation {
            DisplayRotation::Rotate0 => Command::RemapAndColorDepth(
                false,
                false,
                ColorMode::CM65k,
                AddressIncrementMode::Horizontal,
            ),
            DisplayRotation::Rotate90 => Command::RemapAndColorDepth(
                true,
                false,
                ColorMode::CM65k,
                AddressIncrementMode::Vertical,
            ),
            DisplayRotation::Rotate180 => Command::RemapAndColorDepth(
                true,
                true,
                ColorMode::CM65k,
                AddressIncrementMode::Horizontal,
            ),
            DisplayRotation::Rotate270 => Command::RemapAndColorDepth(
                false,
                true,
                ColorMode::CM65k,
                AddressIncrementMode::Vertical,
            ),
        }
    }

    /// The remap command that puts the controller into the given rotation.
    pub fn remap(rotation: DisplayRotation) -> (out: Command)
        ensures
            out == Command::remap_for(rotation),
    {
        match rotation {
            DisplayRotation::Rotate0 => Command::RemapAndColorDepth(
                false,
                false,
                ColorMode::CM65k,
                AddressIncrementMode::Horizontal,
            ),
            DisplayRotation::Rotate90 => Command::RemapAndColorDepth(
                true,
                false,
                ColorMode::CM65k,
                AddressIncrementMode::Vertical,
            ),
            DisplayRotation::Rotate180 => Command::RemapAndColorDepth(
                true,
                true,
                ColorMode::CM65k,
                AddressIncrementMode::Horizontal,
            ),
            DisplayRotation::Rotate270 => Command::RemapAndColorDepth(
                false,
                true,
                ColorMode::CM65k,
                AddressIncrementMode::Vertical,
            ),
        }
    }

    /// Sends this command: each of its frames in command mode, in order.
    ///
    /// The first failure ends the transmission and is returned; if nothing
    /// fails the result is `Ok`.
    pub fn send<SPI, DC>(self, iface: &mut Interface<SPI, DC>) -> (r: Result<(), Error>) where
        SPI: embedded_hal::blocking::spi::Write<u8>,
        DC: embedded_hal::digital::v2::OutputPin,

        ensures
            ran(old(iface).trace(), final(iface).trace(), self.program(), fault_of(r)),
    {
        let ghost before = iface.trace();
        let ghost parts = self.frames().map_values(|f: Seq<u8>| frame_program(f));
        let count = self.frame_count();
        let mut i: usize = 0;
        proof {
            lemma_ran_nothing(before);
            assert(parts.take(0) =~= Seq::<Seq<Action>>::empty());
        }
        while i < count
            invariant
                i <= count,
                count == parts.len(),
                before == old(iface).trace(),
                parts == self.frames().map_values(|f: Seq<u8>| frame_program(f)),
                ran(before, iface.trace(), concat_all(parts.take(i as int)), None),
            decreases count - i,
        {
            let ghost mid = iface.trace();
            let bytes = self.frame(i);
            let sent = iface.send_frame(bytes.as_slice());
            proof {
                lemma_ran_part(before, mid, iface.trace(), parts, i as int, fault_of(sent));
            }
            if let Err(e) = sent {
                return Err(e);
            }
            i += 1;
        }
        proof {
            assert(parts.take(count as int) =~= parts);
        }
        Ok(())
    }
}

/// A command of one frame is sent as: command mode, then one write of the frame.
pub proof fn lemma_single_frame_program(command: Command)
    requires
        command.frames().len() == 1,
    ensures
        command.program() == seq![Action::CommandMode, Action::Write(command.frames()[0])],
{
    let parts = command.frames().map_values(|f: Seq<u8>| frame_program(f));
    let none = Seq::<Seq<Action>>::empty();
    lemma_concat_push(none, parts[0]);
    assert(none.push(parts[0]) =~= parts);
    assert(concat_all(none) + parts[0] =~= parts[0]);
}

/// The contrast command is sent as three frames, one for each colour channel,
/// each in command mode.
pub proof fn lemma_contrast_program(a: u8, b: u8, c: u8)
    ensures
        Command::Contrast(a, b, c).program() == seq![
            Action::CommandMode,
            Action::Write(seq![0x81u8, a]),
            Action::CommandMode,
            Action::Write(seq![0x82u8, b]),
            Action::CommandMode,
            Action::Write(seq![0x83u8, c]),
        ],
{
    let parts = Command::Contrast(a, b, c).frames().map_values(|f: Seq<u8>| frame_program(f));
    let none = Seq::<Seq<Action>>::empty();
    let one = none.push(parts[0]);
    let two = one.push(parts[1]);
    lemma_concat_push(none, parts[0]);
    lemma_concat_push(one, parts[1]);
    lemma_concat_push(two, parts[2]);
    assert(two.push(parts[2]) =~= parts);
    assert(((concat_all(none) + parts[0]) + parts[1]) + parts[2] =~= seq![
        Action::CommandMode,
        Action::Write(seq![0x81u8, a]),
        Action::CommandMode,
        Action::Write(seq![0x82u8, b]),
        Action::CommandMode,
        Action::Write(seq![0x83u8, c]),
    ]);
}

/// The frame of the remap command for each rotation.
pub proof fn lemma_remap_frames()
    ensures
        Command::remap_for(DisplayRotation::Rotate0).frames() == seq![seq![0xA0u8, 0x60u8]],
        Command::remap_for(DisplayRotation::Rotate90).frames() == seq![seq![0xA0u8, 0x63u8]],
        Command::remap_for(DisplayRotation::Rotate180).frames() == seq![seq![0xA0u8, 0x72u8]],
        Command::remap_for(DisplayRotation::Rotate270).frames() == seq![seq![0xA0u8, 0x71u8]],
{
}

/// Setting the rotation sends exactly one frame: the remap opcode and one operand.
pub proof fn lemma_remap_program(rotation: DisplayRotation)
    ensures
        Command::remap_for(rotation).frames().len() == 1,
        Command::remap_for(rotation).frames()[0].len() == 2,
        Command::remap_for(rotation).frames()[0][0] == 0xA0u8,
        Command::remap_for(rotation).program() == seq![
            Action::CommandMode,
            Action::Write(Command::remap_for(rotation).frames()[0]),
        ],
{
    lemma_single_frame_program(Command::remap_for(rotation));
}

/// How setting the rotation ends. Exactly one frame is sent, the remap of
/// the rotation: if nothing fails the run ends without a fault after command
/// mode and the write of that frame; if the pin fails a pin fault is returned
/// and nothing is written; if the write fails a transport fault is returned.
pub proof fn lemma_remap_outcomes(
    before: Seq<Attempt>,
    after: Seq<Attempt>,
    rotation: DisplayRotation,
    fault: Option<Error>,
)
    requires
        ran(before, after, Command::remap_for(rotation).program(), fault),
    ensures
        (forall|i: int| before.len() <= i < after.len() ==> after[i].ok) ==> fault is None,
        fault is None ==> after == before + succeeded(
            seq![Action::CommandMode, Action::Write(Command::remap_for(rotation).frames()[0])],
        ),
        fault is Some && after.len() == before.len() + 1 ==> fault == Some(Error::Pin)
            && after.last() == (Attempt { action: Action::CommandMode, ok: false }),
        fault is Some && after.len() != before.len() + 1 ==> fault == Some(Error::Comm)
            && after.len() == before.len() + 2 && after[after.len() - 2] == (Attempt {
            action: Action::CommandMode,
            ok: true,
        }) && after.last() == (Attempt {
            action: Action::Write(Command::remap_for(rotation).frames()[0]),
            ok: false,
        }),
{
    lemma_remap_program(rotation);
    lemma_outcome_follows_attempts(before, after, Command::remap_for(rotation).program(), fault);
}

/// The program of two commands is the program of the first followed by that of the second.
pub proof fn lemma_two_commands_program(first: Command, second: Command)
    ensures
        commands_program(seq![first, second]) == first.program() + second.program(),
{
    let parts = seq![first, second].map_values(|c: Command| c.program());
    let none = Seq::<Seq<Action>>::empty();
    let one = none.push(first.program());
    lemma_concat_push(none, first.program());
    lemma_concat_push(one, second.program());
    assert(one.push(second.program()) =~= parts);
    assert((concat_all(none) + first.program()) + second.program() =~= first.program()
        + second.program());
}

/// Setting the draw window sends the column range, then the row range, each
/// as one frame of opcode, first and last.
pub proof fn lemma_draw_area_program(start: (u8, u8), end: (u8, u8))
    requires
        0 < end.0,
        0 < end.1,
    ensures
        commands_program(draw_area_commands(start, end)) == seq![
            Action::CommandMode,
            Action::Write(seq![0x15u8, start.0, (end.0 - 1) as u8]),
            Action::CommandMode,
            Action::Write(seq![0x75u8, start.1, (end.1 - 1) as u8]),
        ],
{
    let column = Command::ColumnAddress(start.0, (end.0 - 1) as u8);
    let row = Command::RowAddress(start.1, (end.1 - 1) as u8);
    lemma_two_commands_program(column, row);
    lemma_single_frame_program(column);
    lemma_single_frame_program(row);
    assert(draw_area_commands(start, end) =~= seq![column, row]);
    assert(column.program() + row.program() =~= seq![
        Action::CommandMode,
        Action::Write(seq![0x15u8, start.0, (end.0 - 1) as u8]),
        Action::CommandMode,
        Action::Write(seq![0x75u8, start.1, (end.1 - 1) as u8]),
    ]);
}

/// Everything that sending these commands in order asks of the hardware.
pub open spec fn commands_program(commands: Seq<Command>) -> Seq<Action> {
    concat_all(commands.map_values(|c: Command| c.program()))
}

/// Sends the commands in order and stops at the first failure, which is
/// returned; if nothing fails the result is `Ok`.
pub fn send_all<SPI, DC>(commands: &[Command], iface: &mut Interface<SPI, DC>) -> (r: Result<
    (),
    Error,
>) where
    SPI: embedded_hal::blocking::spi::Write<u8>,
    DC: embedded_hal::digital::v2::OutputPin,

    ensures
        ran(old(iface).trace(), final(iface).trace(), commands_program(commands@), fault_of(r)),
{
    let ghost before = iface.trace();
    let ghost parts = commands@.map_values(|c: Command| c.program());
    let mut i: usize = 0;
    proof {
        lemma_ran_nothing(before);
        assert(parts.take(0) =~= Seq::<Seq<Action>>::empty());
    }
    while i < commands.len()
        invariant
            i <= commands.len(),
            before == old(iface).trace(),
            parts == commands@.map_values(|c: Command| c.program()),
            ran(before, iface.trace(), concat_all(parts.take(i as int)), None),
        decreases commands.len() - i,
    {
        let ghost mid = iface.trace();
        let sent = commands[i].send(iface);
        proof {
            lemma_ran_part(before, mid, iface.trace(), parts, i as int, fault_of(sent));
        }
        if let Err(e) = sent {
            return Err(e);
        }
        i += 1;
    }
    proof {
        assert(parts.take(commands.len() as int) =~= parts);
    }
    Ok(())
}

/// The bring-up sequence of the controller for a panel mounted with the given rotation.
pub open spec fn init_commands(rotation: DisplayRotation) -> Seq<Command> {
    seq![
        Command::DisplayOn(false),
        Command::DisplayClockDiv(0x8, 0x0),
        Command::Multiplex(63),
        Command::DisplayOffset(0),
        Command::StartLine(0),
        Command::remap_for(rotation),
        Command::Contrast(0x91, 0x50, 0x7D),
        Command::PreChargePeriod(0x1, 0xF),
        Command::VcomhDeselect(VcomhLevel::V071),
        Command::AllOn(false),
        Command::Invert(false),
        Command::DisplayOn(true),
    ]
}

/// The bring-up sequence on the wire: display off, clock divider, multiplex
/// ratio, offset, start line, the remap of the rotation, contrast of the three
/// channels, pre-charge period, VCOMH level, all-on off, invert off, display on.
pub proof fn lemma_init_program(rotation: DisplayRotation)
    ensures
        commands_program(init_commands(rotation)) == seq![
            Action::CommandMode,
            Action::Write(seq![0xAEu8]),
            Action::CommandMode,
            Action::Write(seq![0xB3u8, 0x08u8]),
            Action::CommandMode,
            Action::Write(seq![0xA8u8, 63u8]),
            Action::CommandMode,
            Action::Write(seq![0xA2u8, 0u8]),
            Action::CommandMode,
            Action::Write(seq![0xA1u8, 0u8]),
            Action::CommandMode,
            Action::Write(Command::remap_for(rotation).frames()[0]),
            Action::CommandMode,
            Action::Write(seq![0x81u8, 0x91u8]),
            Action::CommandMode,
            Action::Write(seq![0x82u8, 0x50u8]),
            Action::CommandMode,
            Action::Write(seq![0x83u8, 0x7Du8]),
            Action::CommandMode,
            Action::Write(seq![0xB1u8, 0xF1u8]),
            Action::CommandMode,
            Action::Write(seq![0xBEu8, 0x30u8]),
            Action::CommandMode,
            Action::Write(seq![0xA4u8]),
            Action::CommandMode,
            Action::Write(seq![0xA6u8]),
            Action::CommandMode,
            Action::Write(seq![0xAFu8]),
        ],
{
    let list = init_commands(rotation);
    let parts = list.map_values(|c: Command| c.program());
    let sent0 = Seq::<Seq<Action>>::empty();
    let sent1 = sent0.push(parts[0]);
    lemma_concat_push(sent0, parts[0]);
    lemma_single_frame_program(Command::DisplayOn(false));
    let sent2 = sent1.push(parts[1]);
    lemma_concat_push(sent1, parts[1]);
    lemma_single_frame_program(Command::DisplayClockDiv(0x8, 0x0));
    let sent3 = sent2.push(parts[2]);
    lemma_concat_push(sent2, parts[2]);
    lemma_single_frame_program(Command::Multiplex(63));
    let sent4 = sent3.push(parts[3]);
    lemma_concat_push(sent3, parts[3]);
    lemma_single_frame_program(Command::DisplayOffset(0));
    let sent5 = sent4.push(parts[4]);
    lemma_concat_push(sent4, parts[4]);
    lemma_single_frame_program(Command::StartLine(0));
    let sent6 = sent5.push(parts[5]);
    lemma_concat_push(sent5, parts[5]);
    lemma_remap_program(rotation);
    let sent7 = sent6.push(parts[6]);
    lemma_concat_push(sent6, parts[6]);
    lemma_contrast_program(0x91, 0x50, 0x7D);
    let sent8 = sent7.push(parts[7]);
    lemma_concat_push(sent7, parts[7]);
    lemma_single_frame_program(Command::PreChargePeriod(0x1, 0xF));
    let sent9 = sent8.push(parts[8]);
    lemma_concat_push(sent8, parts[8]);
    lemma_single_frame_program(Command::VcomhDeselect(VcomhLevel::V071));
    let sent10 = sent9.push(parts[9]);
    lemma_concat_push(sent9, parts[9]);
    lemma_single_frame_program(Command::AllOn(false));
    let sent11 = sent10.push(parts[10]);
    lemma_concat_push(sent10, parts[10]);
    lemma_single_frame_program(Command::Invert(false));
    let sent12 = sent11.push(parts[11]);
    lemma_concat_push(sent11, parts[11]);
    lemma_single_frame_program(Command::DisplayOn(true));
    assert(sent12 =~= parts);
    assert(concat_all(sent12) =~= seq![
        Action::CommandMode,
        Action::Write(seq![0xAEu8]),
        Action::CommandMode,
        Action::Write(seq![0xB3u8, 0x08u8]),
        Action::CommandMode,
        Action::Write(seq![0xA8u8, 63u8]),
        Action::CommandMode,
        Action::Write(seq![0xA2u8, 0u8]),
        Action::CommandMode,
        Action::Write(seq![0xA1u8, 0u8]),
        Action::CommandMode,
        Action::Write(Command::remap_for(rotation).frames()[0]),
        Action::CommandMode,
        Action::Write(seq![0x81u8, 0x91u8]),
        Action::CommandMode,
        Action::Write(seq![0x82u8, 0x50u8]),
        Action::CommandMode,
        Action::Write(seq![0x83u8, 0x7Du8]),
        Action::CommandMode,
        Action::Write(seq![0xB1u8, 0xF1u8]),
        Action::CommandMode,
        Action::Write(seq![0xBEu8, 0x30u8]),
        Action::CommandMode,
        Action::Write(seq![0xA4u8]),
        Action::CommandMode,
        Action::Write(seq![0xA6u8]),
        Action::CommandMode,
        Action::Write(seq![0xAFu8]),
    ]);
}

/// How the bring-up ends. If no operation fails it ends without a fault
/// after all fourteen frames. Otherwise the fault of the operation that
/// failed is returned, a pin fault for a switch to command mode and a
/// transport fault for a write, and nothing is attempted after it.
pub proof fn lemma_init_outcomes(
    before: Seq<Attempt>,
    after: Seq<Attempt>,
    rotation: DisplayRotation,
    fault: Option<Error>,
)
    requires
        ran(before, after, commands_program(init_commands(rotation)), fault),
    ensures
        commands_program(init_commands(rotation)).len() == 28,
        (forall|i: int| before.len() <= i < after.len() ==> after[i].ok) ==> fault is None,
        fault is None ==> after == before + succeeded(commands_program(init_commands(rotation))),
        fault is Some ==> {
            &&& before.len() < after.len() <= before.len() + 28
            &&& !after.last().ok
            &&& forall|i: int| before.len() <= i < after.len() - 1 ==> after[i].ok
            &&& after.last().action == commands_program(init_commands(rotation))[after.len()
                - before.len() - 1]
            &&& fault == after.last().action.fault()
            &&& fault == Some(
                if (after.len() - before.len()) % 2 == 1 {
                    Error::Pin
                } else {
                    Error::Comm
                },
            )
        },
{
    lemma_init_program(rotation);
    lemma_outcome_follows_attempts(
        before,
        after,
        commands_program(init_commands(rotation)),
        fault,
    );
}

/// The bring-up sequence of the controller for a panel mounted with the given rotation.
pub fn init_sequence(rotation: DisplayRotation) -> (out: Vec<Command>)
    ensures
        out@ == init_commands(rotation),
{
    let out = vec![
        Command::DisplayOn(false),
        Command::DisplayClockDiv(0x8, 0x0),
        Command::Multiplex(63),
        Command::DisplayOffset(0),
        Command::StartLine(0),
        Command::remap(rotation),
        Command::Contrast(0x91, 0x50, 0x7D),
        Command::PreChargePeriod(0x1, 0xF),
        Command::VcomhDeselect(VcomhLevel::V071),
        Command::AllOn(false),
        Command::Invert(false),
        Command::DisplayOn(true),
    ];
    assert(out@ =~= init_commands(rotation));
    out
}

/// The two commands that set the draw window from `start` up to, but not including, `end`.
pub open spec fn draw_area_commands(start: (u8, u8), end: (u8, u8)) -> Seq<Command> {
    seq![
        Command::ColumnAddress(start.0, (end.0 - 1) as u8),
        Command::RowAddress(start.1, (end.1 - 1) as u8),
    ]
}

/// The two commands that set the draw window from `start` up to, but not including, `end`.
///
/// The end corner must not be zero in either direction, since the last
/// column and row are one below it. The window is not held against `start`:
/// a reversed window is encoded as given.
pub fn draw_area_sequence(start: (u8, u8), end: (u8, u8)) -> (out: Vec<Command>)
    requires
        0 < end.0,
        0 < end.1,
    ensures
        out@ == draw_area_commands(start, end),
{
    let out = vec![
        Command::ColumnAddress(start.0, end.0 - 1),
        Command::RowAddress(start.1, end.1 - 1),
    ];
    assert(out@ =~= draw_area_commands(start, end));
    out
}

} // verus!
