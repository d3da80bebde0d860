//! The display: a framebuffer in the panel's native layout, the rotation, and the interface.

use crate::command::{
    commands_program, draw_area_commands, draw_area_sequence, init_commands, init_sequence,
    lemma_draw_area_program, send_all, Command,
};
use crate::displayrotation::DisplayRotation;
use crate::error::Error;
use crate::interface::{
    data_program, fault_of, lemma_outcome_follows_attempts, lemma_ran_stops, lemma_ran_then, ran,
    reset_program, succeeded, Action, Attempt, Interface,
};
use crate::{BUF_SIZE, DISPLAY_HEIGHT, DISPLAY_WIDTH};
use vstd::array::ArrayAdditionalExecFns;
use vstd::prelude::*;

verus! {

/// One pixel to draw: signed logical coordinates and an RGB565 value.
#[derive(Clone, Copy, Debug, PartialEq, Eq, Structural)]
pub struct Pixel {
    pub x: i32,
    pub y: i32,
    pub color: u16,
}

/// What a display is, as far as its contracts are concerned.
///
/// The transport and the data/command line are not part of it, since every
/// operation on the bus may change them; `Ssd1331::handles` speaks of them
/// where they are handed over.
pub struct DisplayState {
    /// The framebuffer: two bytes per pixel, high byte first, in native panel order.
    pub buffer: Seq<u8>,
    /// The current rotation.
    pub rotation: DisplayRotation,
    /// Every hardware operation attempted so far, with its outcome, oldest first.
    pub trace: Seq<Attempt>,
}

/// A framebuffer of `BUF_SIZE` zero bytes.
pub open spec fn blank() -> Seq<u8> {
    Seq::new(BUF_SIZE as nat, |i: int| 0u8)
}

/// The buffer offset of the high byte of logical pixel (x, y), or `None` if the pixel is dropped.
///
/// The buffer is always laid out in native panel order. In the upright
/// rotations a row is 96 pixels long and only `x` is held against the native
/// width; in the sideways rotations a row is 64 pixels long and only `y` is
/// held against the native width. Whatever passes that test is still dropped
/// if its two bytes would not lie inside the buffer.
pub open spec fn pixel_offset(rotation: DisplayRotation, x: int, y: int) -> Option<int> {
    let rejected = if rotation.is_sideways() {
        y >= 96
    } else {
        x >= 96
    };
    let stride: int = if rotation.is_sideways() {
        64
    } else {
        96
    };
    let offset = (y * stride + x) * 2;
    if rejected || offset >= BUF_SIZE - 1 {
        None
    } else {
        Some(offset)
    }
}

/// The buffer after setting logical pixel (x, y) to `value`.
pub open spec fn plot(buffer: Seq<u8>, rotation: DisplayRotation, x: int, y: int, value: u16) -> Seq<
    u8,
> {
    match pixel_offset(rotation, x, y) {
        Some(offset) => buffer.update(offset, (value / 256) as u8).update(
            offset + 1,
            (value % 256) as u8,
        ),
        None => buffer,
    }
}

/// The buffer after drawing one pixel: pixels left of or above the origin are skipped.
pub open spec fn plot_pixel(buffer: Seq<u8>, rotation: DisplayRotation, pixel: Pixel) -> Seq<u8> {
    if pixel.x >= 0 && pixel.y >= 0 {
        plot(buffer, rotation, pixel.x as int, pixel.y as int, pixel.color)
    } else {
        buffer
    }
}

/// The buffer after drawing the pixels in order.
pub open spec fn paint(buffer: Seq<u8>, rotation: DisplayRotation, pixels: Seq<Pixel>) -> Seq<u8>
    decreases pixels.len(),
{
    if pixels.len() == 0 {
        buffer
    } else {
        plot_pixel(paint(buffer, rotation, pixels.drop_last()), rotation, pixels.last())
    }
}

/// What a flush asks of the hardware: the full-screen draw window, then the buffer as data.
pub open spec fn flush_program(buffer: Seq<u8>) -> Seq<Action> {
    commands_program(draw_area_commands((0, 0), (96, 64))) + data_program(buffer)
}

/// A flush always sets the full window, columns 0 to 95 and rows 0 to 63,
/// and then sends the whole buffer as data in one write.
pub proof fn lemma_flush_program(buffer: Seq<u8>)
    ensures
        flush_program(buffer) == seq![
            Action::CommandMode,
            Action::Write(seq![0x15u8, 0u8, 95u8]),
            Action::CommandMode,
            Action::Write(seq![0x75u8, 0u8, 63u8]),
            Action::DataMode,
            Action::Write(buffer),
        ],
{
    lemma_draw_area_program((0, 0), (96, 64));
    assert(flush_program(buffer) =~= seq![
        Action::CommandMode,
        Action::Write(seq![0x15u8, 0u8, 95u8]),
        Action::CommandMode,
        Action::Write(seq![0x75u8, 0u8, 63u8]),
        Action::DataMode,
        Action::Write(buffer),
    ]);
}

/// How a flush ends. If no operation fails it ends without a fault after
/// the two address commands, the switch to data mode and the one write of the
/// whole buffer. If the switch to data mode fails, a pin fault is returned and
/// the buffer is not written. If the write of the buffer fails, a transport
/// fault is returned. Whatever fails, nothing is attempted after it.
pub proof fn lemma_flush_outcomes(
    before: Seq<Attempt>,
    after: Seq<Attempt>,
    buffer: Seq<u8>,
    fault: Option<Error>,
)
    requires
        ran(before, after, flush_program(buffer), fault),
    ensures
        before.len() <= after.len() <= before.len() + 6,
        (forall|i: int| before.len() <= i < after.len() ==> after[i].ok) ==> fault is None,
        fault is None ==> after == before + succeeded(
            seq![
                Action::CommandMode,
                Action::Write(seq![0x15u8, 0u8, 95u8]),
                Action::CommandMode,
                Action::Write(seq![0x75u8, 0u8, 63u8]),
                Action::DataMode,
                Action::Write(buffer),
            ],
        ),
        fault is Some ==> !after.last().ok && (forall|i: int|
            before.len() <= i < after.len() - 1 ==> after[i].ok),
        fault is Some && after.len() == before.len() + 5 ==> after.last().action
            == Action::DataMode && fault == Some(Error::Pin),
        fault is Some && after.len() == before.len() + 6 ==> after.last().action == Action::Write(
            buffer,
        ) && fault == Some(Error::Comm),
{
    lemma_flush_program(buffer);
    lemma_outcome_follows_attempts(before, after, flush_program(buffer), fault);
}

/// How a reset ends. If no pin operation fails it ends without a fault after
/// high, 1 ms, low, 10 ms, high. Otherwise a pin fault is returned and
/// nothing is attempted after the operation that failed.
pub proof fn lemma_reset_outcomes(before: Seq<Attempt>, after: Seq<Attempt>, fault: Option<Error>)
    requires
        ran(before, after, reset_program(), fault),
    ensures
        (forall|i: int| before.len() <= i < after.len() ==> after[i].ok) ==> fault is None,
        fault is None ==> after == before + succeeded(reset_program()),
        fault is Some ==> fault == Some(Error::Pin) && !after.last().ok && (forall|i: int|
            before.len() <= i < after.len() - 1 ==> after[i].ok),
{
    lemma_outcome_follows_attempts(before, after, reset_program(), fault);
}

/// In an upright rotation a pixel is kept exactly if `x` is below the native
/// width of 96 and its two bytes lie inside the buffer; its offset is then
/// `2 * (y * 96 + x)`. Every pixel of the 96 x 64 panel is kept, and `y` is
/// never held against the height by itself.
pub proof fn lemma_offset_upright(rotation: DisplayRotation, x: int, y: int)
    requires
        !rotation.is_sideways(),
        0 <= x,
        0 <= y,
    ensures
        pixel_offset(rotation, x, y) == (if x < 96 && 2 * (y * 96 + x) < BUF_SIZE - 1 {
            Some(2 * (y * 96 + x))
        } else {
            None
        }),
        x < 96 && y < 64 ==> pixel_offset(rotation, x, y) == Some(2 * (y * 96 + x)),
        x >= 96 || y >= 64 ==> pixel_offset(rotation, x, y) is None,
{
}

/// In a sideways rotation a pixel is kept exactly if `y` is below the native
/// width of 96 and its two bytes lie inside the buffer; its offset is then
/// `2 * (y * 64 + x)`. So every pixel with `y` of 96 or more is dropped
/// whatever its `x`, every pixel of the 64 x 96 logical area is kept, and `x`
/// is never held against a bound by itself.
pub proof fn lemma_offset_sideways(rotation: DisplayRotation, x: int, y: int)
    requires
        rotation.is_sideways(),
        0 <= x,
        0 <= y,
    ensures
        pixel_offset(rotation, x, y) == (if y < 96 && 2 * (y * 64 + x) < BUF_SIZE - 1 {
            Some(2 * (y * 64 + x))
        } else {
            None
        }),
        y >= 96 ==> pixel_offset(rotation, x, y) is None,
        x < 64 && y < 96 ==> pixel_offset(rotation, x, y) == Some(2 * (y * 64 + x)),
{
}

/// Whatever the rotation, a pixel that is kept has both of its bytes inside the buffer.
pub proof fn lemma_offset_in_buffer(rotation: DisplayRotation, x: int, y: int)
    requires
        0 <= x,
        0 <= y,
    ensures
        pixel_offset(rotation, x, y) matches Some(offset) ==> 0 <= offset && offset + 1 < BUF_SIZE
            && offset % 2 == 0,
{
}

/// The two bytes of a pixel are its value in big-endian order: the upper
/// eight bits first, then the lower eight.
pub proof fn lemma_value_bytes(value: u16)
    ensures
        value / 256 == value >> 8,
        value % 256 == value & 0xFF,
        value / 256 <= 255,
        value == (value / 256) * 256 + value % 256,
{
    assert(value / 256 == value >> 8) by (bit_vector);
    assert(value % 256 == value & 0xFF) by (bit_vector);
}

/// A pixel that is not dropped changes exactly two bytes: the high byte of
/// the value at its offset and the low byte right after it. A dropped pixel
/// changes nothing.
pub proof fn lemma_plot_writes_two_bytes(
    buffer: Seq<u8>,
    rotation: DisplayRotation,
    x: int,
    y: int,
    value: u16,
)
    requires
        buffer.len() == BUF_SIZE,
        0 <= x,
        0 <= y,
    ensures
        plot(buffer, rotation, x, y, value).len() == BUF_SIZE,
        pixel_offset(rotation, x, y) is None ==> plot(buffer, rotation, x, y, value) == buffer,
        pixel_offset(rotation, x, y) matches Some(offset) ==> {
            let after = plot(buffer, rotation, x, y, value);
            &&& 0 <= offset < BUF_SIZE - 1
            &&& after[offset] == value / 256
            &&& after[offset + 1] == value % 256
            &&& forall|i: int|
                0 <= i < BUF_SIZE && i != offset && i != offset + 1 ==> after[i] == buffer[i]
        },
{
}

/// SSD1331 display: framebuffer, rotation and interface.
pub struct Ssd1331<SPI, DC> {
    buffer: [u8; BUF_SIZE],
    display_rotation: DisplayRotation,
    iface: Interface<SPI, DC>,
}

impl<SPI, DC> View for Ssd1331<SPI, DC> {
    type V = DisplayState;

    closed spec fn view(&self) -> DisplayState {
        DisplayState {
            buffer: self.buffer@,
            rotation: self.display_rotation,
            trace: self.iface.trace(),
        }
    }
}

impl<SPI, DC> Ssd1331<SPI, DC> {
    /// The transport and the data/command line that the display holds.
    pub closed spec fn handles(&self) -> (SPI, DC) {
        (self.iface.transport(), self.iface.control_line())
    }

    /// The framebuffer always has `BUF_SIZE` bytes.
    pub proof fn lemma_buffer_len(&self)
        ensures
            self@.buffer.len() == BUF_SIZE,
    {
    }
}

impl<SPI, DC> Ssd1331<SPI, DC> where
    SPI: embedded_hal::blocking::spi::Write<u8>,
    DC: embedded_hal::digital::v2::OutputPin,
 {
    /// Creates a display with a blank framebuffer. Nothing is sent.
    pub fn new(spi: SPI, dc: DC, display_rotation: DisplayRotation) -> (out: Self)
        ensures
            out@.buffer == blank(),
            out@.rotation == display_rotation,
            out@.trace == Seq::<Attempt>::empty(),
            out.handles() == (spi, dc),
    {
        let out = Ssd1331 { buffer: [0; BUF_SIZE], display_rotation, iface: Interface::new(spi, dc) };
        assert(out.buffer@ =~= blank());
        out
    }

    /// Hands back the transport and the data/command line.
    pub fn release(self) -> (out: (SPI, DC))
        ensures
            out == self.handles(),
    {
        self.iface.release()
    }

    /// Blanks the framebuffer. Nothing is sent.
    pub fn clear(&mut self)
        ensures
            final(self)@ == (DisplayState { buffer: blank(), ..old(self)@ }),
            final(self).handles() == old(self).handles(),
    {
        self.buffer = [0; BUF_SIZE];
        assert(self.buffer@ =~= blank());
    }

    /// Pulses the hardware reset line: high, wait 1 ms, low, wait 10 ms, high.
    ///
    /// The first pin failure ends the pulse at once and is returned; if no
    /// pin operation fails the result is `Ok`.
    pub fn reset<RST, DELAY>(&mut self, rst: &mut RST, delay: &mut DELAY) -> (r: Result<
        (),
        Error,
    >) where
        RST: embedded_hal::digital::v2::OutputPin,
        DELAY: embedded_hal::blocking::delay::DelayMs<u8>,

        ensures
            ran(old(self)@.trace, final(self)@.trace, reset_program(), fault_of(r)),
            final(self)@.buffer == old(self)@.buffer,
            final(self)@.rotation == old(self)@.rotation,
            final(self).handles() == old(self).handles(),
    {
        self.iface.pulse_reset(rst, delay)
    }

    /// Sends the whole framebuffer: the full-screen draw window, then the buffer as data.
    ///
    /// The first failure ends the transmission and is returned; if nothing
    /// fails the result is `Ok`. The framebuffer is only read.
    pub fn flush(&mut self) -> (r: Result<(), Error>)
        ensures
            ran(
                old(self)@.trace,
                final(self)@.trace,
                flush_program(old(self)@.buffer),
                fault_of(r),
            ),
            final(self)@.buffer == old(self)@.buffer,
            final(self)@.rotation == old(self)@.rotation,
    {
        let ghost before = self@.trace;
        let ghost window = commands_program(draw_area_commands((0, 0), (96, 64)));
        let ghost data = data_program(self@.buffer);
        let area = self.set_draw_area((0, 0), (DISPLAY_WIDTH, DISPLAY_HEIGHT));
        match area {
            Err(e) => {
                proof {
                    lemma_ran_stops(before, self@.trace, window, data, e);
                }
                Err(e)
            },
            Ok(()) => {
                let ghost mid = self@.trace;
                let r = self.iface.send_data(self.buffer.as_slice());
                proof {
                    lemma_ran_then(before, mid, self@.trace, window, data, fault_of(r));
                }
                r
            },
        }
    }

    /// Sets the draw window from `start` up to, but not including, `end`.
    ///
    /// The end corner must not be zero in either direction. The window is not
    /// held against `start`: a reversed window is sent as given. The first
    /// failure ends the transmission and is returned; if nothing fails the
    /// result is `Ok`.
    pub fn set_draw_area(&mut self, start: (u8, u8), end: (u8, u8)) -> (r: Result<(), Error>)
        requires
            0 < end.0,
            0 < end.1,
        ensures
            ran(
                old(self)@.trace,
                final(self)@.trace,
                commands_program(draw_area_commands(start, end)),
                fault_of(r),
            ),
            final(self)@.buffer == old(self)@.buffer,
            final(self)@.rotation == old(self)@.rotation,
    {
        let commands = draw_area_sequence(start, end);
        send_all(commands.as_slice(), &mut self.iface)
    }

    /// Sets logical pixel (x, y) to an RGB565 value, high byte first.
    ///
    /// A pixel that falls outside the buffer is dropped without notice: the
    /// call returns normally and changes nothing. Only one coordinate is held
    /// against the native width, `x` in the upright rotations and `y` in the
    /// sideways ones; the other is limited by the end of the buffer alone, so
    /// a coordinate beyond the logical width can land in a later row.
    pub fn set_pixel(&mut self, x: u32, y: u32, value: u16)
        ensures
            final(self)@ == (DisplayState {
                buffer: plot(old(self)@.buffer, old(self)@.rotation, x as int, y as int, value),
                ..old(self)@
            }),
            final(self).handles() == old(self).handles(),
    {
        let wide_x: u64 = x as u64;
        let wide_y: u64 = y as u64;
        let pixel: u64 = if self.display_rotation.sideways() {
            if y >= DISPLAY_WIDTH as u32 {
                return ;
            }
            wide_y * 64 + wide_x
        } else {
            if x >= DISPLAY_WIDTH as u32 {
                return ;
            }
            wide_y * 96 + wide_x
        };
        let offset: u64 = pixel * 2;
        if offset >= (BUF_SIZE as u64) - 1 {
            return ;
        }
        let at: usize = offset as usize;
        self.buffer.set(at, (value / 256) as u8);
        self.buffer.set(at + 1, (value % 256) as u8);
    }

    /// Draws the pixels in order; pixels left of or above the origin are skipped.
    pub fn draw(&mut self, pixels: &[Pixel])
        ensures
            final(self)@ == (DisplayState {
                buffer: paint(old(self)@.buffer, old(self)@.rotation, pixels@),
                ..old(self)@
            }),
            final(self).handles() == old(self).handles(),
    {
        let mut i: usize = 0;
        while i < pixels.len()
            invariant
                i <= pixels.len(),
                self@ == (DisplayState {
                    buffer: paint(old(self)@.buffer, old(self)@.rotation, pixels@.take(i as int)),
                    ..old(self)@
                }),
                self.handles() == old(self).handles(),
            decreases pixels.len() - i,
        {
            let pixel = pixels[i];
            proof {
                let upto = pixels@.take(i + 1);
                assert(upto.drop_last() =~= pixels@.take(i as int));
                assert(upto.last() == pixel);
            }
            if pixel.x >= 0 && pixel.y >= 0 {
                self.set_pixel(pixel.x as u32, pixel.y as u32, pixel.color);
            }
            i += 1;
        }
        proof {
            assert(pixels@.take(pixels.len() as int) =~= pixels@);
        }
    }

    /// Brings the controller up: the fixed command sequence for the current rotation.
    ///
    /// The first failure ends the sequence and is returned; nothing is rolled
    /// back. If nothing fails the result is `Ok`.
    pub fn init(&mut self) -> (r: Result<(), Error>)
        ensures
            ran(
                old(self)@.trace,
                final(self)@.trace,
                commands_program(init_commands(old(self)@.rotation)),
                fault_of(r),
            ),
            final(self)@.buffer == old(self)@.buffer,
            final(self)@.rotation == old(self)@.rotation,
    {
        let commands = init_sequence(self.display_rotation);
        send_all(commands.as_slice(), &mut self.iface)
    }

    /// Logical (width, height), which depends on the rotation.
    pub fn dimensions(&self) -> (out: (u8, u8))
        ensures
            out == self@.rotation.logical_size(),
    {
        if self.display_rotation.sideways() {
            (DISPLAY_HEIGHT, DISPLAY_WIDTH)
        } else {
            (DISPLAY_WIDTH, DISPLAY_HEIGHT)
        }
    }

    /// Stores the rotation and sends the matching remap command.
    ///
    /// The rotation is stored even if the command cannot be sent. A failure
    /// of the pin or of the write is returned; otherwise the result is `Ok`.
    pub fn set_rotation(&mut self, rot: DisplayRotation) -> (r: Result<(), Error>)
        ensures
            final(self)@.rotation == rot,
            final(self)@.buffer == old(self)@.buffer,
            ran(
                old(self)@.trace,
                final(self)@.trace,
                Command::remap_for(rot).program(),
                fault_of(r),
            ),
    {
        self.display_rotation = rot;
        Command::remap(rot).send(&mut self.iface)
    }

    /// The current rotation.
    pub fn rotation(&self) -> (out: DisplayRotation)
        ensures
            out == self@.rotation,
    {
        self.display_rotation
    }
}

} // verus!
