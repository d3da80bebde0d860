//! A display without a framebuffer: the caller keeps the pixel data and hands it over to be sent.

use crate::command::{
    commands_program, draw_area_commands, draw_area_sequence, init_commands, init_sequence,
    send_all, Command,
};
use crate::displayrotation::DisplayRotation;
use crate::error::Error;
use crate::interface::{data_program, ran, Action, Attempt, Interface};
use crate::{DISPLAY_HEIGHT, DISPLAY_WIDTH};
use vstd::prelude::*;

verus! {

/// What a `Properties` value is, as far as its contracts are concerned.
///
/// The transport and the data/command line are not part of it, since every
/// operation on the bus may change them; `Properties::handles` speaks of
/// them where they are handed over.
pub struct PropertiesState {
    /// The current rotation.
    pub rotation: DisplayRotation,
    /// Every hardware operation attempted so far, with its outcome, oldest first.
    pub trace: Seq<Attempt>,
}

/// Like `ran`, for a result that does not say which kind of operation failed:
/// `Ok` exactly if every operation of the program was attempted and
/// succeeded, `Err` exactly if the run stopped at an operation that failed.
pub open spec fn ran_blind(
    before: Seq<Attempt>,
    after: Seq<Attempt>,
    program: Seq<Action>,
    r: Result<(), ()>,
) -> bool {
    match r {
        Ok(_) => ran(before, after, program, None),
        Err(_) => ran(before, after, program, Some(Error::Comm)) || ran(
            before,
            after,
            program,
            Some(Error::Pin),
        ),
    }
}

/// Display properties: the rotation and the interface.
pub struct Properties<SPI, DC> {
    iface: Interface<SPI, DC>,
    display_rotation: DisplayRotation,
}

impl<SPI, DC> View for Properties<SPI, DC> {
    type V = PropertiesState;

    closed spec fn view(&self) -> PropertiesState {
        PropertiesState { rotation: self.display_rotation, trace: self.iface.trace() }
    }
}

impl<SPI, DC> Properties<SPI, DC> {
    /// The transport and the data/command line that this value holds.
    pub closed spec fn handles(&self) -> (SPI, DC) {
        (self.iface.transport(), self.iface.control_line())
    }
}

impl<SPI, DC> Properties<SPI, DC> where
    SPI: embedded_hal::blocking::spi::Write<u8>,
    DC: embedded_hal::digital::v2::OutputPin,
 {
    /// Takes ownership of the two handles. Nothing is sent.
    pub fn new(spi: SPI, dc: DC, display_rotation: DisplayRotation) -> (out: Self)
        ensures
            out@.rotation == display_rotation,
            out@.trace == Seq::<Attempt>::empty(),
            out.handles() == (spi, dc),
    {
        Properties { iface: Interface::new(spi, dc), display_rotation }
    }

    /// Brings the controller up: the fixed command sequence for the current rotation.
    ///
    /// The first failure ends the sequence.
    pub fn init_column_mode(&mut self) -> (r: Result<(), ()>)
        ensures
            ran_blind(
                old(self)@.trace,
                final(self)@.trace,
                commands_program(init_commands(old(self)@.rotation)),
                r,
            ),
            final(self)@.rotation == old(self)@.rotation,
    {
        let commands = init_sequence(self.display_rotation);
        Error::blind(send_all(commands.as_slice(), &mut self.iface))
    }

    /// Sets the draw window from `start` up to, but not including, `end`.
    ///
    /// The end corner must not be zero in either direction. The window is not
    /// held against `start`: a reversed window is sent as given. The first
    /// failure ends the transmission; if nothing fails the result is `Ok`.
    pub fn set_draw_area(&mut self, start: (u8, u8), end: (u8, u8)) -> (r: Result<(), ()>)
        requires
            0 < end.0,
            0 < end.1,
        ensures
            ran_blind(
                old(self)@.trace,
                final(self)@.trace,
                commands_program(draw_area_commands(start, end)),
                r,
            ),
            final(self)@.rotation == old(self)@.rotation,
    {
        let commands = draw_area_sequence(start, end);
        Error::blind(send_all(commands.as_slice(), &mut self.iface))
    }

    /// Sends pixel data into the current draw window: data mode, then the bytes.
    pub fn draw(&mut self, buffer: &[u8]) -> (r: Result<(), ()>)
        ensures
            ran_blind(old(self)@.trace, final(self)@.trace, data_program(buffer@), r),
            final(self)@.rotation == old(self)@.rotation,
    {
        Error::blind(self.iface.send_data(buffer))
    }

    /// Logical (width, height), which depends on the rotation.
    pub fn dimensions(&self) -> (out: (u8, u8))
        ensures
            out == self@.rotation.logical_size(),
    {
        if self.display_rotation.sideways() {
            (DISPLAY_HEIGHT, DISPLAY_WIDTH)
        } else {
            (DISPLAY_WIDTH, DISPLAY_HEIGHT)
        }
    }

    /// The current rotation.
    pub fn rotation(&self) -> (out: DisplayRotation)
        ensures
            out == self@.rotation,
    {
        self.display_rotation
    }

    /// Stores the rotation and sends the matching remap command.
    ///
    /// The rotation is stored even if the command cannot be sent. Any
    /// failure gives `Err`; otherwise the result is `Ok`.
    pub fn set_rotation(&mut self, display_rotation: DisplayRotation) -> (r: Result<(), ()>)
        ensures
            final(self)@.rotation == display_rotation,
            ran_blind(
                old(self)@.trace,
                final(self)@.trace,
                Command::remap_for(display_rotation).program(),
                r,
            ),
    {
        self.display_rotation = display_rotation;
        Error::blind(Command::remap(display_rotation).send(&mut self.iface))
    }
}

} // verus!
