//! The transport and the data/command line, together with a ghost record of
//! everything the driver asked of the hardware.

use crate::error::Error;
use vstd::prelude::*;

verus! {

/// One operation attempted on the hardware.
pub enum Action {
    /// The data/command line driven low: the bytes that follow are a command.
    CommandMode,
    /// The data/command line driven high: the bytes that follow are pixel data.
    DataMode,
    /// One blocking write of these bytes on the transport.
    Write(Seq<u8>),
    /// The reset line driven high.
    ResetHigh,
    /// The reset line driven low.
    ResetLow,
    /// A blocking pause of this many milliseconds.
    Delay(u8),
}

impl Action {
    /// How this operation can fail, if it can.
    pub open spec fn fault(self) -> Option<Error> {
        match self {
            Action::Write(_) => Some(Error::Comm),
            Action::Delay(_) => None,
            _ => Some(Error::Pin),
        }
    }
}

/// One operation attempted on the hardware, with its outcome.
pub struct Attempt {
    /// What was asked of the hardware.
    pub action: Action,
    /// Whether the hardware reported success. A pause always succeeds.
    pub ok: bool,
}

/// The failure a result carries, or `None` for success.
pub open spec fn fault_of(r: Result<(), Error>) -> Option<Error> {
    match r {
        Ok(_) => None,
        Err(e) => Some(e),
    }
}

/// The record of a program of which every operation was attempted and succeeded.
pub open spec fn succeeded(program: Seq<Action>) -> Seq<Attempt> {
    Seq::new(program.len(), |i: int| Attempt { action: program[i], ok: true })
}

/// The record of a program that stopped at its operation `n`, counted from
/// one: the operations before it succeeded, it failed, and none after it was
/// attempted.
pub open spec fn stopped(program: Seq<Action>, n: int) -> Seq<Attempt> {
    succeeded(program.take(n - 1)).push(Attempt { action: program[n - 1], ok: false })
}

/// Relates two traces to a program of operations and the way its run ended.
///
/// The run ended without a fault exactly if every operation of the program
/// was attempted, in order, and succeeded. It ended with a fault exactly if
/// the operations were attempted in order up to one that failed, nothing was
/// attempted after it, and the fault is of the kind that this operation
/// produces.
pub open spec fn ran(
    before: Seq<Attempt>,
    after: Seq<Attempt>,
    program: Seq<Action>,
    fault: Option<Error>,
) -> bool {
    let n = after.len() - before.len();
    match fault {
        None => after == before + succeeded(program),
        Some(f) => {
            &&& 0 < n <= program.len()
            &&& after == before + stopped(program, n)
            &&& program[n - 1].fault() == Some(f)
        },
    }
}

/// A run of the empty program leaves the trace as it was.
pub proof fn lemma_ran_nothing(t: Seq<Attempt>)
    ensures
        ran(t, t, Seq::empty(), None),
{
    assert(t + succeeded(Seq::<Action>::empty()) =~= t);
}

/// A successful run followed by a second run is a run of the two programs in sequence.
pub proof fn lemma_ran_then(
    a: Seq<Attempt>,
    b: Seq<Attempt>,
    c: Seq<Attempt>,
    first: Seq<Action>,
    second: Seq<Action>,
    fault: Option<Error>,
)
    requires
        ran(a, b, first, None),
        ran(b, c, second, fault),
    ensures
        ran(a, c, first + second, fault),
{
    match fault {
        None => {
            assert((a + succeeded(first)) + succeeded(second) =~= a + succeeded(first + second));
        },
        Some(_) => {
            let n = c.len() - b.len();
            assert((a + succeeded(first)) + stopped(second, n) =~= a + stopped(
                first + second,
                first.len() + n,
            ));
        },
    }
}

/// A run that failed inside a program also failed inside any longer program that starts with it.
pub proof fn lemma_ran_stops(
    a: Seq<Attempt>,
    b: Seq<Attempt>,
    first: Seq<Action>,
    rest: Seq<Action>,
    fault: Error,
)
    requires
        ran(a, b, first, Some(fault)),
    ensures
        ran(a, b, first + rest, Some(fault)),
{
    let n = b.len() - a.len();
    assert(stopped(first, n) =~= stopped(first + rest, n));
}

/// The result of a run follows from what the hardware reported: the run
/// ended without a fault exactly if no attempt of it failed, and then the
/// whole program was attempted. If an attempt failed it is the last one, and
/// the fault is the one that its operation produces.
pub proof fn lemma_outcome_follows_attempts(
    before: Seq<Attempt>,
    after: Seq<Attempt>,
    program: Seq<Action>,
    fault: Option<Error>,
)
    requires
        ran(before, after, program, fault),
    ensures
        before.len() <= after.len() <= before.len() + program.len(),
        after.take(before.len() as int) == before,
        forall|i: int|
            before.len() <= i < after.len() ==> after[i].action == program[i - before.len()],
        forall|i: int| before.len() <= i < after.len() - 1 ==> after[i].ok,
        fault is None <==> (forall|i: int| before.len() <= i < after.len() ==> after[i].ok),
        fault is None ==> after.len() == before.len() + program.len(),
        fault is Some ==> after.len() > before.len() && !after.last().ok
            && after.last().action.fault() == fault,
{
    assert(after.take(before.len() as int) =~= before);
    if fault is Some {
        assert(!after[after.len() - 1].ok);
    }
}

/// Success is owed: a run of which no attempt failed ended without a fault,
/// and attempted the whole program.
pub proof fn lemma_success_is_owed(
    before: Seq<Attempt>,
    after: Seq<Attempt>,
    program: Seq<Action>,
    fault: Option<Error>,
)
    requires
        ran(before, after, program, fault),
        forall|i: int| before.len() <= i < after.len() ==> after[i].ok,
    ensures
        fault is None,
        after == before + succeeded(program),
{
    lemma_outcome_follows_attempts(before, after, program, fault);
}

/// A failure is reported: if attempt `k` of a run failed, the run ended with
/// the fault of that operation, a transport fault for a write and a pin fault
/// for a pin, and nothing was attempted after it.
pub proof fn lemma_failure_is_reported(
    before: Seq<Attempt>,
    after: Seq<Attempt>,
    program: Seq<Action>,
    fault: Option<Error>,
    k: int,
)
    requires
        ran(before, after, program, fault),
        before.len() <= k < after.len(),
        !after[k].ok,
    ensures
        k == after.len() - 1,
        after[k].action == program[k - before.len()],
        fault is Some,
        fault == after[k].action.fault(),
        after[k].action is Write <==> fault == Some(Error::Comm),
{
    lemma_outcome_follows_attempts(before, after, program, fault);
}

/// Two runs of one program that left the same trace ended the same way.
pub proof fn lemma_outcome_is_unique(
    before: Seq<Attempt>,
    after: Seq<Attempt>,
    program: Seq<Action>,
    one: Option<Error>,
    other: Option<Error>,
)
    requires
        ran(before, after, program, one),
        ran(before, after, program, other),
    ensures
        one == other,
{
    lemma_outcome_follows_attempts(before, after, program, one);
    lemma_outcome_follows_attempts(before, after, program, other);
}

/// After a failed run the trace ends with the attempt that failed: a write
/// if the transport failed, a pin operation if a pin failed.
pub proof fn lemma_failure_is_last(
    before: Seq<Attempt>,
    after: Seq<Attempt>,
    program: Seq<Action>,
    fault: Error,
)
    requires
        ran(before, after, program, Some(fault)),
    ensures
        after.len() > before.len(),
        !after.last().ok,
        after.last().action.fault() == Some(fault),
        after.last().action is Write <==> fault == Error::Comm,
{
}

/// The programs of `parts`, one after the other.
pub open spec fn concat_all(parts: Seq<Seq<Action>>) -> Seq<Action>
    decreases parts.len(),
{
    if parts.len() == 0 {
        Seq::empty()
    } else {
        concat_all(parts.drop_last()) + parts.last()
    }
}

/// Appending a part appends its program.
pub proof fn lemma_concat_push(parts: Seq<Seq<Action>>, part: Seq<Action>)
    ensures
        concat_all(parts.push(part)) == concat_all(parts) + part,
{
    assert(parts.push(part).drop_last() =~= parts);
}

/// What `concat_all(parts)` holds after the first `k` parts.
pub open spec fn concat_from(parts: Seq<Seq<Action>>, k: int) -> Seq<Action>
    decreases parts.len(),
{
    if parts.len() <= k || parts.len() == 0 {
        Seq::empty()
    } else {
        concat_from(parts.drop_last(), k) + parts.last()
    }
}

/// The concatenation of all parts starts with the concatenation of the first `k`.
pub proof fn lemma_concat_split(parts: Seq<Seq<Action>>, k: int)
    requires
        0 <= k <= parts.len(),
    ensures
        concat_all(parts) == concat_all(parts.take(k)) + concat_from(parts, k),
    decreases parts.len(),
{
    if parts.len() == k {
        assert(parts.take(k) =~= parts);
        assert(concat_all(parts) + Seq::<Action>::empty() =~= concat_all(parts));
    } else {
        let init = parts.drop_last();
        lemma_concat_split(init, k);
        assert(init.take(k) =~= parts.take(k));
        assert((concat_all(parts.take(k)) + concat_from(init, k)) + parts.last() =~= concat_all(
            parts.take(k),
        ) + (concat_from(init, k) + parts.last()));
    }
}

/// Running part `i` after the parts before it: on success the first `i + 1`
/// parts have run, on failure the whole sequence has failed at that point.
pub proof fn lemma_ran_part(
    before: Seq<Attempt>,
    mid: Seq<Attempt>,
    after: Seq<Attempt>,
    parts: Seq<Seq<Action>>,
    i: int,
    fault: Option<Error>,
)
    requires
        0 <= i < parts.len(),
        ran(before, mid, concat_all(parts.take(i)), None),
        ran(mid, after, parts[i], fault),
    ensures
        fault is None ==> ran(before, after, concat_all(parts.take(i + 1)), None),
        fault is Some ==> ran(before, after, concat_all(parts), fault),
{
    let upto = parts.take(i + 1);
    assert(upto.drop_last() =~= parts.take(i));
    assert(upto.last() == parts[i]);
    assert(concat_all(upto) == concat_all(parts.take(i)) + parts[i]);
    lemma_ran_then(before, mid, after, concat_all(parts.take(i)), parts[i], fault);
    if let Some(f) = fault {
        lemma_concat_split(parts, i + 1);
        lemma_ran_stops(before, after, concat_all(upto), concat_from(parts, i + 1), f);
    }
}

/// The operations of one command frame: select command mode, then write the bytes.
pub open spec fn frame_program(bytes: Seq<u8>) -> Seq<Action> {
    seq![Action::CommandMode, Action::Write(bytes)]
}

/// The operations of one data transfer: select data mode, then write the bytes.
pub open spec fn data_program(bytes: Seq<u8>) -> Seq<Action> {
    seq![Action::DataMode, Action::Write(bytes)]
}

/// The hardware reset pulse: high, 1 ms, low, 10 ms, high.
pub open spec fn reset_program() -> Seq<Action> {
    seq![
        Action::ResetHigh,
        Action::Delay(1),
        Action::ResetLow,
        Action::Delay(10),
        Action::ResetHigh,
    ]
}

/// Calls `embedded_hal::blocking::spi::Write::write` on the transport.
///
/// Whether the write succeeds depends on the bus, so nothing is claimed of the
/// outcome. The transport's own error value is dropped.
#[verifier::external_body]
fn write_words<SPI>(spi: &mut SPI, words: &[u8]) -> (r: Result<(), ()>) where
    SPI: embedded_hal::blocking::spi::Write<u8>,
 {
    match spi.write(words) {
        Ok(()) => Ok(()),
        Err(_) => Err(()),
    }
}

/// Calls `embedded_hal::digital::v2::OutputPin::set_high` on the pin.
///
/// Whether the pin can be driven depends on the hardware, so nothing is claimed
/// of the outcome. The pin's own error value is dropped.
#[verifier::external_body]
fn drive_high<PIN>(pin: &mut PIN) -> (r: Result<(), ()>) where
    PIN: embedded_hal::digital::v2::OutputPin,
 {
    match pin.set_high() {
        Ok(()) => Ok(()),
        Err(_) => Err(()),
    }
}

/// Calls `embedded_hal::digital::v2::OutputPin::set_low` on the pin.
///
/// Whether the pin can be driven depends on the hardware, so nothing is claimed
/// of the outcome. The pin's own error value is dropped.
#[verifier::external_body]
fn drive_low<PIN>(pin: &mut PIN) -> (r: Result<(), ()>) where
    PIN: embedded_hal::digital::v2::OutputPin,
 {
    match pin.set_low() {
        Ok(()) => Ok(()),
        Err(_) => Err(()),
    }
}

/// Calls `embedded_hal::blocking::delay::DelayMs::delay_ms` on the delay service.
#[verifier::external_body]
fn pause_ms<DELAY>(delay: &mut DELAY, ms: u8) where
    DELAY: embedded_hal::blocking::delay::DelayMs<u8>,
 {
    delay.delay_ms(ms)
}

/// The transport and the data/command line of one display.
pub struct Interface<SPI, DC> {
    spi: SPI,
    dc: DC,
    trace: Ghost<Seq<Attempt>>,
}

impl<SPI, DC> Interface<SPI, DC> {
    /// Every hardware operation attempted through this interface, with its
    /// outcome, oldest first.
    pub closed spec fn trace(&self) -> Seq<Attempt> {
        self.trace@
    }

    /// The transport handle.
    pub closed spec fn transport(&self) -> SPI {
        self.spi
    }

    /// The data/command line handle.
    pub closed spec fn control_line(&self) -> DC {
        self.dc
    }

    /// Takes ownership of the two handles. Nothing is sent.
    pub fn new(spi: SPI, dc: DC) -> (out: Self)
        ensures
            out.trace() == Seq::<Attempt>::empty(),
            out.transport() == spi,
            out.control_line() == dc,
    {
        Interface { spi, dc, trace: Ghost(Seq::empty()) }
    }

    /// Hands the two handles back.
    pub fn release(self) -> (out: (SPI, DC))
        ensures
            out.0 == self.transport(),
            out.1 == self.control_line(),
    {
        (self.spi, self.dc)
    }
}

impl<SPI, DC> Interface<SPI, DC> where
    SPI: embedded_hal::blocking::spi::Write<u8>,
    DC: embedded_hal::digital::v2::OutputPin,
 {
    /// Drives the data/command line low and reports a failure of the pin.
    pub fn command_mode(&mut self) -> (r: Result<(), Error>)
        ensures
            final(self).trace() == old(self).trace().push(
                (Attempt { action: Action::CommandMode, ok: r is Ok }),
            ),
            r is Err ==> r == Err::<(), Error>(Error::Pin),
    {
        let outcome = drive_low(&mut self.dc);
        proof {
            self.trace@ = self.trace@.push(
                Attempt { action: Action::CommandMode, ok: outcome is Ok },
            );
        }
        Error::from_pin(outcome)
    }

    /// Drives the data/command line high and reports a failure of the pin.
    pub fn data_mode(&mut self) -> (r: Result<(), Error>)
        ensures
            final(self).trace() == old(self).trace().push(
                (Attempt { action: Action::DataMode, ok: r is Ok }),
            ),
            r is Err ==> r == Err::<(), Error>(Error::Pin),
    {
        let outcome = drive_high(&mut self.dc);
        proof {
            self.trace@ = self.trace@.push(Attempt { action: Action::DataMode, ok: outcome is Ok });
        }
        Error::from_pin(outcome)
    }

    /// Writes the bytes on the transport in one blocking call and reports a
    /// failure of the transport.
    pub fn write(&mut self, words: &[u8]) -> (r: Result<(), Error>)
        ensures
            final(self).trace() == old(self).trace().push(
                (Attempt { action: Action::Write(words@), ok: r is Ok }),
            ),
            r is Err ==> r == Err::<(), Error>(Error::Comm),
    {
        let outcome = write_words(&mut self.spi, words);
        proof {
            self.trace@ = self.trace@.push(
                Attempt { action: Action::Write(words@), ok: outcome is Ok },
            );
        }
        Error::from_comm(outcome)
    }

    /// Drives the reset line high and reports a failure of the pin.
    pub fn reset_line_high<RST>(&mut self, rst: &mut RST) -> (r: Result<(), Error>) where
        RST: embedded_hal::digital::v2::OutputPin,

        ensures
            final(self).trace() == old(self).trace().push(
                (Attempt { action: Action::ResetHigh, ok: r is Ok }),
            ),
            r is Err ==> r == Err::<(), Error>(Error::Pin),
            final(self).transport() == old(self).transport(),
            final(self).control_line() == old(self).control_line(),
    {
        let outcome = drive_high(rst);
        proof {
            self.trace@ = self.trace@.push(Attempt { action: Action::ResetHigh, ok: outcome is Ok });
        }
        Error::from_pin(outcome)
    }

    /// Drives the reset line low and reports a failure of the pin.
    pub fn reset_line_low<RST>(&mut self, rst: &mut RST) -> (r: Result<(), Error>) where
        RST: embedded_hal::digital::v2::OutputPin,

        ensures
            final(self).trace() == old(self).trace().push(
                (Attempt { action: Action::ResetLow, ok: r is Ok }),
            ),
            r is Err ==> r == Err::<(), Error>(Error::Pin),
            final(self).transport() == old(self).transport(),
            final(self).control_line() == old(self).control_line(),
    {
        let outcome = drive_low(rst);
        proof {
            self.trace@ = self.trace@.push(Attempt { action: Action::ResetLow, ok: outcome is Ok });
        }
        Error::from_pin(outcome)
    }

    /// Blocks for the given number of milliseconds.
    pub fn pause<DELAY>(&mut self, delay: &mut DELAY, ms: u8) where
        DELAY: embedded_hal::blocking::delay::DelayMs<u8>,

        ensures
            final(self).trace() == old(self).trace().push(
                (Attempt { action: Action::Delay(ms), ok: true }),
            ),
            final(self).transport() == old(self).transport(),
            final(self).control_line() == old(self).control_line(),
    {
        pause_ms(delay, ms);
        proof {
            self.trace@ = self.trace@.push(Attempt { action: Action::Delay(ms), ok: true });
        }
    }

    /// Sends one command frame: command mode, then the bytes.
    ///
    /// A pin failure is returned without the write being attempted; a failure
    /// of the write is returned; otherwise the result is `Ok`.
    pub fn send_frame(&mut self, bytes: &[u8]) -> (r: Result<(), Error>)
        ensures
            ran(old(self).trace(), final(self).trace(), frame_program(bytes@), fault_of(r)),
    {
        let ghost before = self.trace();
        let ghost p = frame_program(bytes@);
        let selected = self.command_mode();
        if let Err(e) = selected {
            proof {
                assert(self.trace() =~= before + stopped(p, 1));
            }
            return Err(e);
        }
        let r = self.write(bytes);
        proof {
            if r is Ok {
                assert(self.trace() =~= before + succeeded(p));
            } else {
                assert(self.trace() =~= before + stopped(p, 2));
            }
        }
        r
    }

    /// Sends pixel data: data mode, then the bytes.
    ///
    /// A pin failure is returned without the write being attempted; a failure
    /// of the write is returned; otherwise the result is `Ok`.
    pub fn send_data(&mut self, bytes: &[u8]) -> (r: Result<(), Error>)
        ensures
            ran(old(self).trace(), final(self).trace(), data_program(bytes@), fault_of(r)),
    {
        let ghost before = self.trace();
        let ghost p = data_program(bytes@);
        let selected = self.data_mode();
        if let Err(e) = selected {
            proof {
                assert(self.trace() =~= before + stopped(p, 1));
            }
            return Err(e);
        }
        let r = self.write(bytes);
        proof {
            if r is Ok {
                assert(self.trace() =~= before + succeeded(p));
            } else {
                assert(self.trace() =~= before + stopped(p, 2));
            }
        }
        r
    }

    /// Pulses the hardware reset line: high, wait 1 ms, low, wait 10 ms, high.
    ///
    /// The first pin failure ends the pulse at once and is returned; if no
    /// pin operation fails the result is `Ok`.
    pub fn pulse_reset<RST, DELAY>(&mut self, rst: &mut RST, delay: &mut DELAY) -> (r: Result<
        (),
        Error,
    >) where
        RST: embedded_hal::digital::v2::OutputPin,
        DELAY: embedded_hal::blocking::delay::DelayMs<u8>,

        ensures
            ran(old(self).trace(), final(self).trace(), reset_program(), fault_of(r)),
            final(self).transport() == old(self).transport(),
            final(self).control_line() == old(self).control_line(),
    {
        let ghost before = self.trace();
        let ghost p = reset_program();
        let first = self.reset_line_high(rst);
        if let Err(e) = first {
            proof {
                assert(self.trace() =~= before + stopped(p, 1));
            }
            return Err(e);
        }
        self.pause(delay, 1);
        let second = self.reset_line_low(rst);
        if let Err(e) = second {
            proof {
                assert(self.trace() =~= before + stopped(p, 3));
            }
            return Err(e);
        }
        self.pause(delay, 10);
        let third = self.reset_line_high(rst);
        proof {
            if third is Ok {
                assert(self.trace() =~= before + succeeded(p));
            } else {
                assert(self.trace() =~= before + stopped(p, 5));
            }
        }
        third
    }
}

} // verus!
