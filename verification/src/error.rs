//! The two ways a hardware operation can fail.

use vstd::prelude::*;

verus! {

/// Failure reported by the driver.
///
/// The value says which kind of operation failed; what the transport or the
/// pin reported underneath is not kept.
#[derive(Clone, Copy, Debug, PartialEq, Eq, Structural)]
pub enum Error {
    /// The transport rejected a write.
    Comm,
    /// A digital output could not be driven.
    Pin,
}

impl Error {
    /// Turns the outcome of a transport write into a driver result.
    pub fn from_comm(r: Result<(), ()>) -> (out: Result<(), Error>)
        ensures
            out == (if r is Ok {
                Ok::<(), Error>(())
            } else {
                Err::<(), Error>(Error::Comm)
            }),
    {
        match r {
            Ok(()) => Ok(()),
            Err(_) => Err(Error::Comm),
        }
    }

    /// Turns the outcome of a pin operation into a driver result.
    pub fn from_pin(r: Result<(), ()>) -> (out: Result<(), Error>)
        ensures
            out == (if r is Ok {
                Ok::<(), Error>(())
            } else {
                Err::<(), Error>(Error::Pin)
            }),
    {
        match r {
            Ok(()) => Ok(()),
            Err(_) => Err(Error::Pin),
        }
    }

    /// Forgets which kind of operation failed.
    pub fn blind(r: Result<(), Error>) -> (out: Result<(), ()>)
        ensures
            out is Ok <==> r is Ok,
    {
        match r {
            Ok(()) => Ok(()),
            Err(_) => Err(()),
        }
    }
}

} // verus!
