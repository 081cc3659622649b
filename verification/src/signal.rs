//! Signals, by the system's numbers for them.

use crate::error::Error;
use nix::errno::Errno;
use vstd::prelude::*;

verus! {

/// `nix`'s signal, as `Signal::try_from` gives it.
#[verifier::external_type_specification]
#[verifier::external_body]
pub struct ExSignal(nix::sys::signal::Signal);

/// `nix`'s error number, which `Signal::try_from` gives for a number that
/// names no signal.
#[verifier::external_type_specification]
#[verifier::external_body]
pub struct ExErrno(Errno);

/// `Signal::try_from` of `nix`. Which numbers name a signal differs between
/// systems, so nothing is claimed of the outcome.
#[verifier::external_body]
fn signal_of(number: i32) -> (signal: Result<nix::sys::signal::Signal, Errno>) {
    nix::sys::signal::Signal::try_from(number)
}

/// The signal that a number names on this system, or `InvalidSignal` with
/// that number. Whether a number names a signal is for `nix` to say; the
/// signal that comes back is the one with the number asked for.
pub fn parse_signal(number: i32) -> (signal: Result<SignalNumber, Error>)
    ensures
        match signal {
            Ok(signal) => signal.code() == number,
            Err(error) => error == (Error::InvalidSignal { number }),
        },
{
    match signal_of(number) {
        Ok(_) => Ok(SignalNumber { number }),
        Err(_) => Err(Error::InvalidSignal { number }),
    }
}

/// A signal of this system, held by its number. Only `parse_signal` makes
/// one, so the number of every signal is one that `nix` took for a signal.
#[derive(Clone, Copy, Debug, PartialEq, Eq, Structural)]
pub struct SignalNumber {
    number: i32,
}

impl SignalNumber {
    /// The system's number for the signal.
    pub closed spec fn code(self) -> int {
        self.number as int
    }

    /// The system's number for the signal.
    pub fn number(&self) -> (number: i32)
        ensures
            number == self.code(),
    {
        self.number
    }
}

/// A signal is known by its number.
pub proof fn lemma_signal_known_by_number(a: SignalNumber, b: SignalNumber)
    requires
        a.code() == b.code(),
    ensures
        a == b,
{
}

} // verus!
