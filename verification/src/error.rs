//! The ways an engine operation can fail.

use vstd::prelude::*;

verus! {

/// The frame rate of a stream, as the fraction the backend reports.
#[derive(Clone, Copy, Debug, PartialEq, Eq, Structural)]
pub struct Framerate {
    pub numer: i32,
    pub denom: i32,
}

impl Framerate {
    /// Whether the fraction is a finite number greater than zero: the
    /// denominator is not zero and both parts have the same sign.
    pub open spec fn is_valid(self) -> bool {
        self.denom != 0 && self.numer * self.denom > 0
    }

    /// Tells whether the fraction is a finite number greater than zero.
    pub fn valid(&self) -> (r: bool)
        ensures
            r == self.is_valid(),
    {
        let same_sign = (self.numer > 0 && self.denom > 0) || (self.numer < 0 && self.denom < 0);
        proof {
            let n = self.numer as int;
            let d = self.denom as int;
            assert(same_sign == (d != 0 && n * d > 0)) by (nonlinear_arith)
                requires
                    same_sign == ((n > 0 && d > 0) || (n < 0 && d < 0)),
            ;
        }
        same_sign
    }
}

/// Why an engine operation failed.
#[derive(Clone, Copy, Debug, PartialEq, Eq, Structural)]
pub enum Error {
    /// The backend could not be initialised.
    Init,
    /// The capabilities of the stream could not be read, or the playback
    /// position could not be queried.
    Caps,
    /// The stream reports a frame rate that is not a finite positive number.
    Framerate(Framerate),
    /// An element of the pipeline is not of the kind the engine needs.
    Cast,
    /// The backend rejected a seek or a change of rate.
    Seek,
    /// A lock on shared state was poisoned, or a frame could not be read.
    Lock,
    /// The backend refused a change of state.
    StateChange,
}

} // verus!
