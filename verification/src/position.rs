//! Positions in the media and the seek requests made of them.

use crate::binary64::Binary64;
use crate::error::Error;
use vstd::prelude::*;
use vstd::std_specs::convert::FromSpecImpl;

verus! {

/// The count that the backend reserves to mean "no value".
pub const NO_COUNT: u64 = 0xFFFF_FFFF_FFFF_FFFF;

/// Position in the media.
#[derive(Debug, Clone, Copy, PartialEq, Eq, PartialOrd, Ord, Hash, Structural)]
pub enum Position {
    /// Position based on time, in nanoseconds from the start.
    ///
    /// Not the most accurate format for videos.
    Time(u64),
    /// Position based on nth frame.
    Frame(u64),
}

/// The unit a seek counts in.
#[derive(Debug, Clone, Copy, PartialEq, Eq, Structural)]
pub enum SeekFormat {
    /// Nanoseconds.
    Time,
    /// Frames.
    Frames,
}

/// What a bound of a seek is measured from.
#[derive(Debug, Clone, Copy, PartialEq, Eq, Structural)]
pub enum SeekEdge {
    /// From the start of the stream.
    Start,
    /// From the end of the stream.
    End,
}

/// A flushing seek, as the backend takes it.
#[derive(Debug, Clone, Copy, PartialEq, Eq, Structural)]
pub struct SeekRequest {
    /// The playback rate from the seek on; negative plays in reverse.
    pub rate: Binary64,
    /// Whether the pipeline drops what it holds of the old position. Every
    /// seek of the engine does.
    pub flush: bool,
    /// Whether to decode to the exact position rather than snap to the
    /// nearest keyframe.
    pub accurate: bool,
    /// The unit of `start` and `stop`.
    pub format: SeekFormat,
    pub start_edge: SeekEdge,
    /// Where playback begins; `None` leaves the bound open.
    pub start: Option<u64>,
    pub stop_edge: SeekEdge,
    /// Where playback ends; `None` leaves the bound open.
    pub stop: Option<u64>,
}

impl Position {
    /// The count the position holds.
    pub open spec fn count(self) -> u64 {
        match self {
            Position::Time(t) => t,
            Position::Frame(f) => f,
        }
    }

    /// The unit the position counts in.
    pub open spec fn format(self) -> SeekFormat {
        match self {
            Position::Time(_) => SeekFormat::Time,
            Position::Frame(_) => SeekFormat::Frames,
        }
    }

    /// Whether the backend can take the position: its count is not the one
    /// reserved for "no value".
    pub open spec fn is_seekable(self) -> bool {
        self.count() != NO_COUNT
    }

    /// The time position a duration of `nanos` nanoseconds stands for. The
    /// backend counts nanoseconds in 64 bits; higher bits are dropped.
    pub open spec fn of_nanos(nanos: u128) -> Position {
        Position::Time((nanos % 0x1_0000_0000_0000_0000) as u64)
    }

    /// The time position of a duration given in nanoseconds.
    pub fn from_nanos(nanos: u128) -> (p: Position)
        ensures
            p == Position::of_nanos(nanos),
    {
        Position::Time((nanos % 0x1_0000_0000_0000_0000) as u64)
    }

    /// Tells whether the backend can take the position.
    pub fn seekable(&self) -> (r: bool)
        ensures
            r == self.is_seekable(),
    {
        match self {
            Position::Time(t) => *t != NO_COUNT,
            Position::Frame(f) => *f != NO_COUNT,
        }
    }
}

impl From<u64> for Position {
    fn from(f: u64) -> (p: Position) {
        Position::Frame(f)
    }
}

impl FromSpecImpl<u64> for Position {
    open spec fn obeys_from_spec() -> bool {
        true
    }

    open spec fn from_spec(f: u64) -> Position {
        Position::Frame(f)
    }
}

impl SeekRequest {
    /// Whether the backend can take the request: no bound holds the count
    /// reserved for "no value".
    pub open spec fn well_formed(self) -> bool {
        self.start != Some(NO_COUNT) && self.stop != Some(NO_COUNT)
    }

    /// The result of a seek, given whether the backend accepted it: a seek
    /// that the backend rejects fails.
    pub open spec fn result(accepted: bool) -> Result<(), Error> {
        if accepted {
            Ok(())
        } else {
            Err(Error::Seek)
        }
    }

    /// Tells the result of a seek, given whether the backend accepted it.
    pub fn answered(accepted: bool) -> (result: Result<(), Error>)
        ensures
            result == SeekRequest::result(accepted),
    {
        if accepted {
            Ok(())
        } else {
            Err(Error::Seek)
        }
    }

    /// The seek that jumps to `position` and plays on from there at `rate`.
    pub open spec fn jump(rate: Binary64, position: Position, accurate: bool) -> SeekRequest {
        SeekRequest {
            rate,
            flush: true,
            accurate,
            format: position.format(),
            start_edge: SeekEdge::Start,
            start: Some(position.count()),
            stop_edge: SeekEdge::Start,
            stop: None,
        }
    }

    /// The seek that changes the rate of playback at the time `position`. A
    /// rate above zero plays from `position` to the end of the stream. Any
    /// other rate plays the stretch from the start of the stream to
    /// `position`, which a negative rate runs through backwards.
    pub open spec fn change_rate(rate: Binary64, position: u64) -> SeekRequest {
        if (Binary64 { bits: 0 }).lt(rate) {
            SeekRequest {
                rate,
                flush: true,
                accurate: true,
                format: SeekFormat::Time,
                start_edge: SeekEdge::Start,
                start: Some(position),
                stop_edge: SeekEdge::End,
                stop: Some(0),
            }
        } else {
            SeekRequest {
                rate,
                flush: true,
                accurate: true,
                format: SeekFormat::Time,
                start_edge: SeekEdge::Start,
                start: Some(0),
                stop_edge: SeekEdge::Start,
                stop: Some(position),
            }
        }
    }
}

} // verus!
