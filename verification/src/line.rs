//! The digital lines that the driver works on.
//!
//! A line is whatever can answer "are you high?" or take the commands
//! "go low" and "go high", and may fail with an error of its own. The driver
//! is written against these two capabilities alone, so it runs on a board's
//! pins and on in-memory stand-ins alike.
//!
//! Neither trait promises anything of an outcome: what a line answers is
//! decided outside the driver. The driver's contracts therefore speak of a
//! line through `call_ensures`: for a mutable reference `line`,
//! `call_ensures(IN::is_high, (line,), level)` says that a call of `is_high`
//! which finds the line as `*line` may answer `level` and leave the line as
//! `*final(line)`. An implementation that states a contract of its own
//! hands it to the driver's callers this way.

use vstd::prelude::*;

verus! {

/// A digital input that can be asked for its level.
pub trait DigitalInput {
    /// What the line fails with.
    type Error;

    /// Whether the line is electrically high right now.
    fn is_high(&mut self) -> (level: Result<bool, Self::Error>);
}

/// A digital output that can be driven to either level.
pub trait DigitalOutput {
    /// What the line fails with.
    type Error;

    /// Drives the line low.
    fn set_low(&mut self) -> (outcome: Result<(), Self::Error>);

    /// Drives the line high.
    fn set_high(&mut self) -> (outcome: Result<(), Self::Error>);
}

} // verus!
