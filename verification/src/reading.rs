//! The value produced by one successful sensor poll, and the error taxonomy of
//! the device: a failed poll, a failed controller initialisation, and a failed
//! bus transfer of a frame.
//!
//! Temperature and humidity are carried in tenths (one decimal digit of
//! precision), so a reading is a pair of plain integers: `235` tenths of a
//! degree is 23.5 degrees Celsius, `410` tenths of a percent is 41% relative
//! humidity.

use vstd::prelude::*;

verus! {

/// An immutable temperature/humidity pair from one sensor poll.
///
/// Relative humidity is a percentage, so a well-formed reading keeps it
/// within 0..=100% (0..=1000 tenths).
#[derive(Clone, Copy, PartialEq, Eq, Structural, Debug)]
pub struct Reading {
    /// Temperature in tenths of a degree Celsius; may be negative.
    pub temp_tenths: i32,
    /// Relative humidity in tenths of a percent.
    pub humidity_tenths: u32,
}

impl Reading {
    /// Humidity is a percentage: at most 100% (1000 tenths).
    pub open spec fn wf(self) -> bool {
        self.humidity_tenths <= 1000
    }

    /// Builds a reading, rejecting a humidity above 100%.
    pub fn new(temp_tenths: i32, humidity_tenths: u32) -> (r: Option<Reading>)
        ensures
            humidity_tenths <= 1000 <==> r is Some,
            r is Some ==> r->0 == (Reading { temp_tenths, humidity_tenths }) && r->0.wf(),
    {
        if humidity_tenths <= 1000 {
            Some(Reading { temp_tenths, humidity_tenths })
        } else {
            None
        }
    }
}

/// One sensor poll failed; transient, the loop retries on the next cycle.
#[derive(Clone, Copy, PartialEq, Eq, Structural, Debug)]
pub enum SensorError {
    /// The received bits did not match their checksum.
    ChecksumMismatch,
    /// The data line did not transition within the protocol deadline.
    Timeout,
    /// The sensor never answered the start signal.
    NoResponse,
}

/// The display controller did not acknowledge its initialisation commands;
/// fatal, nothing can ever be rendered.
#[derive(Clone, Copy, PartialEq, Eq, Structural, Debug)]
pub struct InitError;

/// A frame transfer over the bus did not complete; the frame shown on the
/// physical display stays whatever was last transferred successfully.
#[derive(Clone, Copy, PartialEq, Eq, Structural, Debug)]
pub struct DisplayIOError;

} // verus!
