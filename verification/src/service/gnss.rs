//! Settings of the satellite navigation service.
use vstd::prelude::*;

use crate::serial::{spec_from_speed, BaudRate};

verus! {

/// Where the GNSS receiver is attached.
#[derive(Clone, Debug, PartialEq, Eq)]
pub struct GnssConfig {
    /// Path to the serial device
    pub device: String,
    /// Baud rate of the serial device
    pub baud_rate: usize,
}

impl GnssConfig {
    /// The line rate with which the service opens the receiver's port.
    pub fn line_rate(&self) -> (rate: BaudRate)
        ensures
            rate == spec_from_speed(self.baud_rate),
    {
        BaudRate::from_speed(self.baud_rate)
    }
}

} // verus!
