//! The record reported to the remote logging collaborator.
//!
//! Transport (HTTP client, TLS, serialization) lives outside this crate;
//! the library only fixes what one report carries: the measurement pair of
//! the iteration that produced it.

use vstd::prelude::*;

verus! {

/// One remote log report: the CO2 and PM2.5 readings of one control-loop
/// iteration.
#[derive(Debug, Clone, Copy, PartialEq, Eq, Structural)]
pub struct LogEntry {
    pub co2: u16,
    pub pm25: u16,
}

impl LogEntry {
    pub fn new(co2: u16, pm25: u16) -> (e: LogEntry)
        ensures
            e == (LogEntry { co2, pm25 }),
    {
        LogEntry { co2, pm25 }
    }
}

} // verus!
