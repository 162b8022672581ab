//! What a run is started with: how much it logs, and the device it shows
//! itself as.

use vstd::prelude::*;

verus! {

/// How much of what happens is logged.
#[derive(Clone, Copy, Debug, PartialEq, Eq, Structural)]
pub enum LogLevel {
    /// Failures only.
    Error,
    /// Failures and the course of the run.
    Info,
    /// Everything.
    Debug,
}

/// The log level that the command line asks for, from how often it says
/// `quiet` and how often `verbose`: any `quiet` leaves failures only; else two
/// or more `verbose` log everything; else the course of the run is logged.
pub fn log_level(quiet: u8, verbose: u8) -> (level: LogLevel)
    ensures
        quiet > 0 ==> level == LogLevel::Error,
        quiet == 0 && verbose >= 2 ==> level == LogLevel::Debug,
        quiet == 0 && verbose < 2 ==> level == LogLevel::Info,
{
    if quiet > 0 {
        LogLevel::Error
    } else if verbose >= 2 {
        LogLevel::Debug
    } else {
        LogLevel::Info
    }
}

/// The identifier of the device to show, and whether it has yet to be
/// stored.
#[derive(Clone, Debug, PartialEq, Eq)]
pub struct DeviceIdentity {
    pub identifier: String,
    pub store: bool,
}

/// Chooses the identifier of the device: the one stored by an earlier run,
/// where there is one and it is not empty, else the one just generated, which
/// is then to be stored. `stored` is what the store holds, without the white
/// space around it, or empty where it holds nothing.
pub fn device_identity(stored: String, generated: String) -> (identity: DeviceIdentity)
    ensures
        stored@.len() > 0 ==> identity.identifier == stored && !identity.store,
        stored@.len() == 0 ==> identity.identifier == generated && identity.store,
{
    if stored.as_str().unicode_len() > 0 {
        DeviceIdentity { identifier: stored, store: false }
    } else {
        DeviceIdentity { identifier: generated, store: true }
    }
}

} // verus!
