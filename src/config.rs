//! Configuration values that the core reads.
use vstd::prelude::*;

verus! {

/// Which capture backend the node runs.
#[derive(Clone, Copy, Debug, PartialEq, Eq, Structural)]
pub enum CaptureModule {
    Dummy,
    GPhoto2,
}

#[derive(Clone, Copy, Debug, PartialEq, Eq, Structural)]
pub enum LogLevel {
    Error,
    Warn,
    Info,
    Debug,
    Trace,
}

/// Where and how much the node logs.
#[derive(Clone, Debug)]
pub struct Logging {
    pub level: LogLevel,
    /// Directory of the rolling log file.
    pub path: String,
    /// Size in MiB at which the log file rolls over.
    pub size: u64,
    /// Number of rolled-over files kept.
    pub count: u32,
}

impl Logging {
    pub open spec fn valid(&self) -> bool {
        self.size > 0 && self.count > 0
    }

    pub fn is_valid(&self) -> (r: bool)
        ensures
            r == self.valid(),
    {
        self.size > 0 && self.count > 0
    }

    /// The roll-over size in bytes, saturating at `u64::MAX`.
    pub fn size_bytes(&self) -> (r: u64)
        ensures
            r == (if self.size * 1048576 <= u64::MAX {
                (self.size * 1048576) as u64
            } else {
                u64::MAX
            }),
    {
        match self.size.checked_mul(1048576) {
            Some(b) => b,
            None => u64::MAX,
        }
    }
}

/// Whether a tracking configuration is usable: the direction is 0 or 1 and
/// the leeway is not negative.
pub open spec fn tracking_config_valid(tracking_direction: u8, leeway: isize) -> bool {
    tracking_direction <= 1 && leeway >= 0
}

pub fn is_tracking_config_valid(tracking_direction: u8, leeway: isize) -> (r: bool)
    ensures
        r == tracking_config_valid(tracking_direction, leeway),
{
    tracking_direction <= 1 && leeway >= 0
}

} // verus!
