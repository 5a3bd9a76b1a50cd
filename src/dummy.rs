//! A stand-in backend that fabricates results after a simulated exposure.
use vstd::prelude::*;
use crate::capture::{CaptureCommand, CaptureResult, FileType};
use crate::settings::{DNTime, Exposure};

verus! {

/// Relies on uuid::Uuid::new_v4: a random version 4 id, as a 128-bit integer.
#[verifier::external_body]
fn fresh_id() -> (r: u128) {
    uuid::Uuid::new_v4().as_u128()
}

/// How long a stand-in exposure lasts: 100 ms on auto exposure, otherwise
/// the set exposure time.
pub open spec fn dummy_exposure(settings: DNTime) -> u64 {
    match settings.exposure {
        Exposure::Auto => 100,
        Exposure::Manual(ms) => ms,
    }
}

pub struct Dummy {}

impl Dummy {
    pub fn new() -> (r: Dummy) {
        Dummy {  }
    }

    /// Milliseconds the stand-in exposure for `settings` lasts.
    pub fn exposure_millis(&self, settings: &DNTime) -> (r: u64)
        ensures
            r == dummy_exposure(*settings),
    {
        match settings.exposure {
            Exposure::Auto => 100,
            Exposure::Manual(ms) => ms,
        }
    }

    /// The result of a finished stand-in exposure for `cmd`: a fresh id, the
    /// command's time and time of day, and a three-byte placeholder file.
    pub fn result_for(&self, cmd: &CaptureCommand) -> (r: CaptureResult)
        ensures
            r.time == cmd.time,
            r.is_night == cmd.is_night,
            r.file_type == FileType::Dummy,
            r.file@ == seq![0u8, 0u8, 0u8],
    {
        CaptureResult {
            uuid: fresh_id(),
            time: cmd.time,
            is_night: cmd.is_night,
            file_type: FileType::Dummy,
            file: vec![0, 0, 0],
        }
    }
}

} // verus!
