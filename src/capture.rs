//! The capture contract: what a backend is given, what it hands back, and the
//! pure parts of the two backends.
use vstd::prelude::*;
use std::sync::Arc;
use tokio::sync::Notify;
use crate::settings::DNTime;

verus! {

/// tokio's `Notify`, the cancellation broadcast a command carries. Nothing
/// here calls into it; the backends wait on it outside the library.
#[verifier::external_type_specification]
#[verifier::external_body]
pub struct ExNotify(tokio::sync::Notify);

/// Milliseconds since the Unix epoch.
#[derive(Clone, Copy, Debug, PartialEq, Eq, Structural)]
pub struct Timestamp {
    pub millis: i64,
}

#[derive(Clone, Copy, Debug, PartialEq, Eq, Structural)]
pub enum FileType {
    Dummy,
    Cr2,
}

pub open spec fn ext_spec(file_type: FileType) -> Seq<char> {
    match file_type {
        FileType::Dummy => "dummy"@,
        FileType::Cr2 => "cr2"@,
    }
}

impl FileType {
    /// The file name extension, without the dot.
    pub fn ext(&self) -> (r: String)
        ensures
            r@ == ext_spec(*self),
    {
        match self {
            FileType::Dummy => String::from_str("dummy"),
            FileType::Cr2 => String::from_str("cr2"),
        }
    }

    /// The file name extension, with the dot.
    pub fn dotext(&self) -> (r: String)
        ensures
            r@ == "."@ + ext_spec(*self),
    {
        let ext = self.ext();
        let mut r = String::from_str(".");
        r.append(ext.as_str());
        r
    }
}

/// One finished capture, moved from the backend to the uplink.
#[derive(Debug)]
pub struct CaptureResult {
    pub uuid: u128,
    pub time: Timestamp,
    pub is_night: bool,
    pub file_type: FileType,
    pub file: Vec<u8>,
}

/// What the node sends to the processing node.
#[derive(Debug)]
pub enum Message {
    RequestSettings,
    Upload(CaptureResult),
}

/// One capture attempt. The cancellation handle is subscribed right before
/// the attempt and used by it alone.
pub struct CaptureCommand {
    pub cancel_token: Arc<Notify>,
    pub time: Timestamp,
    pub is_night: bool,
    pub settings: DNTime,
}

#[derive(Debug)]
pub enum CaptureError {
    /// A settings push interrupted the capture.
    Cancelled,
    /// The backend failed; the text says why.
    Module(String),
}

} // verus!
