//! Control core of an astrophotography capture node: the settings cell and its
//! cancellation policy, the bounded upload queue, the link state machine with
//! reconnect backoff, the tracking mount's driver and mode machine, the
//! cadence of the capture loop, the capture backends' command lines, and the
//! processing node's side of a connection.

pub mod settings;
pub mod processor;
pub mod store;
pub mod queue;
pub mod link;
pub mod tracking;
pub mod text;
pub mod capture;
pub mod config;
pub mod dummy;
pub mod gphoto2;
pub mod backend;
pub mod orchestrator;
pub mod handshake;
pub mod outbox;
pub mod session;
