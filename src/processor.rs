//! What the processing node sends to a capture node.
use vstd::prelude::*;
use crate::settings::Settings;

verus! {

/// Whether a settings push interrupts a capture in flight.
#[derive(Clone, Copy, Debug, PartialEq, Eq, Structural)]
pub enum CancelBehaviour {
    Always,
    IfUnequal,
    Never,
}

#[derive(Clone, Copy, Debug, PartialEq, Eq, Structural)]
pub enum Message {
    SetSettings { settings: Settings, cancel_behaviour: CancelBehaviour },
}

} // verus!
