//! The persistent link to the processing node as a state machine: the outside
//! loop performs each I/O step and hands the outcome back as an event; the
//! machine says what to do next.
use vstd::prelude::*;
use crate::processor::Message;
use crate::settings::Settings;
use crate::store::{SettingsStore, push_fires};

verus! {

/// Seconds to wait after the n-th consecutive failed connection attempt
/// (the last entry repeats).
pub const BACKOFF_SECONDS: [u64; 6] = [1, 1, 1, 10, 30, 60];

/// Delay after `failures` consecutive failed attempts, `failures >= 1`.
pub open spec fn backoff_spec(failures: nat) -> u64 {
    if failures <= 6 {
        BACKOFF_SECONDS[failures - 1]
    } else {
        BACKOFF_SECONDS[5]
    }
}

/// Seconds to wait before the next attempt after `failures` consecutive
/// failed attempts.
pub fn backoff(failures: usize) -> (r: u64)
    requires
        failures >= 1,
    ensures
        r == backoff_spec(failures as nat),
{
    if failures <= 6 {
        BACKOFF_SECONDS[failures - 1]
    } else {
        BACKOFF_SECONDS[5]
    }
}

/// A frame, or the lack of one, read from the link.
#[derive(Clone, Copy, Debug, PartialEq, Eq, Structural)]
pub enum Inbound {
    /// A binary frame that decoded to a message.
    Decoded(Message),
    /// A binary frame that did not decode.
    Undecodable,
    /// A text frame; the protocol has none.
    Text,
    /// The peer's close frame.
    Close,
    /// Ping or pong.
    Control,
    /// The transport reported an error.
    Failed,
    /// The transport ended.
    Ended,
}

/// Why the node closes the link.
#[derive(Clone, Copy, Debug, PartialEq, Eq, Structural)]
pub enum CloseReason {
    Undecodable,
    Text,
}

/// What the outside loop does after an inbound event.
#[derive(Clone, Copy, Debug, PartialEq, Eq, Structural)]
pub enum Reaction {
    Nothing,
    /// Wake every capture waiting on the cancellation broadcast.
    Broadcast,
    /// Send a close frame that tells the peer the data is unsupported.
    SendClose(CloseReason),
}

#[derive(Clone, Copy, Debug, PartialEq, Eq, Structural)]
pub enum LinkState {
    Disconnected,
    /// `open` is false once no further frames may be sent on this link.
    Connected { open: bool },
}

pub struct Link {
    state: LinkState,
    failures: usize,
}

pub struct LinkView {
    pub state: LinkState,
    pub failures: nat,
}

impl View for Link {
    type V = LinkView;

    closed spec fn view(&self) -> LinkView {
        LinkView { state: self.state, failures: self.failures as nat }
    }
}

/// The state after an inbound event on a connected link.
pub open spec fn state_after_inbound(open: bool, frame: Inbound) -> LinkState {
    match frame {
        Inbound::Decoded(_) => LinkState::Connected { open },
        Inbound::Undecodable => LinkState::Disconnected,
        Inbound::Text => LinkState::Connected { open: false },
        Inbound::Close => LinkState::Connected { open: false },
        Inbound::Control => LinkState::Connected { open },
        Inbound::Failed => LinkState::Disconnected,
        Inbound::Ended => LinkState::Disconnected,
    }
}

/// The reaction to an inbound event, given what the settings cell held.
pub open spec fn reaction_to(open: bool, frame: Inbound, stored: Option<Settings>) -> Reaction {
    match frame {
        Inbound::Decoded(Message::SetSettings { settings, cancel_behaviour }) => {
            if push_fires(stored, settings, cancel_behaviour) {
                Reaction::Broadcast
            } else {
                Reaction::Nothing
            }
        },
        Inbound::Undecodable => Reaction::SendClose(CloseReason::Undecodable),
        Inbound::Text => if open {
            Reaction::SendClose(CloseReason::Text)
        } else {
            Reaction::Nothing
        },
        _ => Reaction::Nothing,
    }
}

impl Link {
    pub fn new() -> (r: Link)
        ensures
            r@.state == LinkState::Disconnected,
            r@.failures == 0,
    {
        Link { state: LinkState::Disconnected, failures: 0 }
    }

    pub fn state(&self) -> (r: LinkState)
        ensures
            r == self@.state,
    {
        self.state
    }

    pub fn failures(&self) -> (r: usize)
        ensures
            r == self@.failures,
    {
        self.failures
    }

    /// Whether a queued settings request or upload may be sent now.
    pub fn may_send(&self) -> (r: bool)
        ensures
            r == (self@.state == LinkState::Connected { open: true }),
    {
        match self.state {
            LinkState::Connected { open } => open,
            LinkState::Disconnected => false,
        }
    }

    /// Records the outcome of a handshake attempt. A success connects and
    /// clears the failure count; a failure counts it (saturating) and returns
    /// the seconds to wait before the next attempt.
    pub fn on_connect(&mut self, ok: bool) -> (wait: Option<u64>)
        requires
            old(self)@.state == LinkState::Disconnected,
        ensures
            ok ==> final(self)@.state == (LinkState::Connected { open: true }) && final(self)@.failures
                == 0 && wait is None,
            !ok ==> final(self)@.state == LinkState::Disconnected && final(self)@.failures == (
            if old(self)@.failures < usize::MAX {
                old(self)@.failures + 1
            } else {
                old(self)@.failures
            }) && wait == Some(backoff_spec(final(self)@.failures)),
    {
        if ok {
            self.state = LinkState::Connected { open: true };
            self.failures = 0;
            None
        } else {
            self.failures = self.failures.saturating_add(1);
            Some(backoff(self.failures))
        }
    }

    /// Handles one inbound event of a connected link. A settings message is
    /// stored before the broadcast is decided.
    pub fn on_inbound(&mut self, frame: Inbound, store: &mut SettingsStore) -> (r: Reaction)
        requires
            old(self)@.state is Connected,
        ensures
            final(self)@.failures == old(self)@.failures,
            final(self)@.state == state_after_inbound(old(self)@.state->open, frame),
            r == reaction_to(old(self)@.state->open, frame, old(store)@),
            match frame {
                Inbound::Decoded(Message::SetSettings { settings, .. }) => final(store)@ == Some(
                    settings,
                ),
                _ => final(store)@ == old(store)@,
            },
    {
        let open = match self.state {
            LinkState::Connected { open } => open,
            LinkState::Disconnected => false,
        };
        match frame {
            Inbound::Decoded(Message::SetSettings { settings, cancel_behaviour }) => {
                if store.accept_push(settings, cancel_behaviour) {
                    Reaction::Broadcast
                } else {
                    Reaction::Nothing
                }
            },
            Inbound::Undecodable => {
                self.state = LinkState::Disconnected;
                Reaction::SendClose(CloseReason::Undecodable)
            },
            Inbound::Text => {
                self.state = LinkState::Connected { open: false };
                if open {
                    Reaction::SendClose(CloseReason::Text)
                } else {
                    Reaction::Nothing
                }
            },
            Inbound::Close => {
                self.state = LinkState::Connected { open: false };
                Reaction::Nothing
            },
            Inbound::Control => Reaction::Nothing,
            Inbound::Failed | Inbound::Ended => {
                self.state = LinkState::Disconnected;
                Reaction::Nothing
            },
        }
    }

    /// Records the outcome of a send; a failed send drops the link.
    pub fn on_send(&mut self, ok: bool)
        ensures
            final(self)@.failures == old(self)@.failures,
            final(self)@.state == (if ok {
                old(self)@.state
            } else {
                LinkState::Disconnected
            }),
    {
        if !ok {
            self.state = LinkState::Disconnected;
        }
    }
}

/// The n-th consecutive failed attempt waits 1, 1, 1, 10, 30 seconds for
/// n = 1..5 and 60 seconds from then on.
pub proof fn lemma_backoff_schedule(n: nat)
    requires
        n >= 1,
    ensures
        backoff_spec(n) == (if n <= 3 {
            1u64
        } else if n == 4 {
            10u64
        } else if n == 5 {
            30u64
        } else {
            60u64
        }),
{
}

} // verus!
