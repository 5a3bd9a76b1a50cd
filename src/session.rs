//! The processing node's side of one connection: it answers settings
//! requests and names the files that uploads are stored under.
use vstd::prelude::*;
use vstd::arithmetic::power2::pow2;
use crate::capture::{CaptureResult, FileType, Message as NodeMessage, ext_spec};
use crate::processor::{CancelBehaviour, Message};
use crate::settings::Settings;
use crate::text::digit_char;

verus! {

pub open spec fn hex_char(d: nat) -> char {
    if d < 10 {
        digit_char(d)
    } else if d == 10 {
        'a'
    } else if d == 11 {
        'b'
    } else if d == 12 {
        'c'
    } else if d == 13 {
        'd'
    } else if d == 14 {
        'e'
    } else {
        'f'
    }
}

/// The k-th of the 32 hex digits of `id`, most significant first.
pub open spec fn nibble(id: u128, k: int) -> nat {
    ((id as nat) / pow2((4 * (31 - k)) as nat)) % 16
}

/// How many dashes precede position `i` of the hyphenated form.
pub open spec fn dashes_before(i: int) -> int {
    if i < 8 {
        0
    } else if i < 13 {
        1
    } else if i < 18 {
        2
    } else if i < 23 {
        3
    } else {
        4
    }
}

/// The hyphenated form of an id: 32 lowercase hex digits, most significant
/// first, in groups of 8-4-4-4-12.
pub open spec fn hyphenated_spec(id: u128) -> Seq<char> {
    Seq::new(
        36,
        |i: int|
            if i == 8 || i == 13 || i == 18 || i == 23 {
                '-'
            } else {
                hex_char(nibble(id, i - dashes_before(i)))
            },
    )
}

/// Relies on uuid::Uuid::from_u128 (big-endian bytes) and the `Display` of
/// uuid::fmt::Hyphenated: lowercase hex digits in groups of 8-4-4-4-12.
#[verifier::external_body]
fn hyphenated(id: u128) -> (r: String)
    ensures
        r@ == hyphenated_spec(id),
{
    uuid::Uuid::from_u128(id).hyphenated().to_string()
}

/// The file an upload is stored under: its id, then its extension.
pub fn upload_file_name(id: u128, file_type: FileType) -> (r: String)
    ensures
        r@ == hyphenated_spec(id) + "."@ + ext_spec(file_type),
{
    let mut name = hyphenated(id);
    let ext = file_type.dotext();
    name.append(ext.as_str());
    name
}

/// What the processing node does with one message from a capture node.
#[derive(Debug)]
pub enum Reply {
    Nothing,
    Send(Message),
    /// Store `file` under `name`.
    Store { name: String, file: Vec<u8> },
}

pub struct Session {
    settings: Settings,
    cancel_behaviour: CancelBehaviour,
    open: bool,
}

pub struct SessionView {
    pub settings: Settings,
    pub cancel_behaviour: CancelBehaviour,
    pub open: bool,
}

impl View for Session {
    type V = SessionView;

    closed spec fn view(&self) -> SessionView {
        SessionView {
            settings: self.settings,
            cancel_behaviour: self.cancel_behaviour,
            open: self.open,
        }
    }
}

impl Session {
    /// A session that serves `settings` under `cancel_behaviour`.
    pub fn new(settings: Settings, cancel_behaviour: CancelBehaviour) -> (r: Session)
        ensures
            r@ == (SessionView { settings, cancel_behaviour, open: true }),
    {
        Session { settings, cancel_behaviour, open: true }
    }

    pub fn is_open(&self) -> (r: bool)
        ensures
            r == self@.open,
    {
        self.open
    }

    /// The peer's close frame: nothing more is sent on this connection.
    pub fn on_close(&mut self)
        ensures
            final(self)@ == (SessionView { open: false, ..old(self)@ }),
    {
        self.open = false;
    }

    /// A settings request is answered with the served settings while the
    /// connection is open; an upload is stored under its file name.
    pub fn on_message(&mut self, msg: NodeMessage) -> (r: Reply)
        ensures
            final(self)@ == old(self)@,
            match msg {
                NodeMessage::RequestSettings => if old(self)@.open {
                    r == Reply::Send(
                        Message::SetSettings {
                            settings: old(self)@.settings,
                            cancel_behaviour: old(self)@.cancel_behaviour,
                        },
                    )
                } else {
                    r == Reply::Nothing
                },
                NodeMessage::Upload(u) => r matches Reply::Store { name, file } && name@
                    == hyphenated_spec(u.uuid) + "."@ + ext_spec(u.file_type) && file@
                    == u.file@,
            },
    {
        match msg {
            NodeMessage::RequestSettings => {
                if self.open {
                    Reply::Send(
                        Message::SetSettings {
                            settings: self.settings,
                            cancel_behaviour: self.cancel_behaviour,
                        },
                    )
                } else {
                    Reply::Nothing
                }
            },
            NodeMessage::Upload(u) => {
                let CaptureResult { uuid, file_type, file, .. } = u;
                Reply::Store { name: upload_file_name(uuid, file_type), file }
            },
        }
    }
}

} // verus!
