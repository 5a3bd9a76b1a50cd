//! The process-wide settings cell and the rule that decides when a settings
//! push cancels the capture in flight.
use vstd::prelude::*;
use crate::processor::CancelBehaviour;
use crate::settings::Settings;

verus! {

/// Whether a push of `settings` under `behaviour` fires the cancellation
/// broadcast, given what the cell held before it.
pub open spec fn push_fires(
    stored: Option<Settings>,
    settings: Settings,
    behaviour: CancelBehaviour,
) -> bool {
    match stored {
        None => true,
        Some(s) => match behaviour {
            CancelBehaviour::Always => true,
            CancelBehaviour::IfUnequal => s != settings,
            CancelBehaviour::Never => false,
        },
    }
}

/// Holds the current settings; empty only until the first push is accepted.
pub struct SettingsStore {
    current: Option<Settings>,
}

impl View for SettingsStore {
    type V = Option<Settings>;

    closed spec fn view(&self) -> Option<Settings> {
        self.current
    }
}

impl SettingsStore {
    pub fn new() -> (r: SettingsStore)
        ensures
            r@ == None::<Settings>,
    {
        SettingsStore { current: None }
    }

    pub fn read(&self) -> (r: Option<Settings>)
        ensures
            r == self@,
    {
        self.current
    }

    pub fn write(&mut self, settings: Settings)
        ensures
            final(self)@ == Some(settings),
    {
        self.current = Some(settings);
    }

    /// Stores a pushed value unconditionally and tells whether the push must
    /// wake the capture in flight: always for the first push, and otherwise as
    /// `behaviour` says (`IfUnequal` fires only on a changed value).
    pub fn accept_push(&mut self, settings: Settings, behaviour: CancelBehaviour) -> (fire: bool)
        ensures
            final(self)@ == Some(settings),
            fire == push_fires(old(self)@, settings, behaviour),
    {
        let (changed, init) = match &self.current {
            None => (true, true),
            Some(s) => (*s != settings, false),
        };
        self.current = Some(settings);
        match behaviour {
            CancelBehaviour::Always => true,
            CancelBehaviour::IfUnequal => init || changed,
            CancelBehaviour::Never => init,
        }
    }
}

/// Once a push of `s1` has been accepted (the cell then holds `s1`), a push
/// of a different value `s2` under `Always` fires, and a repeated push of `s1`
/// under `IfUnequal` does not.
pub proof fn lemma_push_policy(s1: Settings, s2: Settings)
    requires
        s1 != s2,
    ensures
        push_fires(Some(s1), s2, CancelBehaviour::Always),
        !push_fires(Some(s1), s1, CancelBehaviour::IfUnequal),
{
}

/// The first push an empty cell receives fires, whatever its behaviour.
pub proof fn lemma_first_push_fires(settings: Settings, behaviour: CancelBehaviour)
    ensures
        push_fires(None, settings, behaviour),
{
}

} // verus!
