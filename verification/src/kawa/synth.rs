//! The synth: the voice, the events waiting for it, and the patch it plays.

use vstd::prelude::*;

use super::patch::{is_default_patch, Patch};
use super::util::QueueThreadSafe;
use super::voice::{Voice, VoiceEvent};

verus! {

/// The room the event queue starts with.
pub const INIT_EVENTS_CAPACITY: usize = 4;

/// The synth; `F` is the synth engine's number type.
pub struct Synth<F> {
    pub voice: Voice,
    pub voice_events: QueueThreadSafe<VoiceEvent<F>>,
    pub patch: Patch,
}

impl<F> Synth<F> {
    /// The patch being played.
    pub open spec fn patch(&self) -> Patch {
        self.patch
    }

    pub fn new() -> (s: Synth<F>)
        ensures
            is_default_patch(s.patch()),
            s.voice_events.items() == Seq::<VoiceEvent<F>>::empty(),
    {
        Synth { voice: Voice::new(), voice_events: QueueThreadSafe::new(INIT_EVENTS_CAPACITY), patch: Patch::new() }
    }

    /// A copy of the patch being played.
    pub fn get_patch(&self) -> (p: Patch)
        ensures
            p == self.patch(),
    {
        self.patch
    }

    /// Plays `new_patch` from now on.
    pub fn set_patch(&mut self, new_patch: &Patch)
        ensures
            final(self).patch() == *new_patch,
            final(self).voice_events == old(self).voice_events,
    {
        self.patch = *new_patch;
    }

    /// Does nothing.
    pub fn test(&mut self)
        ensures
            final(self).patch() == old(self).patch(),
            final(self).voice_events == old(self).voice_events,
    {
    }
}

} // verus!
