//! The voice: it turns the queued note events and the current patch into
//! calls of the synth engine.

use vstd::prelude::*;

use super::patch::Patch;

verus! {

/// An event for the synth engine; `F` is the engine's number type.
#[derive(Clone, Copy, Debug)]
pub enum VoiceEvent<F> {
    NoteOn { retrigger: bool, note: F, strength: F },
    NoteOff,
    ChangeModulation(F),
}

/// A call of the synth engine.
#[derive(Clone, Copy, Debug)]
pub enum ElementsCall<F> {
    SetGate(bool),
    RetriggerGate,
    SetNote(F),
    SetStrength(F),
    SetModulation(F),
    /// Load these parameter bit patterns into the engine's patch.
    SetPatch([u32; 22]),
}

/// The engine calls for one event: a note starts the sound, restarts the
/// envelope when asked, and sets the note and strength; a note off ends the
/// sound; a modulation change sets the modulation.
pub open spec fn event_calls<F>(event: VoiceEvent<F>) -> Seq<ElementsCall<F>> {
    match event {
        VoiceEvent::NoteOn { retrigger, note, strength } => if retrigger {
            seq![ElementsCall::SetGate(true), ElementsCall::RetriggerGate, ElementsCall::SetNote(note), ElementsCall::SetStrength(strength)]
        } else {
            seq![ElementsCall::SetGate(true), ElementsCall::SetNote(note), ElementsCall::SetStrength(strength)]
        },
        VoiceEvent::NoteOff => seq![ElementsCall::SetGate(false)],
        VoiceEvent::ChangeModulation(m) => seq![ElementsCall::SetModulation(m)],
    }
}

/// The engine calls for a list of events, in order.
pub open spec fn events_calls<F>(events: Seq<VoiceEvent<F>>) -> Seq<ElementsCall<F>>
    decreases events.len(),
{
    if events.len() == 0 {
        Seq::empty()
    } else {
        events_calls(events.drop_last()) + event_calls(events.last())
    }
}

/// The voice of the synth engine.
pub struct Voice {}

impl Voice {
    pub fn new() -> (v: Voice) {
        Voice {}
    }

    /// The engine calls for the events, in order.
    fn handle_events<F: Copy>(&self, voice_events: &Vec<VoiceEvent<F>>) -> (calls: Vec<ElementsCall<F>>)
        ensures
            calls@ == events_calls(voice_events@),
    {
        let mut calls: Vec<ElementsCall<F>> = Vec::new();
        let mut i: usize = 0;
        while i < voice_events.len()
            invariant
                i <= voice_events@.len(),
                calls@ == events_calls(voice_events@.take(i as int)),
            decreases voice_events@.len() - i,
        {
            let ghost before = calls@;
            assert(voice_events@.take(i as int + 1).drop_last() == voice_events@.take(i as int));
            match &voice_events[i] {
                VoiceEvent::NoteOn { retrigger, note, strength } => {
                    calls.push(ElementsCall::SetGate(true));
                    if *retrigger {
                        calls.push(ElementsCall::RetriggerGate);
                    }
                    calls.push(ElementsCall::SetNote(*note));
                    calls.push(ElementsCall::SetStrength(*strength));
                },
                VoiceEvent::NoteOff => {
                    calls.push(ElementsCall::SetGate(false));
                },
                VoiceEvent::ChangeModulation(modulation) => {
                    calls.push(ElementsCall::SetModulation(*modulation));
                },
            }
            assert(calls@ =~= before + event_calls(voice_events@[i as int]));
            i = i + 1;
        }
        assert(voice_events@.take(voice_events@.len() as int) == voice_events@);
        calls
    }

    /// The engine call that loads the patch's parameters.
    fn update_patch<F>(&self, patch: &Patch) -> (call: ElementsCall<F>)
        ensures
            call == ElementsCall::<F>::SetPatch(patch.elements_params),
    {
        ElementsCall::SetPatch(patch.elements_params)
    }

    /// The engine calls for one audio block: the events, in order, then the
    /// loading of the patch.
    pub fn update<F: Copy>(&self, voice_events: &Vec<VoiceEvent<F>>, patch: &Patch) -> (calls: Vec<ElementsCall<F>>)
        ensures
            calls@ == events_calls(voice_events@).push(ElementsCall::SetPatch(patch.elements_params)),
    {
        let mut calls = self.handle_events(voice_events);
        calls.push(self.update_patch(patch));
        calls
    }
}


/// Handling a batch of events gives the same engine calls as handling its
/// first part and then the rest, so it does not matter how the queue is
/// drained between audio blocks.
pub proof fn lemma_events_calls_split<F>(first: Seq<VoiceEvent<F>>, rest: Seq<VoiceEvent<F>>)
    ensures
        events_calls(first + rest) == events_calls(first) + events_calls(rest),
    decreases rest.len(),
{
    if rest.len() == 0 {
        assert(first + rest =~= first);
        assert(events_calls(first) + Seq::<ElementsCall<F>>::empty() =~= events_calls(first));
    } else {
        lemma_events_calls_split(first, rest.drop_last());
        assert((first + rest).drop_last() =~= first + rest.drop_last());
        assert((first + rest).last() == rest.last());
        assert(events_calls(first) + events_calls(rest.drop_last()) + event_calls(rest.last())
            =~= events_calls(first) + (events_calls(rest.drop_last()) + event_calls(rest.last())));
    }
}

} // verus!
