//! MIDI input handling: which note the synth engine plays, and how the
//! incoming messages are routed.

use vstd::prelude::*;

verus! {

/// A MIDI note number.
pub type NoteNumber = u8;

/// A MIDI channel number.
pub type ChannelNumber = u8;

/// A message read from the MIDI port, with the fields the port decodes.
#[derive(Clone, Copy, Debug, PartialEq, Eq, Structural)]
#[allow(inconsistent_fields)]
pub enum MidiEvent {
    NoteOn { channel: ChannelNumber, note: NoteNumber, velocity: u8 },
    NoteOff { channel: ChannelNumber, note: NoteNumber, velocity: u8 },
    /// `note` is `None` for channel aftertouch.
    Aftertouch { channel: ChannelNumber, note: Option<NoteNumber>, value: u8 },
    ControlChange { channel: ChannelNumber, controller: u8, value: u8 },
    ProgramChange { channel: ChannelNumber, program: u8 },
    PitchBendChange { channel: ChannelNumber, value: u16 },
    Unknown,
}

/// What a MIDI message asks of the synth.
#[derive(Clone, Copy, Debug, PartialEq, Eq, Structural)]
pub enum MidiRequest {
    /// A key went down (`on`) or up.
    Note { on: bool, note: NoteNumber, velocity: u8 },
    /// Channel aftertouch sets the modulation to `value / 127`.
    Modulation(u8),
}

/// The request a MIDI message makes, if it makes one.
pub open spec fn request_of(message: MidiEvent) -> Option<MidiRequest> {
    match message {
        MidiEvent::NoteOn { note, velocity, .. } => Some(MidiRequest::Note { on: true, note, velocity }),
        MidiEvent::NoteOff { note, velocity, .. } => Some(MidiRequest::Note { on: false, note, velocity }),
        MidiEvent::Aftertouch { note: None, value, .. } => Some(MidiRequest::Modulation(value)),
        _ => None,
    }
}

/// Routes a MIDI message: note on and note off are notes on every channel,
/// channel aftertouch is modulation, and everything else is ignored.
pub fn route_midi_message(message: MidiEvent) -> (r: Option<MidiRequest>)
    ensures
        r == request_of(message),
{
    match message {
        MidiEvent::NoteOn { channel: _, note, velocity } => Some(MidiRequest::Note { on: true, note, velocity }),
        MidiEvent::NoteOff { channel: _, note, velocity } => Some(MidiRequest::Note { on: false, note, velocity }),
        MidiEvent::Aftertouch { channel: _, note: None, value } => Some(MidiRequest::Modulation(value)),
        _ => None,
    }
}

/// A key held down, with the velocity it was struck with.
#[derive(Clone, Copy, Debug, PartialEq, Eq, Structural)]
pub struct Note {
    pub note: NoteNumber,
    pub velocity: u8,
}

/// The number of held keys that are remembered.
pub const NOTE_STACK_SIZE: usize = 5;

/// Whether the synth engine sounds after a key event, and what.
#[derive(Clone, Copy, Debug, PartialEq, Eq, Structural)]
pub enum Sound {
    /// The engine sounds (or keeps sounding) `note`, struck with `velocity`;
    /// with `retrigger` the envelope restarts.
    Play { retrigger: bool, note: NoteNumber, velocity: u8 },
    /// No key is held: the sound ends.
    Stop,
}

/// What the synth engine is asked to do for a MIDI message.
#[derive(Clone, Copy, Debug, PartialEq, Eq, Structural)]
pub enum MidiResponse {
    Play(Sound),
    /// Set the modulation to `value / 127`.
    Modulation(u8),
}

/// The held keys with `note` taken out; the others keep their order.
pub open spec fn without_note(stack: Seq<Note>, note: NoteNumber) -> Seq<Note>
    decreases stack.len(),
{
    if stack.len() == 0 {
        stack
    } else {
        let rest = without_note(stack.drop_last(), note);
        if stack.last().note == note {
            rest
        } else {
            rest.push(stack.last())
        }
    }
}

/// The held keys after a key goes down or up: a new key goes on top, and
/// when all the places are taken the oldest key is forgotten; a released key
/// is taken out wherever it stands.
pub open spec fn stack_after(stack: Seq<Note>, on: bool, note: NoteNumber, velocity: u8) -> Seq<Note> {
    if on {
        let kept = if stack.len() == NOTE_STACK_SIZE {
            stack.drop_first()
        } else {
            stack
        };
        kept.push(Note { note, velocity })
    } else {
        without_note(stack, note)
    }
}

/// What the engine does for a stack of held keys: sound the key on top while any key
/// is held, retriggered unless playing legato.
pub open spec fn sound_for(stack: Seq<Note>, legato: bool) -> Sound {
    if stack.len() > 0 {
        Sound::Play { retrigger: !legato, note: stack.last().note, velocity: stack.last().velocity }
    } else {
        Sound::Stop
    }
}

/// Tracks the keys held on the MIDI keyboard and decides what the
/// synth engine does.
pub struct MidiInput {
    notes_stack: Vec<Note>,
    legato: bool,
}

impl MidiInput {
    /// The held keys, oldest first.
    pub closed spec fn notes(&self) -> Seq<Note> {
        self.notes_stack@
    }

    /// Whether a key that becomes the top key keeps the envelope running.
    pub closed spec fn is_legato(&self) -> bool {
        self.legato
    }

    /// No more keys are held than there are places for.
    pub open spec fn wf(&self) -> bool {
        self.notes().len() <= NOTE_STACK_SIZE
    }

    pub fn new() -> (r: MidiInput)
        ensures
            r.notes() == Seq::<Note>::empty(),
            !r.is_legato(),
            r.wf(),
    {
        MidiInput { notes_stack: Vec::with_capacity(NOTE_STACK_SIZE), legato: false }
    }

    /// Handles a message read from the MIDI port: keys go into or out of the
    /// stack of held keys, channel aftertouch sets the modulation, and other
    /// messages change nothing.
    pub fn handle_midi_irq(&mut self, message: Option<MidiEvent>) -> (r: Option<MidiResponse>)
        requires
            old(self).wf(),
        ensures
            final(self).wf(),
            final(self).is_legato() == old(self).is_legato(),
            match message {
                None => r == None::<MidiResponse> && final(self).notes() == old(self).notes(),
                Some(m) => match request_of(m) {
                    Some(MidiRequest::Note { on, note, velocity }) => {
                        &&& final(self).notes() == stack_after(old(self).notes(), on, note, velocity)
                        &&& r == Some(MidiResponse::Play(sound_for(final(self).notes(), old(self).is_legato())))
                    },
                    Some(MidiRequest::Modulation(value)) => {
                        &&& final(self).notes() == old(self).notes()
                        &&& r == Some(MidiResponse::Modulation(value))
                    },
                    None => r == None::<MidiResponse> && final(self).notes() == old(self).notes(),
                },
            },
    {
        match message {
            None => None,
            Some(m) => match route_midi_message(m) {
                Some(MidiRequest::Note { on, note, velocity }) => Some(MidiResponse::Play(self.handle_note(on, note, velocity))),
                Some(MidiRequest::Modulation(value)) => Some(MidiResponse::Modulation(self.set_modulation(value))),
                None => None,
            },
        }
    }

    /// A key goes down (`on`) or up; returns what the engine does.
    pub fn handle_note(&mut self, on: bool, note: NoteNumber, velocity: u8) -> (r: Sound)
        requires
            old(self).wf(),
        ensures
            final(self).wf(),
            final(self).notes() == stack_after(old(self).notes(), on, note, velocity),
            final(self).is_legato() == old(self).is_legato(),
            r == sound_for(final(self).notes(), old(self).is_legato()),
    {
        if on {
            if self.notes_stack.len() == NOTE_STACK_SIZE {
                self.notes_stack.remove(0);
            }
            self.notes_stack.push(Note { note, velocity });
        } else {
            let kept = remove_note(&self.notes_stack, note);
            self.notes_stack = kept;
            proof {
                lemma_without_note_len(old(self).notes(), note);
            }
        }
        if self.notes_stack.len() > 0 {
            let top = self.notes_stack[self.notes_stack.len() - 1];
            Sound::Play { retrigger: !self.legato, note: top.note, velocity: top.velocity }
        } else {
            Sound::Stop
        }
    }

    /// Channel aftertouch: returns the modulation value to set, `value / 127`.
    pub fn set_modulation(&mut self, value: u8) -> (r: u8)
        ensures
            r == value,
            *final(self) == *old(self),
    {
        value
    }
}

/// The keys of `stack` without `note`, in their order.
fn remove_note(stack: &Vec<Note>, note: NoteNumber) -> (r: Vec<Note>)
    ensures
        r@ == without_note(stack@, note),
{
    let mut kept: Vec<Note> = Vec::new();
    let mut i: usize = 0;
    while i < stack.len()
        invariant
            i <= stack@.len(),
            kept@ == without_note(stack@.take(i as int), note),
        decreases stack@.len() - i,
    {
        let n = stack[i];
        assert(stack@.take(i as int + 1).drop_last() == stack@.take(i as int));
        if n.note != note {
            kept.push(n);
        }
        i = i + 1;
    }
    assert(stack@.take(stack@.len() as int) == stack@);
    kept
}

/// Releasing a key takes out that key only and keeps the other held keys in
/// the order they were pressed: a key pressed after the others stays after
/// them once a different key is released.
pub proof fn lemma_release_keeps_order(stack: Seq<Note>, pressed: Note, note: NoteNumber)
    requires
        pressed.note != note,
    ensures
        without_note(stack.push(pressed), note) == without_note(stack, note).push(pressed),
{
    assert(stack.push(pressed).drop_last() == stack);
}

/// Releasing a key that is not the newest held one never changes the newest
/// one, the key the engine plays.
pub proof fn lemma_release_keeps_top(stack: Seq<Note>, note: NoteNumber)
    requires
        stack.len() > 0,
        stack.last().note != note,
    ensures
        without_note(stack, note).len() > 0,
        without_note(stack, note).last() == stack.last(),
{
    lemma_release_keeps_order(stack.drop_last(), stack.last(), note);
    assert(stack.drop_last().push(stack.last()) == stack);
}

/// Releasing a key leaves exactly the held keys with other notes, in the
/// order they were pressed.
pub proof fn lemma_release_filters_the_stack(stack: Seq<Note>, note: NoteNumber)
    ensures
        without_note(stack, note) == stack.filter(|k: Note| k.note != note),
    decreases stack.len(),
{
    reveal(Seq::filter);
    if stack.len() > 0 {
        lemma_release_filters_the_stack(stack.drop_last(), note);
    }
}

/// Taking a key out never makes the stack longer.
pub proof fn lemma_without_note_len(stack: Seq<Note>, note: NoteNumber)
    ensures
        without_note(stack, note).len() <= stack.len(),
    decreases stack.len(),
{
    if stack.len() > 0 {
        lemma_without_note_len(stack.drop_last(), note);
    }
}


/// No released key stays in the stack.
pub proof fn lemma_released_note_is_gone(stack: Seq<Note>, note: NoteNumber)
    ensures
        forall|i: int| 0 <= i < without_note(stack, note).len() ==> #[trigger] without_note(stack, note)[i].note != note,
    decreases stack.len(),
{
    if stack.len() > 0 {
        let rest = without_note(stack.drop_last(), note);
        lemma_released_note_is_gone(stack.drop_last(), note);
        if stack.last().note != note {
            let r = rest.push(stack.last());
            assert forall|i: int| 0 <= i < r.len() implies #[trigger] r[i].note != note by {
                if i < rest.len() {
                    assert(r[i] == rest[i]);
                }
            }
        }
    }
}

/// Releasing a key that is not held leaves the stack as it was.
pub proof fn lemma_release_unheld_note(stack: Seq<Note>, note: NoteNumber)
    requires
        forall|i: int| 0 <= i < stack.len() ==> #[trigger] stack[i].note != note,
    ensures
        without_note(stack, note) == stack,
    decreases stack.len(),
{
    if stack.len() > 0 {
        let rest = stack.drop_last();
        assert forall|i: int| 0 <= i < rest.len() implies #[trigger] rest[i].note != note by {
            assert(rest[i] == stack[i]);
        }
        lemma_release_unheld_note(rest, note);
        assert(stack.last() == stack[stack.len() - 1]);
        assert(rest.push(stack.last()) =~= stack);
    }
}

/// The last key pressed is the one the engine sounds, with its velocity;
/// the envelope restarts unless playing legato.
pub proof fn lemma_last_pressed_note_plays(stack: Seq<Note>, note: NoteNumber, velocity: u8, legato: bool)
    ensures
        sound_for(stack_after(stack, true, note, velocity), legato)
            == (Sound::Play { retrigger: !legato, note, velocity }),
{
}

/// Releasing the last key held ends the sound; releasing a key while other
/// keys are held keeps sounding the newest of them.
pub proof fn lemma_sound_stops_when_no_key_is_held(stack: Seq<Note>, note: NoteNumber, velocity: u8, legato: bool)
    ensures
        sound_for(stack_after(stack, false, note, velocity), legato) == Sound::Stop
            <==> forall|i: int| 0 <= i < stack.len() ==> #[trigger] stack[i].note == note,
    decreases stack.len(),
{
    if stack.len() > 0 {
        lemma_sound_stops_when_no_key_is_held(stack.drop_last(), note, velocity, legato);
        let rest = stack.drop_last();
        if forall|i: int| 0 <= i < stack.len() ==> #[trigger] stack[i].note == note {
            assert forall|i: int| 0 <= i < rest.len() implies #[trigger] rest[i].note == note by {
                assert(rest[i] == stack[i]);
            }
        } else {
            let j = choose|j: int| 0 <= j < stack.len() && #[trigger] stack[j].note != note;
            if j < stack.len() - 1 {
                assert(rest[j] == stack[j]);
            }
        }
    }
}

/// Pressing a key that is not held and releasing it again, while there is
/// room for it, brings the stack back to what it was.
pub proof fn lemma_press_then_release_restores(stack: Seq<Note>, note: NoteNumber, velocity: u8, release_velocity: u8)
    requires
        stack.len() < NOTE_STACK_SIZE,
        forall|i: int| 0 <= i < stack.len() ==> #[trigger] stack[i].note != note,
    ensures
        stack_after(stack_after(stack, true, note, velocity), false, note, release_velocity) == stack,
{
    let pressed = stack_after(stack, true, note, velocity);
    assert(pressed.drop_last() =~= stack);
    lemma_release_unheld_note(stack, note);
}

} // verus!
