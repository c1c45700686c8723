//! The patch panel: pick a place in the patch store, edit the patch name,
//! load the patch from the store or save the playing patch there.

use vstd::prelude::*;

use super::framework::textbox::{Content, ContentBox};
use super::framework::InputConsumer;
use super::{InputDeviceId, BUTTON_POS_X, BUTTON_POS_Y, KNOB_POS_X, KNOB_POS_Y};
use crate::geometry::Point;
use crate::midi_elements::ui::framework::button::Button;
use crate::midi_elements::ui::knob::Knob;
use crate::midi_elements::ui::panel::{add_button, add_knob, knob_list, new_button_list, new_knob_list, Panel};
use crate::kawa::patch::{Patch, PATCH_NAME_SIZE};
use crate::kawa::storage::{store_bytes, Storage, MAX_PATCHES};
use crate::kawa::synth::Synth;

verus! {

/// The highest place the name cursor can reach.
pub const MAX_CURSOR_POS: usize = 10;

/// What the patch panel's knobs and buttons work on.
pub struct State {
    /// The place in the store the panel points at.
    pub patch_idx: u8,
    /// The character of the name being edited.
    pub cursor_pos: usize,
    /// The name shown and edited.
    pub patch_name: Content,
}

/// `v` kept within `[lo, hi]`.
pub open spec fn clamp(v: int, lo: int, hi: int) -> int {
    if v < lo {
        lo
    } else if v > hi {
        hi
    } else {
        v
    }
}

/// The name bytes of a saved patch: the edited name, cut to the name size,
/// with spaces after a shorter name.
pub open spec fn saved_name(bytes: Seq<u8>) -> Seq<u8> {
    Seq::new(PATCH_NAME_SIZE as nat, |i: int| if i < bytes.len() { bytes[i] } else { 32u8 })
}

/// The bytes of a patch name.
fn name_bytes(name: &[u8; 8]) -> (r: Vec<u8>)
    ensures
        r@ == name@,
{
    let mut r: Vec<u8> = Vec::new();
    let mut i: usize = 0;
    while i < PATCH_NAME_SIZE
        invariant
            i <= PATCH_NAME_SIZE,
            r@ == name@.take(i as int),
        decreases PATCH_NAME_SIZE - i,
    {
        r.push(name[i]);
        assert(name@.take(i as int + 1) == name@.take(i as int).push(name@[i as int]));
        i = i + 1;
    }
    assert(name@.take(8) == name@);
    r
}

/// The buttons of the patch panel: the patch page itself (starred, it is
/// this one) and the configuration on the first two hardware buttons, none on
/// the third, then the exciter and resonator pages on the fourth and fifth;
/// none pressed and all due to be drawn.
pub open spec fn is_patch_buttons(b: Seq<Button>) -> bool {
    &&& b.len() == 4
    &&& b[0].caption == "*Pat" && b[0].pos == (Point { x: 0, y: 0 }) && b[0].input_id == 0
    &&& b[1].caption == " Cfg" && b[1].pos == (Point { x: 26, y: 0 }) && b[1].input_id == 1
    &&& b[2].caption == " Exc" && b[2].pos == (Point { x: 77, y: 0 }) && b[2].input_id == 3
    &&& b[3].caption == " Res" && b[3].pos == (Point { x: 102, y: 0 }) && b[3].input_id == 4
    &&& forall|i: int| 0 <= i < 4 ==> !(#[trigger] b[i]).pressed && b[i].dirty
}

/// The knobs of the patch panel on the four encoders: browsing the place in
/// the store, the cursor in the name, the character under it, and loading
/// (turned down) or saving (turned up) at the place; showing place 0, cursor
/// 0, the character `first_char` and place 0.
pub open spec fn patch_knobs(first_char: u8) -> Seq<Knob> {
    seq![
        Knob { pos: Point { x: 0, y: 40 }, input_id: 5, value: 0, last_input_value: 0, dirty: true },
        Knob { pos: Point { x: 32, y: 40 }, input_id: 6, value: 0, last_input_value: 0, dirty: true },
        Knob { pos: Point { x: 64, y: 40 }, input_id: 7, value: first_char, last_input_value: 0, dirty: true },
        Knob { pos: Point { x: 96, y: 40 }, input_id: 8, value: 0, last_input_value: 0, dirty: true },
    ]
}

/// The patch page's knobs sit on the four encoders in order: knob `i`
/// listens to encoder `i` (input `5 + i`) and is drawn at its place of the
/// bottom row, so each encoder reaches exactly one knob.
pub proof fn lemma_patch_knobs_on_their_encoders(first_char: u8)
    ensures
        patch_knobs(first_char).len() == 4,
        forall|i: int| 0 <= i < 4 ==> (#[trigger] patch_knobs(first_char)[i]).input_id == 5 + i
            && patch_knobs(first_char)[i].pos == (Point { x: (32 * i) as i32, y: 40 }),
        forall|i: int, j: int| 0 <= i < 4 && 0 <= j < 4 && patch_knobs(first_char)[i].input_id == patch_knobs(first_char)[j].input_id ==> i == j,
{
}

/// Sets up the patch panel: its state, its buttons and knobs, and the text
/// box that shows the edited name. Each knob shows its handler's answer to
/// a turn of 0, so the panel starts at place 0 with the cursor on the first
/// character, showing the name of the patch stored at place 0, due to be
/// drawn.
pub fn setup<F>(synth: &Synth<F>, storage: &Storage) -> (r: (State, Panel, ContentBox))
    ensures
        r.0.patch_idx == 0,
        r.0.cursor_pos == 0,
        r.0.patch_name.bytes@ == storage.patches()[0].name@,
        r.0.patch_name.is_dirty,
        r.0.patch_name.cursor_pos == 0,
        is_patch_buttons(r.1.model().0),
        r.1.model().1 == patch_knobs(storage.patches()[0].name@[0]),
        forall|i: int| 0 <= i < 4 ==> (#[trigger] r.1.model().1[i]).input_id == 5 + i && r.1.model().1[i].pos
            == (Point { x: (32 * i) as i32, y: 40 }),
        r.2 == (ContentBox { pos: Point { x: 32, y: 20 }, highlight: false }),
{
    let patch = synth.get_patch();
    let mut state = State {
        patch_idx: 0,
        cursor_pos: 0,
        patch_name: Content { bytes: name_bytes(&patch.name), is_dirty: false, cursor_pos: 0 },
    };
    let place = select_patch(&mut state, storage, 0);
    let cursor = move_cursor(&mut state, 0);
    let first_char = change_char(&mut state, 0);

    let mut buttons = new_button_list();
    add_button(&mut buttons, Button::new(Point::new(BUTTON_POS_X[0], BUTTON_POS_Y), "*Pat", InputDeviceId::Button1.input_id()));
    add_button(&mut buttons, Button::new(Point::new(BUTTON_POS_X[1], BUTTON_POS_Y), " Cfg", InputDeviceId::Button2.input_id()));
    add_button(&mut buttons, Button::new(Point::new(BUTTON_POS_X[3], BUTTON_POS_Y), " Exc", InputDeviceId::Button4.input_id()));
    add_button(&mut buttons, Button::new(Point::new(BUTTON_POS_X[4], BUTTON_POS_Y), " Res", InputDeviceId::Button5.input_id()));

    let mut knobs = new_knob_list();
    add_knob(&mut knobs, Knob::new(Point::new(KNOB_POS_X[0], KNOB_POS_Y), InputDeviceId::Knob1.input_id(), place));
    add_knob(&mut knobs, Knob::new(Point::new(KNOB_POS_X[1], KNOB_POS_Y), InputDeviceId::Knob2.input_id(), cursor));
    add_knob(&mut knobs, Knob::new(Point::new(KNOB_POS_X[2], KNOB_POS_Y), InputDeviceId::Knob3.input_id(), first_char));
    add_knob(&mut knobs, Knob::new(Point::new(KNOB_POS_X[3], KNOB_POS_Y), InputDeviceId::Knob4.input_id(), place));
    assert(knob_list(knobs) =~= patch_knobs(storage.patches()[0].name@[0]));

    let text_box = ContentBox::new(Point::new(KNOB_POS_X[1], 20));
    (state, Panel::new(buttons, knobs), text_box)
}

/// The "Id" knob: moves the panel `delta` places through the store, staying
/// within it, and shows the name of the patch at the new place; the knob
/// shows the place.
pub fn select_patch(state: &mut State, storage: &Storage, delta: i8) -> (r: u8)
    requires
        old(state).patch_idx < MAX_PATCHES,
        i8::MIN <= old(state).patch_idx + delta <= i8::MAX,
    ensures
        final(state).patch_idx == clamp(old(state).patch_idx + delta, 0, MAX_PATCHES - 1),
        r == final(state).patch_idx,
        final(state).patch_name.bytes@ == storage.patches()[r as int].name@,
        final(state).patch_name.is_dirty,
        final(state).patch_name.cursor_pos == old(state).patch_name.cursor_pos,
        final(state).cursor_pos == old(state).cursor_pos,
{
    proof {
        storage.lemma_patch_count();
    }
    let moved = state.patch_idx as i8 + delta;
    let top = (MAX_PATCHES - 1) as i8;
    let idx = if moved < 0 {
        0i8
    } else if moved > top {
        top
    } else {
        moved
    };
    state.patch_idx = idx as u8;
    let patch = storage.get_patch(state.patch_idx);
    state.patch_name.bytes = name_bytes(&patch.name);
    state.patch_name.is_dirty = true;
    state.patch_idx
}

/// The "Pos" knob: moves the cursor `delta` characters, within
/// `[0, MAX_CURSOR_POS]`; the knob shows the cursor place.
pub fn move_cursor(state: &mut State, delta: i8) -> (r: u8)
    requires
        old(state).cursor_pos <= MAX_CURSOR_POS,
        i8::MIN <= old(state).cursor_pos + delta <= i8::MAX,
    ensures
        final(state).cursor_pos == clamp(old(state).cursor_pos + delta, 0, MAX_CURSOR_POS as int),
        r == final(state).cursor_pos,
        final(state).patch_idx == old(state).patch_idx,
        final(state).patch_name.bytes@ == old(state).patch_name.bytes@,
        final(state).patch_name.is_dirty == old(state).patch_name.is_dirty,
        final(state).patch_name.cursor_pos == old(state).patch_name.cursor_pos,
{
    let moved = state.cursor_pos as i8 + delta;
    let top = MAX_CURSOR_POS as i8;
    let pos = if moved < 0 {
        0i8
    } else if moved > top {
        top
    } else {
        moved
    };
    state.cursor_pos = pos as usize;
    state.cursor_pos as u8
}

/// The "Chr" knob: changes the character under the cursor by `delta` codes,
/// wrapping around within a byte; the knob shows the new code.
pub fn change_char(state: &mut State, delta: i8) -> (r: u8)
    requires
        old(state).cursor_pos < old(state).patch_name.bytes@.len(),
    ensures
        r == (old(state).patch_name.bytes@[old(state).cursor_pos as int] + delta) as u8,
        final(state).patch_name.bytes@ == old(state).patch_name.bytes@.update(old(state).cursor_pos as int, r),
        final(state).patch_name.is_dirty,
        final(state).patch_name.cursor_pos == old(state).patch_name.cursor_pos,
        final(state).cursor_pos == old(state).cursor_pos,
        final(state).patch_idx == old(state).patch_idx,
{
    let cursor_pos = state.cursor_pos;
    let changed = (state.patch_name.bytes[cursor_pos] as i16 + delta as i16) as u8;
    state.patch_name.bytes.set(cursor_pos, changed);
    state.patch_name.is_dirty = true;
    state.patch_name.bytes[cursor_pos]
}

/// Loading (the fourth knob turned down): plays the patch at the panel's
/// place and shows its name; returns `true`, the patch was loaded.
pub fn load_patch<F>(state: &mut State, storage: &Storage, synth: &mut Synth<F>) -> (r: bool)
    requires
        old(state).patch_idx < MAX_PATCHES,
    ensures
        r,
        final(synth).patch() == storage.patches()[old(state).patch_idx as int],
        final(synth).voice_events == old(synth).voice_events,
        final(state).patch_name.bytes@ == storage.patches()[old(state).patch_idx as int].name@,
        final(state).patch_name.is_dirty,
        final(state).patch_name.cursor_pos == old(state).patch_name.cursor_pos,
        final(state).patch_idx == old(state).patch_idx,
        final(state).cursor_pos == old(state).cursor_pos,
{
    proof {
        storage.lemma_patch_count();
    }
    let patch = storage.get_patch(state.patch_idx);
    synth.set_patch(patch);
    state.patch_name.bytes = name_bytes(&patch.name);
    state.patch_name.is_dirty = true;
    true
}

/// Saving (the fourth knob turned up): saves the patch being played, named
/// with the edited name, at the panel's place; returns the flash image to
/// write.
pub fn save_patch<F>(state: &State, storage: &mut Storage, synth: &Synth<F>) -> (image: Vec<u8>)
    requires
        state.patch_idx < MAX_PATCHES,
    ensures
        final(storage).patches() == old(storage).patches().update(
            state.patch_idx as int,
            Patch { name: final(storage).patches()[state.patch_idx as int].name, elements_params: synth.patch().elements_params },
        ),
        final(storage).patches()[state.patch_idx as int].name@ == saved_name(state.patch_name.bytes@),
        image@ == store_bytes(final(storage).patches()),
{
    proof {
        storage.lemma_patch_count();
    }
    let mut patch = synth.get_patch();
    patch.name = [32u8; 8];
    let bytes = &state.patch_name.bytes;
    let mut i: usize = 0;
    while i < bytes.len() && i < PATCH_NAME_SIZE
        invariant
            i <= PATCH_NAME_SIZE,
            i <= bytes@.len(),
            patch.elements_params == synth.patch().elements_params,
            forall|j: int| 0 <= j < i ==> #[trigger] patch.name@[j] == bytes@[j],
            forall|j: int| i <= j < PATCH_NAME_SIZE ==> #[trigger] patch.name@[j] == 32u8,
        decreases PATCH_NAME_SIZE - i,
    {
        patch.name[i] = bytes[i];
        i = i + 1;
    }
    assert(patch.name@ =~= saved_name(bytes@));
    storage.save_patch(state.patch_idx, &patch)
}

/// Loading a patch right after saving it at the same place gives back what
/// was saved: the engine parameters that were playing and the edited name,
/// padded with spaces to eight bytes (the edited name itself when it has
/// eight bytes); `load_patch` plays that patch and shows that name. The
/// other places keep their patches.
pub proof fn lemma_load_after_save(before: Seq<Patch>, after: Seq<Patch>, idx: int, name: Seq<u8>, playing: Patch)
    requires
        0 <= idx < before.len(),
        after == before.update(idx, Patch { name: after[idx].name, elements_params: playing.elements_params }),
        after[idx].name@ == saved_name(name),
    ensures
        after[idx] == (Patch { name: after[idx].name, elements_params: playing.elements_params }),
        after[idx].name@ == saved_name(name),
        name.len() == PATCH_NAME_SIZE ==> after[idx].name@ == name,
        forall|i: int| 0 <= i < before.len() && i != idx ==> #[trigger] after[i] == before[i],
{
    if name.len() == PATCH_NAME_SIZE {
        assert(saved_name(name) =~= name);
    }
}

} // verus!
