//! The pages of the UI and what their widgets do: the screen switching of
//! the top row, the engine parameter each knob turns, the patch page's
//! browser, and the answer each handler gives its widget.

use vstd::prelude::*;

use super::framework::InputConsumer;
use super::panel_patch::{
    is_patch_buttons,
    change_char, clamp, load_patch, move_cursor, save_patch, saved_name, select_patch, State, MAX_CURSOR_POS,
};
use super::PanelId;
use crate::geometry::Point;
use crate::kawa::patch::Patch;
use crate::kawa::storage::{store_bytes, Storage, MAX_PATCHES};
use crate::kawa::synth::Synth;
use crate::midi_elements::elements_handlers::{create_knob_handler, patch_field, Param};
use crate::midi_elements::ui::framework::button::Button;
use crate::midi_elements::ui::knob::Knob;
use crate::midi_elements::ui::panel::{add_knob, button_list, knob_list, new_knob_list, Panel, PanelRequest};
use crate::midi_elements::ui::panel_res1::{is_resonator_buttons, setup_resonator_buttons};
use crate::midi_elements::ui::panel_strike::{is_exciter_buttons, setup_exciter_buttons, strike_knobs};
use crate::midi_elements::elements_handlers::KnobHandler;

verus! {

/// What a press of a top-row button does besides being taken (every
/// button's handler takes the press): the page to switch to, and the test
/// note to play or stop.
#[derive(Clone, Copy, Debug, PartialEq, Eq, Structural)]
pub struct ButtonAction {
    pub show: Option<PanelId>,
    pub test_note: Option<bool>,
}

/// What a turn of a knob drives.
#[derive(Clone, Copy, Debug, PartialEq, Eq, Structural)]
pub enum KnobAction {
    /// The synth engine parameter at this place of the patch.
    TurnParam(usize),
    /// The patch page's place in the store.
    SelectPatch,
    /// The cursor in the patch name.
    MoveCursor,
    /// The character under that cursor.
    ChangeChar,
    /// Loading (turned down) or saving (turned up) the patch at that place.
    LoadOrSave,
    /// Nothing.
    Ignore,
}

/// The action of the button at place `index` of page `page`'s button row,
/// pressed (`pressed`) or released.
///
/// - The exciter pages (bow, blow, strike) have Bow, Blow, Strike, Resonator
///   and System, each showing its screen; System is the patch page, and
///   Strike also plays the test note.
/// - The resonator pages have Resonator1, Resonator2, Exciter and System (on
///   the first, second, fourth and fifth hardware buttons); the first three
///   also play the test note, and Exciter shows the bow page.
/// - The patch page has Patch, Config, Exciter and Resonator (on the first,
///   second, fourth and fifth hardware buttons); Config has no page.
pub open spec fn button_action_of(page: PanelId, index: int, pressed: bool) -> ButtonAction {
    let show = |p: PanelId| ButtonAction { show: Some(p), test_note: None };
    let show_and_play = |p: PanelId| ButtonAction { show: Some(p), test_note: Some(pressed) };
    let nothing = ButtonAction { show: None, test_note: None };
    match page {
        PanelId::PanelBow | PanelId::PanelBlow | PanelId::PanelStrike => if index == 0 {
            show(PanelId::PanelBow)
        } else if index == 1 {
            show(PanelId::PanelBlow)
        } else if index == 2 {
            show_and_play(PanelId::PanelStrike)
        } else if index == 3 {
            show(PanelId::PanelRes)
        } else if index == 4 {
            show(PanelId::PanelPatch)
        } else {
            nothing
        },
        PanelId::PanelRes | PanelId::PanelOutput => if index == 0 {
            show_and_play(PanelId::PanelRes)
        } else if index == 1 {
            show_and_play(PanelId::PanelOutput)
        } else if index == 2 {
            show_and_play(PanelId::PanelBow)
        } else if index == 3 {
            show(PanelId::PanelPatch)
        } else {
            nothing
        },
        PanelId::PanelPatch => if index == 0 {
            show(PanelId::PanelPatch)
        } else if index == 2 {
            show(PanelId::PanelBow)
        } else if index == 3 {
            show(PanelId::PanelRes)
        } else {
            nothing
        },
    }
}

/// The exciter pages share one button row and the two resonator pages share
/// another: each button of a row does the same on every page that shows it.
pub proof fn lemma_rows_are_shared(index: int, pressed: bool)
    ensures
        button_action_of(PanelId::PanelBow, index, pressed) == button_action_of(PanelId::PanelBlow, index, pressed),
        button_action_of(PanelId::PanelBow, index, pressed) == button_action_of(PanelId::PanelStrike, index, pressed),
        button_action_of(PanelId::PanelRes, index, pressed) == button_action_of(PanelId::PanelOutput, index, pressed),
{
}

/// Each page's own button (the starred one of its row) shows that page; on
/// the resonator row the first button shows the first resonator page and the
/// second the output page, and on the exciter row the first three show the
/// bow, blow and strike pages in turn.
pub proof fn lemma_own_button_shows_its_page(pressed: bool)
    ensures
        button_action_of(PanelId::PanelBow, 0, pressed).show == Some(PanelId::PanelBow),
        button_action_of(PanelId::PanelBlow, 1, pressed).show == Some(PanelId::PanelBlow),
        button_action_of(PanelId::PanelStrike, 2, pressed).show == Some(PanelId::PanelStrike),
        button_action_of(PanelId::PanelRes, 0, pressed).show == Some(PanelId::PanelRes),
        button_action_of(PanelId::PanelOutput, 1, pressed).show == Some(PanelId::PanelOutput),
        button_action_of(PanelId::PanelPatch, 0, pressed).show == Some(PanelId::PanelPatch),
{
}

/// The engine parameters a page's knobs turn, in the order of its knobs,
/// each with the encoder (0 to 3) it sits on: bow level, timbre and
/// contour; blow level, timbre, contour and flow; strike level, timbre and
/// mallet; resonator geometry, brightness, damping and position.
pub open spec fn param_knobs(page: PanelId) -> Seq<(usize, Param)> {
    match page {
        PanelId::PanelBow => seq![(0, Param::ExcBowLevel), (1, Param::ExcBowTimbre), (2, Param::ExcEnvShape)],
        PanelId::PanelBlow => seq![
            (0, Param::ExcBlowLevel),
            (1, Param::ExcBlowTimbre),
            (2, Param::ExcEnvShape),
            (3, Param::ExcBlowMeta),
        ],
        PanelId::PanelStrike => seq![(0, Param::ExcStrikeLevel), (1, Param::ExcStrikeTimbre), (3, Param::ExcStrikeMeta)],
        PanelId::PanelRes => seq![
            (0, Param::ResGeometry),
            (1, Param::ResBrightness),
            (2, Param::ResDamping),
            (3, Param::ResPosition),
        ],
        _ => seq![],
    }
}

/// What the knob at place `index` of page `page` drives: on the patch page
/// the place, the cursor, the character and loading or saving; elsewhere the
/// page's engine parameters.
pub open spec fn knob_action_of(page: PanelId, index: int) -> KnobAction {
    if page == PanelId::PanelPatch {
        if index == 0 {
            KnobAction::SelectPatch
        } else if index == 1 {
            KnobAction::MoveCursor
        } else if index == 2 {
            KnobAction::ChangeChar
        } else if index == 3 {
            KnobAction::LoadOrSave
        } else {
            KnobAction::Ignore
        }
    } else if 0 <= index < param_knobs(page).len() {
        KnobAction::TurnParam(patch_field(param_knobs(page)[index].1) as usize)
    } else {
        KnobAction::Ignore
    }
}

/// The knobs of page `page` that turn engine parameters, showing `values`:
/// each on its encoder's place of the bottom row.
pub open spec fn param_knob_widgets(page: PanelId, values: Seq<u8>) -> Seq<Knob> {
    Seq::new(
        param_knobs(page).len(),
        |i: int|
            Knob {
                pos: Point { x: (32 * param_knobs(page)[i].0) as i32, y: 40 },
                input_id: (5 + param_knobs(page)[i].0) as u32,
                value: values[i],
                last_input_value: 0,
                dirty: true,
            },
    )
}

/// The button row of every page but the patch page: the exciter row with
/// the page's button starred, or the resonator row.
pub open spec fn page_buttons(page: PanelId, b: Seq<Button>) -> bool {
    match page {
        PanelId::PanelBow => is_exciter_buttons(b, 0),
        PanelId::PanelBlow => is_exciter_buttons(b, 1),
        PanelId::PanelStrike => is_exciter_buttons(b, 2),
        PanelId::PanelRes => is_resonator_buttons(b, 0),
        PanelId::PanelOutput => is_resonator_buttons(b, 1),
        PanelId::PanelPatch => false,
    }
}

/// The action of a press of the button at place `index` of page `page`.
pub fn button_action(page: PanelId, index: usize, pressed: bool) -> (a: ButtonAction)
    ensures
        a == button_action_of(page, index as int, pressed),
{
    let nothing = ButtonAction { show: None, test_note: None };
    match page {
        PanelId::PanelBow | PanelId::PanelBlow | PanelId::PanelStrike => match index {
            0 => ButtonAction { show: Some(PanelId::PanelBow), test_note: None },
            1 => ButtonAction { show: Some(PanelId::PanelBlow), test_note: None },
            2 => ButtonAction { show: Some(PanelId::PanelStrike), test_note: Some(pressed) },
            3 => ButtonAction { show: Some(PanelId::PanelRes), test_note: None },
            4 => ButtonAction { show: Some(PanelId::PanelPatch), test_note: None },
            _ => nothing,
        },
        PanelId::PanelRes | PanelId::PanelOutput => match index {
            0 => ButtonAction { show: Some(PanelId::PanelRes), test_note: Some(pressed) },
            1 => ButtonAction { show: Some(PanelId::PanelOutput), test_note: Some(pressed) },
            2 => ButtonAction { show: Some(PanelId::PanelBow), test_note: Some(pressed) },
            3 => ButtonAction { show: Some(PanelId::PanelPatch), test_note: None },
            _ => nothing,
        },
        PanelId::PanelPatch => match index {
            0 => ButtonAction { show: Some(PanelId::PanelPatch), test_note: None },
            2 => ButtonAction { show: Some(PanelId::PanelBow), test_note: None },
            3 => ButtonAction { show: Some(PanelId::PanelRes), test_note: None },
            _ => nothing,
        },
    }
}

/// The engine parameters a page's knobs turn, with their encoders.
pub fn param_knob_list(page: PanelId) -> (r: Vec<(usize, Param)>)
    ensures
        r@ == param_knobs(page),
{
    let mut r: Vec<(usize, Param)> = Vec::new();
    match page {
        PanelId::PanelBow => {
            r.push((0, Param::ExcBowLevel));
            r.push((1, Param::ExcBowTimbre));
            r.push((2, Param::ExcEnvShape));
        },
        PanelId::PanelBlow => {
            r.push((0, Param::ExcBlowLevel));
            r.push((1, Param::ExcBlowTimbre));
            r.push((2, Param::ExcEnvShape));
            r.push((3, Param::ExcBlowMeta));
        },
        PanelId::PanelStrike => {
            r.push((0, Param::ExcStrikeLevel));
            r.push((1, Param::ExcStrikeTimbre));
            r.push((3, Param::ExcStrikeMeta));
        },
        PanelId::PanelRes => {
            r.push((0, Param::ResGeometry));
            r.push((1, Param::ResBrightness));
            r.push((2, Param::ResDamping));
            r.push((3, Param::ResPosition));
        },
        _ => {},
    }
    assert(r@ =~= param_knobs(page));
    r
}

/// What a turn of the knob at place `index` of page `page` drives; the
/// engine fields come from the knob handlers.
pub fn knob_action(page: PanelId, index: usize) -> (a: KnobAction)
    ensures
        a == knob_action_of(page, index as int),
{
    if page == PanelId::PanelPatch {
        match index {
            0 => KnobAction::SelectPatch,
            1 => KnobAction::MoveCursor,
            2 => KnobAction::ChangeChar,
            3 => KnobAction::LoadOrSave,
            _ => KnobAction::Ignore,
        }
    } else {
        let knobs = param_knob_list(page);
        if index < knobs.len() {
            KnobAction::TurnParam(create_knob_handler(knobs[index].1).field_index())
        } else {
            KnobAction::Ignore
        }
    }
}

/// The strike page's knobs are the ones its own set-up lays out, and they
/// turn the parameters of the strike knob handlers, in the same order.
pub proof fn lemma_strike_knobs_agree(values: (u8, u8, u8))
    ensures
        param_knob_widgets(PanelId::PanelStrike, seq![values.0, values.1, values.2]) == strike_knobs(values),
        param_knobs(PanelId::PanelStrike).map_values(|e: (usize, Param)| KnobHandler { param: e.1 }) == seq![
            KnobHandler { param: Param::ExcStrikeLevel },
            KnobHandler { param: Param::ExcStrikeTimbre },
            KnobHandler { param: Param::ExcStrikeMeta },
        ],
{
    assert(param_knob_widgets(PanelId::PanelStrike, seq![values.0, values.1, values.2]) =~= strike_knobs(values));
    assert(param_knobs(PanelId::PanelStrike).map_values(|e: (usize, Param)| KnobHandler { param: e.1 }) =~= seq![
        KnobHandler { param: Param::ExcStrikeLevel },
        KnobHandler { param: Param::ExcStrikeTimbre },
        KnobHandler { param: Param::ExcStrikeMeta },
    ]);
}

/// On every page the knobs come in the order of their encoders, each on its
/// own encoder, so an encoder turns at most one parameter, and different
/// knobs of a page turn different parameters.
pub proof fn lemma_param_knobs_on_distinct_encoders(page: PanelId)
    ensures
        forall|i: int| 0 <= i < param_knobs(page).len() ==> #[trigger] param_knobs(page)[i].0 < 4,
        forall|i: int, j: int|
            0 <= i < j < param_knobs(page).len() ==> #[trigger] param_knobs(page)[i].0 < #[trigger] param_knobs(page)[j].0,
        forall|i: int, j: int|
            0 <= i < j < param_knobs(page).len() ==> patch_field(#[trigger] param_knobs(page)[i].1) != patch_field(
                #[trigger] param_knobs(page)[j].1,
            ),
{
}

/// Every button is drawn above its own hardware button (the five places of
/// the top row), and a row's buttons come in the order of their hardware
/// buttons.
pub proof fn lemma_buttons_over_their_inputs(page: PanelId, b: Seq<Button>)
    requires
        page_buttons(page, b) || (page == PanelId::PanelPatch && is_patch_buttons(b)),
    ensures
        forall|i: int| 0 <= i < b.len() ==> (#[trigger] b[i]).input_id < 5 && b[i].pos == (Point {
            x: seq![0i32, 26, 51, 77, 102][b[i].input_id as int],
            y: 0,
        }),
        forall|i: int, j: int| 0 <= i < j < b.len() ==> (#[trigger] b[i]).input_id < (#[trigger] b[j]).input_id,
{
}

/// The buttons and knobs of every page but the patch page; its knobs show
/// `values`, the answers of their handlers to a turn of 0. The output page
/// (the second resonator page) has no knobs.
pub fn setup_page(page: PanelId, values: &Vec<u8>) -> (r: Panel)
    requires
        page != PanelId::PanelPatch,
        values@.len() == param_knobs(page).len(),
    ensures
        page_buttons(page, r.model().0),
        r.model().1 == param_knob_widgets(page, values@),
{
    let buttons = match page {
        PanelId::PanelBow => setup_exciter_buttons(0),
        PanelId::PanelBlow => setup_exciter_buttons(1),
        PanelId::PanelStrike => setup_exciter_buttons(2),
        PanelId::PanelRes => setup_resonator_buttons(0),
        _ => setup_resonator_buttons(1),
    };
    let params = param_knob_list(page);
    let mut knobs = new_knob_list();
    let mut i: usize = 0;
    while i < params.len()
        invariant
            params@ == param_knobs(page),
            values@.len() == params@.len(),
            params@.len() <= 4,
            i <= params@.len(),
            knob_list(knobs) == param_knob_widgets(page, values@).take(i as int),
        decreases params@.len() - i,
    {
        let encoder = params[i].0;
        let knob = Knob::new(Point::new(32 * encoder as i32, 40), 5 + encoder as u32, values[i]);
        add_knob(&mut knobs, knob);
        assert(param_knob_widgets(page, values@).take(i as int + 1) =~= param_knob_widgets(page, values@).take(
            i as int,
        ).push(knob));
        i = i + 1;
    }
    assert(param_knob_widgets(page, values@).take(params@.len() as int) =~= param_knob_widgets(page, values@));
    Panel::new(buttons, knobs)
}

/// Whether a request can be run on page `page` without an arithmetic
/// overflow or an index out of range: the widget exists, and the patch
/// page's place, cursor and character stay within their types.
pub open spec fn request_ok(page: PanelId, request: PanelRequest, panel: (Seq<Button>, Seq<Knob>), state: State) -> bool {
    match request {
        PanelRequest::Button { index, .. } => index < panel.0.len(),
        PanelRequest::Knob { index, delta } => index < panel.1.len() && match knob_action_of(page, index as int) {
            KnobAction::SelectPatch => state.patch_idx < MAX_PATCHES && i8::MIN <= state.patch_idx + delta <= i8::MAX,
            KnobAction::MoveCursor => state.cursor_pos <= MAX_CURSOR_POS && i8::MIN <= state.cursor_pos + delta
                <= i8::MAX,
            KnobAction::ChangeChar => state.cursor_pos < state.patch_name.bytes@.len(),
            KnobAction::LoadOrSave => state.patch_idx < MAX_PATCHES,
            _ => true,
        },
    }
}

/// Whether `request_ok` holds.
pub fn request_accepted(page: PanelId, request: PanelRequest, panel: &Panel, state: &State) -> (r: bool)
    ensures
        r == request_ok(page, request, panel.model(), *state),
{
    match request {
        PanelRequest::Button { index, .. } => index < panel.button_count(),
        PanelRequest::Knob { index, delta } => {
            if index >= panel.knob_count() {
                return false;
            }
            match knob_action(page, index) {
                KnobAction::SelectPatch => {
                    let moved = state.patch_idx as i16 + delta as i16;
                    state.patch_idx < MAX_PATCHES as u8 && -128 <= moved && moved <= 127
                },
                KnobAction::MoveCursor => {
                    state.cursor_pos <= MAX_CURSOR_POS && -128 <= state.cursor_pos as i16 + delta as i16
                        && state.cursor_pos as i16 + delta as i16 <= 127
                },
                KnobAction::ChangeChar => state.cursor_pos < state.patch_name.bytes.len(),
                KnobAction::LoadOrSave => state.patch_idx < MAX_PATCHES as u8,
                _ => true,
            }
        },
    }
}

/// What is left for the firmware after a request has been run: the page to
/// show, the test note to play or stop, a flash image to write, and an
/// engine parameter to turn (the knob at `.0` asked to turn the field `.1`
/// by `.2` steps; the firmware turns it and answers the knob).
pub struct Outcome {
    pub show: Option<PanelId>,
    pub test_note: Option<bool>,
    pub store: Option<Vec<u8>>,
    pub turn: Option<(usize, usize, i8)>,
}

/// The knob at place `index` answered `value`; everything else stays.
pub open spec fn knob_answered(before: (Seq<Button>, Seq<Knob>), after: (Seq<Button>, Seq<Knob>), index: int, value: u8) -> bool {
    after == (before.0, before.1.update(index, Knob { value, ..before.1[index] }))
}

/// Runs the handler behind `request` on page `page` and gives its answer to
/// the widget that asked: a button press is taken (and drawn again) and does
/// what `button_action_of` says; a knob turn does what `knob_action_of` says,
/// and the knob shows the place, the cursor or the character that results
/// (the place for loading and saving). Engine parameters are turned by the
/// firmware, which gets them in `turn`.
pub fn run_request<F>(
    page: PanelId,
    request: PanelRequest,
    panel: &mut Panel,
    state: &mut State,
    storage: &mut Storage,
    synth: &mut Synth<F>,
) -> (o: Outcome)
    requires
        request_ok(page, request, old(panel).model(), *old(state)),
    ensures
        match request {
            PanelRequest::Button { index, pressed } => {
                let a = button_action_of(page, index as int, pressed);
                &&& o.show == a.show && o.test_note == a.test_note && o.store is None && o.turn is None
                &&& final(panel).model() == (
                    old(panel).model().0.update(index as int, Button { pressed, dirty: true, ..old(panel).model().0[index as int] }),
                    old(panel).model().1,
                )
                &&& *final(state) == *old(state) && *final(storage) == *old(storage) && *final(synth) == *old(synth)
            },
            PanelRequest::Knob { index, delta } => {
                let i = index as int;
                let before = old(panel).model();
                let s0 = *old(state);
                let s1 = *final(state);
                &&& o.show is None && o.test_note is None
                &&& match knob_action_of(page, i) {
                    KnobAction::TurnParam(field) => {
                        &&& o.turn == Some((index, field, delta)) && o.store is None
                        &&& final(panel).model() == before && s1 == s0
                        &&& *final(storage) == *old(storage) && *final(synth) == *old(synth)
                    },
                    KnobAction::SelectPatch => {
                        &&& o.turn is None && o.store is None
                        &&& s1.patch_idx == clamp(s0.patch_idx + delta, 0, MAX_PATCHES - 1)
                        &&& s1.patch_name.bytes@ == old(storage).patches()[s1.patch_idx as int].name@
                        &&& s1.patch_name.is_dirty
                        &&& s1.patch_name.cursor_pos == s0.patch_name.cursor_pos && s1.cursor_pos == s0.cursor_pos
                        &&& knob_answered(before, final(panel).model(), i, s1.patch_idx)
                        &&& *final(storage) == *old(storage) && *final(synth) == *old(synth)
                    },
                    KnobAction::MoveCursor => {
                        &&& o.turn is None && o.store is None
                        &&& s1.cursor_pos == clamp(s0.cursor_pos + delta, 0, MAX_CURSOR_POS as int)
                        &&& s1.patch_idx == s0.patch_idx && s1.patch_name.bytes@ == s0.patch_name.bytes@
                        &&& s1.patch_name.is_dirty == s0.patch_name.is_dirty
                        &&& s1.patch_name.cursor_pos == s0.patch_name.cursor_pos
                        &&& knob_answered(before, final(panel).model(), i, s1.cursor_pos as u8)
                        &&& *final(storage) == *old(storage) && *final(synth) == *old(synth)
                    },
                    KnobAction::ChangeChar => {
                        let c = (s0.patch_name.bytes@[s0.cursor_pos as int] + delta) as u8;
                        &&& o.turn is None && o.store is None
                        &&& s1.patch_name.bytes@ == s0.patch_name.bytes@.update(s0.cursor_pos as int, c)
                        &&& s1.patch_name.is_dirty
                        &&& s1.patch_name.cursor_pos == s0.patch_name.cursor_pos && s1.cursor_pos == s0.cursor_pos
                        &&& s1.patch_idx == s0.patch_idx
                        &&& knob_answered(before, final(panel).model(), i, c)
                        &&& *final(storage) == *old(storage) && *final(synth) == *old(synth)
                    },
                    KnobAction::LoadOrSave => {
                        let idx = s0.patch_idx as int;
                        &&& o.turn is None
                        &&& knob_answered(before, final(panel).model(), i, s0.patch_idx)
                        &&& s1.patch_idx == s0.patch_idx && s1.cursor_pos == s0.cursor_pos
                        &&& s1.patch_name.cursor_pos == s0.patch_name.cursor_pos
                        &&& if delta < 0 {
                            &&& o.store is None && *final(storage) == *old(storage)
                            &&& final(synth).patch() == old(storage).patches()[idx]
                            &&& final(synth).voice_events == old(synth).voice_events
                            &&& s1.patch_name.bytes@ == old(storage).patches()[idx].name@
                            &&& s1.patch_name.is_dirty
                        } else if delta > 0 {
                            &&& final(storage).patches() == old(storage).patches().update(
                                idx,
                                Patch { name: final(storage).patches()[idx].name, elements_params: old(synth).patch().elements_params },
                            )
                            &&& final(storage).patches()[idx].name@ == saved_name(s0.patch_name.bytes@)
                            &&& o.store is Some && o.store->0@ == store_bytes(final(storage).patches())
                            &&& s1 == s0 && *final(synth) == *old(synth)
                        } else {
                            &&& o.store is None && s1 == s0
                            &&& *final(storage) == *old(storage) && *final(synth) == *old(synth)
                        }
                    },
                    KnobAction::Ignore => {
                        &&& o.turn is None && o.store is None
                        &&& final(panel).model() == before && s1 == s0
                        &&& *final(storage) == *old(storage) && *final(synth) == *old(synth)
                    },
                }
            },
        },
{
    let nothing = Outcome { show: None, test_note: None, store: None, turn: None };
    match request {
        PanelRequest::Button { index, pressed } => {
            let a = button_action(page, index, pressed);
            panel.button_mut(index).handler_returned(pressed, true);
            Outcome { show: a.show, test_note: a.test_note, store: None, turn: None }
        },
        PanelRequest::Knob { index, delta } => match knob_action(page, index) {
            KnobAction::TurnParam(field) => Outcome { turn: Some((index, field, delta)), ..nothing },
            KnobAction::SelectPatch => {
                let place = select_patch(state, storage, delta);
                panel.knob_mut(index).handler_returned(place);
                nothing
            },
            KnobAction::MoveCursor => {
                let cursor = move_cursor(state, delta);
                panel.knob_mut(index).handler_returned(cursor);
                nothing
            },
            KnobAction::ChangeChar => {
                let c = change_char(state, delta);
                panel.knob_mut(index).handler_returned(c);
                nothing
            },
            KnobAction::LoadOrSave => {
                let mut store = None;
                if delta < 0 {
                    load_patch(state, storage, synth);
                } else if delta > 0 {
                    store = Some(save_patch(state, storage, synth));
                }
                panel.knob_mut(index).handler_returned(state.patch_idx);
                Outcome { store, ..nothing }
            },
            KnobAction::Ignore => nothing,
        },
    }
}

} // verus!
