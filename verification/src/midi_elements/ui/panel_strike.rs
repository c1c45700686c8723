//! The panel of the strike exciter.

use vstd::prelude::*;

use super::framework::button::Button;
use super::framework::Point;
use super::knob::Knob;
use super::panel::{add_button, add_knob, button_list, knob_list, new_button_list, new_knob_list};
use crate::kawa::ui::{InputDeviceId, BUTTON_POS_X, BUTTON_POS_Y};
use crate::midi_elements::elements_handlers::{create_knob_handler, KnobHandler, Param};

verus! {

/// The handlers of the strike panel's knobs, in the order of the knobs:
/// level, timbre and mallet.
pub fn knob_handlers() -> (r: Vec<KnobHandler>)
    ensures
        r@ == seq![
            KnobHandler { param: Param::ExcStrikeLevel },
            KnobHandler { param: Param::ExcStrikeTimbre },
            KnobHandler { param: Param::ExcStrikeMeta },
        ],
{
    let mut handlers = Vec::new();
    handlers.push(create_knob_handler(Param::ExcStrikeLevel));
    handlers.push(create_knob_handler(Param::ExcStrikeTimbre));
    handlers.push(create_knob_handler(Param::ExcStrikeMeta));
    assert(handlers@ =~= seq![
        KnobHandler { param: Param::ExcStrikeLevel },
        KnobHandler { param: Param::ExcStrikeTimbre },
        KnobHandler { param: Param::ExcStrikeMeta },
    ]);
    handlers
}

/// The knobs of the strike panel: level, timbre and mallet, on the first,
/// second and fourth encoder, showing `values`.
pub open spec fn strike_knobs(values: (u8, u8, u8)) -> Seq<Knob> {
    seq![
        Knob { pos: Point { x: 0, y: 40 }, input_id: 5, value: values.0, last_input_value: 0, dirty: true },
        Knob { pos: Point { x: 32, y: 40 }, input_id: 6, value: values.1, last_input_value: 0, dirty: true },
        Knob { pos: Point { x: 96, y: 40 }, input_id: 8, value: values.2, last_input_value: 0, dirty: true },
    ]
}

/// The buttons of the exciter pages (bow, blow and strike), on the five
/// hardware buttons in order: the bow, blow and strike pages, the resonator
/// page and the system page. The caption of page `active` (0 bow, 1 blow,
/// 2 strike) is starred; none is pressed and all are due to be drawn.
pub open spec fn is_exciter_buttons(b: Seq<Button>, active: int) -> bool {
    &&& b.len() == 5
    &&& b[0].caption == (if active == 0 { "*Bow" } else { " Bow" }) && b[0].pos == (Point { x: 0, y: 0 }) && b[0].input_id == 0
    &&& b[1].caption == (if active == 1 { "*Blw" } else { " Blw" }) && b[1].pos == (Point { x: 26, y: 0 }) && b[1].input_id == 1
    &&& b[2].caption == (if active == 2 { "*Str" } else { " Str" }) && b[2].pos == (Point { x: 51, y: 0 }) && b[2].input_id == 2
    &&& b[3].caption == " Res" && b[3].pos == (Point { x: 77, y: 0 }) && b[3].input_id == 3
    &&& b[4].caption == " Sys" && b[4].pos == (Point { x: 102, y: 0 }) && b[4].input_id == 4
    &&& forall|i: int| 0 <= i < 5 ==> !(#[trigger] b[i]).pressed && b[i].dirty
}

/// The knobs of the strike panel, showing `values`, the answers of their
/// handlers (`knob_handlers`) to a turn of 0.
fn setup_knobs(values: (u8, u8, u8)) -> (r: heapless::Vec<Knob, 8>)
    ensures
        knob_list(r) == strike_knobs(values),
{
    let mut knobs = new_knob_list();
    add_knob(&mut knobs, Knob::new(Point::new(0, 40), InputDeviceId::Knob1.input_id(), values.0));
    add_knob(&mut knobs, Knob::new(Point::new(32, 40), InputDeviceId::Knob2.input_id(), values.1));
    add_knob(&mut knobs, Knob::new(Point::new(96, 40), InputDeviceId::Knob4.input_id(), values.2));
    assert(knob_list(knobs) =~= strike_knobs(values));
    knobs
}

/// The buttons of the exciter pages, with the caption of page `active`
/// starred.
pub fn setup_exciter_buttons(active: i8) -> (r: heapless::Vec<Button, 8>)
    ensures
        is_exciter_buttons(button_list(r), active as int),
{
    let mut buttons = new_button_list();
    add_button(
        &mut buttons,
        Button::new(Point::new(BUTTON_POS_X[0], BUTTON_POS_Y), if active == 0 { "*Bow" } else { " Bow" }, InputDeviceId::Button1.input_id()),
    );
    add_button(
        &mut buttons,
        Button::new(Point::new(BUTTON_POS_X[1], BUTTON_POS_Y), if active == 1 { "*Blw" } else { " Blw" }, InputDeviceId::Button2.input_id()),
    );
    add_button(
        &mut buttons,
        Button::new(Point::new(BUTTON_POS_X[2], BUTTON_POS_Y), if active == 2 { "*Str" } else { " Str" }, InputDeviceId::Button3.input_id()),
    );
    add_button(&mut buttons, Button::new(Point::new(BUTTON_POS_X[3], BUTTON_POS_Y), " Res", InputDeviceId::Button4.input_id()));
    add_button(&mut buttons, Button::new(Point::new(BUTTON_POS_X[4], BUTTON_POS_Y), " Sys", InputDeviceId::Button5.input_id()));
    buttons
}

/// The buttons and knobs of the strike panel; the knobs show `knob_values`.
pub fn setup(knob_values: (u8, u8, u8)) -> (r: (heapless::Vec<Button, 8>, heapless::Vec<Knob, 8>))
    ensures
        is_exciter_buttons(button_list(r.0), 2),
        knob_list(r.1) == strike_knobs(knob_values),
{
    (setup_exciter_buttons(2), setup_knobs(knob_values))
}

} // verus!
