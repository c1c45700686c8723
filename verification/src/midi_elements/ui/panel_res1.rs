//! The button row shared by the resonator panels.

use vstd::prelude::*;

use super::framework::button::Button;
use super::framework::Point;
use super::panel::{add_button, button_list, new_button_list};
use super::{BUTTON_POS_X, BUTTON_POS_Y};
use crate::kawa::ui::InputDeviceId;

verus! {

/// The buttons of the resonator panels: the two resonator pages on the first
/// two hardware buttons, with the caption of page `active` starred, none on
/// the third, then the exciter and system buttons on the fourth and fifth;
/// none pressed and all due to be drawn.
pub open spec fn is_resonator_buttons(b: Seq<Button>, active: int) -> bool {
    &&& b.len() == 4
    &&& b[0].caption == (if active == 0 { "*Res1" } else { " Res1" }) && b[0].pos == (Point { x: 0, y: 0 }) && b[0].input_id == 0
    &&& b[1].caption == (if active == 1 { "*Res2" } else { " Res2" }) && b[1].pos == (Point { x: 26, y: 0 }) && b[1].input_id == 1
    &&& b[2].caption == "Exc" && b[2].pos == (Point { x: 77, y: 0 }) && b[2].input_id == 3
    &&& b[3].caption == "Sys" && b[3].pos == (Point { x: 102, y: 0 }) && b[3].input_id == 4
    &&& forall|i: int| 0 <= i < 4 ==> !(#[trigger] b[i]).pressed && b[i].dirty
}

/// The buttons of the resonator panels, with the caption of page `active`
/// starred.
pub fn setup_resonator_buttons(active: i8) -> (r: heapless::Vec<Button, 8>)
    ensures
        is_resonator_buttons(button_list(r), active as int),
{
    let mut buttons = new_button_list();
    add_button(
        &mut buttons,
        Button::new(
            Point::new(BUTTON_POS_X[0], BUTTON_POS_Y),
            if active == 0 { "*Res1" } else { " Res1" },
            InputDeviceId::Button1.input_id(),
        ),
    );
    add_button(
        &mut buttons,
        Button::new(
            Point::new(BUTTON_POS_X[1], BUTTON_POS_Y),
            if active == 1 { "*Res2" } else { " Res2" },
            InputDeviceId::Button2.input_id(),
        ),
    );
    add_button(
        &mut buttons,
        Button::new(Point::new(BUTTON_POS_X[3], BUTTON_POS_Y), "Exc", InputDeviceId::Button4.input_id()),
    );
    add_button(
        &mut buttons,
        Button::new(Point::new(BUTTON_POS_X[4], BUTTON_POS_Y), "Sys", InputDeviceId::Button5.input_id()),
    );
    buttons
}

} // verus!
