use kawa::midi_elements::driver::encoder::position_from_count;
use kawa::midi_elements::elements_handlers::{create_knob_handler, Param};
use kawa::midi_elements::ui::button::Button as PlainButton;
use kawa::midi_elements::ui::framework::button::Button;
use kawa::midi_elements::ui::framework::{InputConsumer, Point, Size, Value};
use kawa::midi_elements::ui::knob::Knob;
use kawa::midi_elements::ui::panel::{add_button, add_knob, new_button_list, new_knob_list, Panel, PanelRequest};
use kawa::midi_elements::ui::panel_res1::setup_resonator_buttons;
use kawa::midi_elements::ui::panel_strike::{knob_handlers, setup, setup_exciter_buttons};
use kawa::geometry::try_cover_rects;
use kawa::kawa::ui::navigation::{button_action, knob_action, setup_page, ButtonAction, KnobAction};
use kawa::kawa::ui::PanelId;

#[test]
fn knob_text_shows_the_last_two_digits() {
    let text = |v: u8| Knob::new(Point::new(0, 0), 5, v).value_text();
    assert_eq!(&text(0), b" 0");
    assert_eq!(&text(7), b" 7");
    assert_eq!(&text(19), b"19");
    assert_eq!(&text(99), b"99");
    assert_eq!(&text(100), b"00");
    assert_eq!(&text(255), b"55");
}

#[test]
fn knob_ignores_jumps_and_passes_small_moves() {
    let mut k = Knob::new(Point::new(0, 40), 5, 3);
    assert_eq!(k.input_update(5, Value::Int(9)), Some(9));
    assert_eq!(k.input_update(5, Value::Int(40)), None);
    assert_eq!(k.input_update(5, Value::Int(31)), Some(-9));
    assert_eq!(k.input_update(5, Value::Int(31)), None);
    assert_eq!(k.input_update(6, Value::Int(0)), None);
    k.handler_returned(14);
    assert_eq!(k.value, 14);
    k.rendered();
    assert!(!k.is_dirty());
    k.input_reset();
    assert!(k.is_dirty());
}

#[test]
fn handler_button_takes_the_state_its_handler_accepts() {
    let mut b = Button::new(Point::new(0, 0), "*Str", 1);
    assert_eq!(b.input_update(1, Value::Bool(false)), None);
    assert_eq!(b.input_update(1, Value::Bool(true)), Some(true));
    b.handler_returned(true, false);
    assert!(!b.pressed);
    b.rendered();
    b.handler_returned(true, true);
    assert!(b.pressed && b.is_dirty());
    assert_eq!(b.input_update(1, Value::Bool(true)), None);
}

#[test]
fn plain_button_follows_its_hardware_button() {
    let mut b = PlainButton::new(Point::new(26, 0), "P2", 1);
    b.rendered();
    b.input_update(1, Value::Bool(true));
    assert!(b.pressed && b.is_dirty());
    b.rendered();
    b.input_update(2, Value::Bool(false));
    assert!(b.pressed && !b.is_dirty());
    b.input_reset();
    assert!(b.is_dirty());
}

#[test]
fn panel_sends_an_input_to_every_widget() {
    let mut buttons = new_button_list();
    add_button(&mut buttons, Button::new(Point::new(0, 0), "A", 0));
    add_button(&mut buttons, Button::new(Point::new(26, 0), "B", 0));
    let mut knobs = new_knob_list();
    add_knob(&mut knobs, Knob::new(Point::new(0, 40), 5, 0));
    add_knob(&mut knobs, Knob::new(Point::new(32, 40), 5, 0));
    let mut panel = Panel::new(buttons, knobs);
    assert_eq!(panel.button_count(), 2);
    assert_eq!(panel.knob_count(), 2);
    assert_eq!(
        panel.input_update(0, Value::Bool(true)),
        vec![PanelRequest::Button { index: 0, pressed: true }, PanelRequest::Button { index: 1, pressed: true }]
    );
    assert_eq!(
        panel.input_update(5, Value::Int(2)),
        vec![PanelRequest::Knob { index: 0, delta: 2 }, PanelRequest::Knob { index: 1, delta: 2 }]
    );
    panel.knob_mut(1).handler_returned(4);
    assert_eq!(panel.knob_mut(1).value, 4);
    panel.button_mut(0).handler_returned(true, true);
    assert!(panel.button_mut(0).pressed);
    assert_eq!(panel.input_update(0, Value::Bool(true)), vec![PanelRequest::Button { index: 1, pressed: true }]);
    panel.input_reset();
    assert!(panel.knob_mut(0).is_dirty());
    let area = Panel::render_area(&vec![(Point::new(0, 0), Size::new(6, 12)), (Point::new(0, 40), Size::new(12, 12))]);
    assert_eq!(area, (Point::new(0, 0), Size::new(12, 52)));
}

#[test]
fn strike_panel_layout() {
    let (buttons, knobs) = setup((1, 2, 3));
    let mut panel = Panel::new(buttons, knobs);
    assert_eq!(panel.button_count(), 5);
    assert_eq!(panel.knob_count(), 3);
    assert_eq!(panel.button_mut(0).caption, " Bow");
    assert_eq!(panel.button_mut(1).caption, " Blw");
    assert_eq!(panel.button_mut(2).caption, "*Str");
    assert_eq!(panel.button_mut(3).caption, " Res");
    assert_eq!(panel.button_mut(4).caption, " Sys");
    assert_eq!(panel.button_mut(4).input_id, 4);
    assert_eq!(panel.knob_mut(2).pos, Point::new(96, 40));
    assert_eq!(panel.knob_mut(2).input_id, 8);
    assert_eq!(panel.knob_mut(1).value, 2);
    let handlers = knob_handlers();
    assert_eq!(handlers[0].param, Param::ExcStrikeLevel);
    assert_eq!(handlers[2].param, Param::ExcStrikeMeta);
}

#[test]
fn resonator_buttons_star_the_active_page() {
    let mut panel = Panel::new(setup_resonator_buttons(1), new_knob_list());
    assert_eq!(panel.button_count(), 4);
    assert_eq!(panel.button_mut(0).caption, " Res1");
    assert_eq!(panel.button_mut(1).caption, "*Res2");
    assert_eq!(panel.button_mut(2).caption, "Exc");
    assert_eq!(panel.button_mut(2).input_id, 3);
    let mut first = Panel::new(setup_resonator_buttons(0), new_knob_list());
    assert_eq!(first.button_mut(0).caption, "*Res1");
}

#[test]
fn knob_handlers_drive_the_strike_fields() {
    assert_eq!(create_knob_handler(Param::ExcStrikeLevel).field_index(), 6);
    assert_eq!(create_knob_handler(Param::ExcStrikeMeta).field_index(), 7);
    assert_eq!(create_knob_handler(Param::ExcStrikeTimbre).field_index(), 8);
}

#[test]
fn encoder_position_is_half_the_signed_count() {
    assert_eq!(position_from_count(0), 0);
    assert_eq!(position_from_count(7), 3);
    assert_eq!(position_from_count(0xffff), 0);
    assert_eq!(position_from_count(0xfffd), -1);
    assert_eq!(position_from_count(0x8000), -16384);
    assert_eq!(position_from_count(0x1_0004), 2);
}

#[test]
fn exciter_pages_star_their_own_button() {
    let mut bow = Panel::new(setup_exciter_buttons(0), new_knob_list());
    assert_eq!(bow.button_mut(0).caption, "*Bow");
    assert_eq!(bow.button_mut(2).caption, " Str");
    let mut blow = Panel::new(setup_exciter_buttons(1), new_knob_list());
    assert_eq!(blow.button_mut(1).caption, "*Blw");
    assert_eq!(blow.button_mut(1).pos, Point::new(26, 0));
}

fn show(p: PanelId) -> ButtonAction {
    ButtonAction { show: Some(p), test_note: None }
}

fn show_and_play(p: PanelId) -> ButtonAction {
    ButtonAction { show: Some(p), test_note: Some(true) }
}

#[test]
fn top_row_buttons_switch_screens() {
    assert_eq!(button_action(PanelId::PanelStrike, 0, true), show(PanelId::PanelBow));
    assert_eq!(button_action(PanelId::PanelBow, 1, true), show(PanelId::PanelBlow));
    assert_eq!(button_action(PanelId::PanelBlow, 2, true), show_and_play(PanelId::PanelStrike));
    assert_eq!(button_action(PanelId::PanelStrike, 3, true), show(PanelId::PanelRes));
    assert_eq!(button_action(PanelId::PanelStrike, 4, true), show(PanelId::PanelPatch));
    assert_eq!(button_action(PanelId::PanelRes, 0, true), show_and_play(PanelId::PanelRes));
    assert_eq!(button_action(PanelId::PanelRes, 1, true), show_and_play(PanelId::PanelOutput));
    assert_eq!(button_action(PanelId::PanelOutput, 2, true), show_and_play(PanelId::PanelBow));
    assert_eq!(button_action(PanelId::PanelRes, 3, true), show(PanelId::PanelPatch));
    assert_eq!(button_action(PanelId::PanelPatch, 0, true), show(PanelId::PanelPatch));
    assert_eq!(button_action(PanelId::PanelPatch, 1, true), ButtonAction { show: None, test_note: None });
    assert_eq!(button_action(PanelId::PanelPatch, 2, true), show(PanelId::PanelBow));
    assert_eq!(button_action(PanelId::PanelPatch, 3, true), show(PanelId::PanelRes));
}

#[test]
fn knobs_drive_their_parameters() {
    assert_eq!(knob_action(PanelId::PanelStrike, 0), KnobAction::TurnParam(6));
    assert_eq!(knob_action(PanelId::PanelStrike, 1), KnobAction::TurnParam(8));
    assert_eq!(knob_action(PanelId::PanelStrike, 2), KnobAction::TurnParam(7));
    assert_eq!(knob_action(PanelId::PanelStrike, 3), KnobAction::Ignore);
    assert_eq!(knob_action(PanelId::PanelBow, 0), KnobAction::TurnParam(1));
    assert_eq!(knob_action(PanelId::PanelBow, 2), KnobAction::TurnParam(0));
    assert_eq!(knob_action(PanelId::PanelBlow, 3), KnobAction::TurnParam(4));
    assert_eq!(knob_action(PanelId::PanelRes, 3), KnobAction::TurnParam(13));
    assert_eq!(knob_action(PanelId::PanelOutput, 0), KnobAction::Ignore);
    assert_eq!(knob_action(PanelId::PanelPatch, 0), KnobAction::SelectPatch);
    assert_eq!(knob_action(PanelId::PanelPatch, 2), KnobAction::ChangeChar);
    assert_eq!(knob_action(PanelId::PanelPatch, 3), KnobAction::LoadOrSave);
}

#[test]
fn pages_set_up_their_rows_and_knobs() {
    let mut blow = setup_page(PanelId::PanelBlow, &vec![1, 2, 3, 4]);
    assert_eq!(blow.button_count(), 5);
    assert_eq!(blow.button_mut(1).caption, "*Blw");
    assert_eq!(blow.knob_count(), 4);
    assert_eq!(blow.knob_mut(3).pos, Point::new(96, 40));
    assert_eq!(blow.knob_mut(3).input_id, 8);
    assert_eq!(blow.knob_mut(3).value, 4);
    let mut strike = setup_page(PanelId::PanelStrike, &vec![1, 2, 3]);
    assert_eq!(strike.knob_mut(2).input_id, 8);
    let mut output = setup_page(PanelId::PanelOutput, &vec![]);
    assert_eq!(output.button_mut(1).caption, "*Res2");
    assert_eq!(output.knob_count(), 0);
}

#[test]
fn joining_rectangles_that_overflow_gives_nothing() {
    let fine = vec![(Point::new(0, 0), Size::new(6, 12)), (Point::new(0, 40), Size::new(12, 12))];
    assert_eq!(try_cover_rects(&fine), Some((Point::new(0, 0), Size::new(12, 52))));
    let far = vec![(Point::new(i32::MAX - 2, 0), Size::new(10, 1))];
    assert_eq!(try_cover_rects(&far), None);
}
