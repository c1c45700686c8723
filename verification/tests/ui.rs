use embedded_graphics::fonts::{Font6x6, Text};
use embedded_graphics::geometry::Dimensions;
use embedded_graphics::pixelcolor::BinaryColor;
use embedded_graphics::style::TextStyle;
use kawa::geometry::{Point, Size};
use kawa::kawa::ui::framework::button::Button;
use kawa::kawa::ui::framework::knob::{Knob, KnobOptions};
use kawa::kawa::ui::framework::textbox::{Content, ContentBox};
use kawa::kawa::ui::framework::{InputConsumer, Value};
use kawa::kawa::ui::{InputDeviceId, PanelId, UI};

fn knob(input_id: u32) -> Knob<'static> {
    Knob::new(Point::new(0, 40), "Lvl", input_id, 7, 20, KnobOptions::default())
}

#[test]
fn knob_first_reading_asks_for_the_value_then_follows_moves() {
    let mut k = knob(5);
    assert_eq!(k.input_update(5, Value::Int(100)), Some(0));
    assert_eq!(k.input_update(5, Value::Int(100)), None);
    assert_eq!(k.input_update(5, Value::Int(103)), Some(3));
    assert_eq!(k.input_update(5, Value::Int(101)), Some(-2));
    assert_eq!(k.input_update(6, Value::Int(0)), None);
    assert_eq!(k.input_update(5, Value::Bool(true)), None);
    k.input_reset();
    assert_eq!(k.input_update(5, Value::Int(50)), Some(0));
}

#[test]
fn knob_turns_wider_than_a_byte_keep_their_low_byte() {
    let mut k = knob(5);
    k.input_update(5, Value::Int(0));
    assert_eq!(k.input_update(5, Value::Int(300)), Some(44));
}

#[test]
fn knob_shows_what_the_handler_answers() {
    let mut k = knob(5);
    assert!(k.is_dirty());
    assert_eq!(k.rendered(), (Point::new(-10, 30), Size::new(20, 20)));
    assert!(!k.is_dirty());
    k.handler_returned(12);
    assert_eq!(k.value, 12);
    assert!(k.is_dirty());
    let mut quiet = Knob::new(Point::new(0, 0), "Spc", 7, 0, 20, KnobOptions { render_value: false });
    assert_eq!(quiet.rendered(), (Point::new(0, 0), Size::new(0, 0)));
    quiet.handler_returned(3);
    assert!(quiet.dirty);
    assert!(!quiet.dirty_text);
}

#[test]
fn button_passes_its_readings_to_the_handler() {
    let mut b = Button::new(Point::new(0, 0), "*Ld", 0);
    b.rendered();
    assert_eq!(b.input_update(0, Value::Bool(true)), Some(true));
    assert_eq!(b.input_update(1, Value::Bool(true)), None);
    assert_eq!(b.input_update(0, Value::Int(3)), None);
    b.handler_returned(false);
    assert!(!b.is_dirty());
    b.handler_returned(true);
    assert!(b.is_dirty());
    b.rendered();
    b.input_reset();
    assert!(b.is_dirty());
}

#[test]
fn ui_sends_a_held_button_once_and_knobs_always() {
    let mut ui: UI<Knob<'static>> = UI::new();
    assert_eq!(ui.update_knobs((Value::Int(1), Value::Int(2), Value::Int(3), Value::Int(4))), None);
    ui.setup(vec![knob(0), knob(5), knob(6), knob(7), knob(8), knob(1)]);
    ui.change_panel(PanelId::PanelBlow);
    assert_eq!(ui.current_panel(), Some(1));
    // the knob on the blow panel listens to the first encoder
    assert_eq!(
        ui.update_knobs((Value::Int(10), Value::Int(20), Value::Int(30), Value::Int(40))),
        Some((Some(0), None, None, None))
    );
    assert_eq!(
        ui.update_knobs((Value::Int(12), Value::Int(20), Value::Int(30), Value::Int(40))),
        Some((Some(2), None, None, None))
    );
    ui.change_panel(PanelId::PanelBow);
    // the knob on the bow panel listens to button 1: a press reaches it once
    assert_eq!(ui.update_button(InputDeviceId::Button1, true), Some(None));
    assert_eq!(ui.update_button(InputDeviceId::Button1, true), None);
    assert_eq!(ui.update_button(InputDeviceId::Button1, false), None);
    let r = ui.update_buttons((true, false, false, false, false));
    assert_eq!(r, (Some(None), None, None, None, None));
    let panel = ui.current_panel_mut().unwrap();
    assert_eq!(panel.value, 7);
}

#[test]
fn ui_without_panels_ignores_panel_changes() {
    let mut ui: UI<Knob<'static>> = UI::new();
    ui.change_panel(PanelId::PanelPatch);
    assert_eq!(ui.current_panel(), None);
    assert!(ui.current_panel_mut().is_none());
    assert_eq!(ui.update_button(InputDeviceId::Button3, true), None);
}

#[test]
fn input_ids_and_panel_places() {
    assert_eq!(InputDeviceId::Button1.input_id(), 0);
    assert_eq!(InputDeviceId::Button5.input_id(), 4);
    assert_eq!(InputDeviceId::Knob1.input_id(), 5);
    assert_eq!(InputDeviceId::Knob4.input_id(), 8);
    assert_eq!(PanelId::PanelBow.index(), 0);
    assert_eq!(PanelId::PanelPatch.index(), 5);
}

#[test]
fn content_box_highlights_the_cursor_character() {
    let mut content = Content { bytes: b"abc".to_vec(), is_dirty: true, cursor_pos: 1 };
    let b = ContentBox::new(Point::new(32, 20));
    assert!(!b.char_highlighted(&content, 0));
    assert!(b.char_highlighted(&content, 1));
    assert!(b.is_dirty(&content));
    b.rendered(&mut content);
    assert!(!b.is_dirty(&content));
    let all = ContentBox { pos: Point::new(0, 0), highlight: true };
    assert!(all.char_highlighted(&content, 2));
}

#[test]
fn knob_caption_sits_centred_below_the_dial() {
    let width = Text::new("Pos", embedded_graphics::geometry::Point::new(0, 0))
        .into_styled(TextStyle::new(Font6x6, BinaryColor::On))
        .size()
        .width;
    assert!(width > 0);
    let k = Knob::new(Point::new(32, 40), "Pos", 6, 0, 20, KnobOptions::default());
    assert_eq!(k.text_pos, Point::new(32 - (width / 2) as i32, 54));
    let empty = Knob::new(Point::new(32, 40), "", 6, 0, 20, KnobOptions::default());
    assert_eq!(empty.text_pos, Point::new(32, 54));
}
