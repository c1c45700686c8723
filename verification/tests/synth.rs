use kawa::kawa::main_loop::{region_needs_flush, update_trigger, TriggerEdge};
use kawa::kawa::patch::Patch;
use kawa::kawa::storage::{Storage, STORE_BYTES};
use kawa::kawa::synth::Synth;
use kawa::kawa::ui::panel_patch::{change_char, load_patch, move_cursor, save_patch, select_patch, setup};
use kawa::kawa::ui::framework::textbox::{Content, ContentBox};
use kawa::kawa::ui::navigation::{request_accepted, run_request};
use kawa::kawa::ui::PanelId;
use kawa::midi_elements::ui::panel::PanelRequest;
use kawa::kawa::util::QueueThreadSafe;
use kawa::kawa::voice::{ElementsCall, Voice, VoiceEvent};
use kawa::geometry::{Point, Size};

#[test]
fn queue_hands_out_events_in_order_once() {
    let mut q: QueueThreadSafe<u32> = QueueThreadSafe::new(4);
    q.enque(1);
    q.enque(2);
    let mut out = vec![0];
    q.deque_all(&mut out);
    assert_eq!(out, vec![0, 1, 2]);
    q.deque_all(&mut out);
    assert_eq!(out, vec![0, 1, 2]);
    q.enque(3);
    q.deque_all(&mut out);
    assert_eq!(out, vec![0, 1, 2, 3]);
}

#[test]
fn voice_turns_events_into_engine_calls() {
    let voice = Voice::new();
    let events = vec![
        VoiceEvent::NoteOn { retrigger: false, note: 40.0f32, strength: 1.0 },
        VoiceEvent::NoteOn { retrigger: true, note: 41.0, strength: 0.5 },
        VoiceEvent::NoteOff,
        VoiceEvent::ChangeModulation(0.25),
    ];
    let patch = Patch::new();
    let calls = voice.update(&events, &patch);
    let want = [
        "SetGate(true)", "SetNote(40.0)", "SetStrength(1.0)",
        "SetGate(true)", "RetriggerGate", "SetNote(41.0)", "SetStrength(0.5)",
        "SetGate(false)", "SetModulation(0.25)",
    ];
    assert_eq!(calls.len(), want.len() + 1);
    for (c, w) in calls.iter().zip(want.iter()) {
        assert_eq!(format!("{:?}", c), *w);
    }
    match calls[want.len()] {
        ElementsCall::SetPatch(p) => assert_eq!(p, patch.elements_params),
        _ => panic!("the patch is loaded last"),
    }
    assert!(voice.update::<f32>(&Vec::new(), &patch).len() == 1);
}

#[test]
fn synth_plays_the_patch_it_is_given() {
    let mut synth: Synth<f32> = Synth::new();
    assert_eq!(&synth.get_patch().name, b"empty   ");
    let mut p = Patch::new();
    p.name = *b"pad     ";
    synth.set_patch(&p);
    synth.test();
    assert_eq!(&synth.get_patch().name, b"pad     ");
}

#[test]
fn patch_panel_edits_loads_and_saves() {
    let mut storage = Storage::new(&vec![0xffu8; STORE_BYTES]);
    let mut synth: Synth<f32> = Synth::new();
    let (mut state, _, _) = setup(&synth, &storage);
    assert_eq!(state.patch_name.bytes, b"empty   ".to_vec());
    assert_eq!(move_cursor(&mut state, -3), 0);
    assert_eq!(move_cursor(&mut state, 20), 10);
    assert_eq!(move_cursor(&mut state, -9), 1);
    assert_eq!(change_char(&mut state, 1), b'n');
    assert_eq!(change_char(&mut state, -1), b'm');
    assert_eq!(change_char(&mut state, 100), 209);
    state.patch_name.bytes = b"lead".to_vec();
    assert_eq!(select_patch(&mut state, &storage, 20), 15);
    assert_eq!(state.patch_name.bytes, b"empty   ".to_vec());
    assert_eq!(select_patch(&mut state, &storage, -20), 0);
    assert_eq!(select_patch(&mut state, &storage, 3), 3);
    state.patch_name.bytes = b"lead".to_vec();
    let mut played = Patch::new();
    played.elements_params[0] = 7;
    synth.set_patch(&played);
    let image = save_patch(&state, &mut storage, &synth);
    assert_eq!(&storage.get_patch(3).name, b"lead    ");
    assert_eq!(storage.get_patch(3).elements_params[0], 7);
    assert_eq!(image, storage.flush());
    state.patch_name.bytes = b"a much longer name".to_vec();
    save_patch(&state, &mut storage, &synth);
    assert_eq!(&storage.get_patch(3).name, b"a much l");
    let mut other: Synth<f32> = Synth::new();
    assert!(load_patch(&mut state, &storage, &mut other));
    assert_eq!(&other.get_patch().name, b"a much l");
    assert_eq!(other.get_patch().elements_params[0], 7);
    assert_eq!(state.patch_name.bytes, b"a much l".to_vec());
}

#[test]
fn trigger_plays_on_the_falling_edge_and_stops_on_the_rising_edge() {
    assert_eq!(update_trigger(false, true), (true, Some(TriggerEdge::Pressed)));
    assert_eq!(update_trigger(true, true), (true, None));
    assert_eq!(update_trigger(true, false), (false, Some(TriggerEdge::Released)));
    assert_eq!(update_trigger(false, false), (false, None));
}

#[test]
fn only_a_drawn_region_with_area_is_flushed() {
    assert!(!region_needs_flush(None));
    assert!(!region_needs_flush(Some((Point::new(0, 0), Size::new(0, 5)))));
    assert!(!region_needs_flush(Some((Point::new(0, 0), Size::new(5, 0)))));
    assert!(region_needs_flush(Some((Point::new(3, 4), Size::new(5, 6)))));
}

#[test]
fn patch_page_starts_at_place_zero_showing_its_name() {
    let mut storage = Storage::new(&vec![0xffu8; STORE_BYTES]);
    let mut stored = Patch::new();
    stored.name = *b"lead    ";
    storage.save_patch(0, &stored);
    let synth: Synth<f32> = Synth::new();
    let (state, mut panel, text_box) = setup(&synth, &storage);
    assert_eq!(state.patch_idx, 0);
    assert_eq!(state.cursor_pos, 0);
    assert_eq!(state.patch_name.bytes, b"lead    ".to_vec());
    assert!(state.patch_name.is_dirty);
    assert_eq!(text_box, ContentBox { pos: Point::new(32, 20), highlight: false });
    assert_eq!(panel.button_count(), 4);
    assert_eq!(panel.button_mut(0).caption, "*Pat");
    assert_eq!(panel.button_mut(1).caption, " Cfg");
    assert_eq!(panel.button_mut(2).caption, " Exc");
    assert_eq!(panel.button_mut(2).input_id, 3);
    assert_eq!(panel.button_mut(3).caption, " Res");
    assert_eq!(panel.knob_count(), 4);
    assert_eq!(panel.knob_mut(3).input_id, 8);
    assert_eq!(panel.knob_mut(0).value, 0);
    assert_eq!(panel.knob_mut(2).value, b'l');
    assert_eq!(panel.knob_mut(2).input_id, 7);
}

#[test]
fn trigger_edges_alternate_over_a_run_of_readings() {
    let readings = [false, true, true, false, false, true, false];
    let mut state = false;
    let mut edges = Vec::new();
    for low in readings {
        let (next, edge) = update_trigger(state, low);
        state = next;
        if let Some(e) = edge {
            edges.push(e);
        }
    }
    assert_eq!(
        edges,
        vec![TriggerEdge::Pressed, TriggerEdge::Released, TriggerEdge::Pressed, TriggerEdge::Released]
    );
    assert!(!state);
}

#[test]
fn patch_page_requests_browse_edit_load_and_save() {
    let mut storage = Storage::new(&vec![0xffu8; STORE_BYTES]);
    let mut stored = Patch::new();
    stored.name = *b"bell    ";
    stored.elements_params[1] = 9;
    storage.save_patch(2, &stored);
    let mut synth: Synth<f32> = Synth::new();
    let (mut state, mut panel, _) = setup(&synth, &storage);
    let page = PanelId::PanelPatch;

    let browse = PanelRequest::Knob { index: 0, delta: 2 };
    assert!(request_accepted(page, browse, &panel, &state));
    let o = run_request(page, browse, &mut panel, &mut state, &mut storage, &mut synth);
    assert!(o.show.is_none() && o.store.is_none() && o.turn.is_none());
    assert_eq!(state.patch_idx, 2);
    assert_eq!(state.patch_name.bytes, b"bell    ".to_vec());
    assert_eq!(panel.knob_mut(0).value, 2);

    let load = PanelRequest::Knob { index: 3, delta: -1 };
    run_request(page, load, &mut panel, &mut state, &mut storage, &mut synth);
    assert_eq!(synth.get_patch().elements_params[1], 9);
    assert_eq!(panel.knob_mut(3).value, 2);

    let letter = PanelRequest::Knob { index: 2, delta: 1 };
    run_request(page, letter, &mut panel, &mut state, &mut storage, &mut synth);
    assert_eq!(state.patch_name.bytes, b"cell    ".to_vec());
    let save = PanelRequest::Knob { index: 3, delta: 1 };
    let o = run_request(page, save, &mut panel, &mut state, &mut storage, &mut synth);
    assert_eq!(&storage.get_patch(2).name, b"cell    ");
    assert_eq!(o.store, Some(storage.flush()));

    let exciter = PanelRequest::Button { index: 2, pressed: true };
    let o = run_request(page, exciter, &mut panel, &mut state, &mut storage, &mut synth);
    assert_eq!(o.show, Some(PanelId::PanelBow));
    assert!(panel.button_mut(2).pressed);

    let to_end = PanelRequest::Knob { index: 1, delta: 9 };
    run_request(page, to_end, &mut panel, &mut state, &mut storage, &mut synth);
    assert_eq!(state.cursor_pos, 9);
    assert_eq!(panel.knob_mut(1).value, 9);
    assert!(!request_accepted(page, letter, &panel, &state));
    let strike_turn = PanelRequest::Knob { index: 0, delta: 3 };
    let mut strike = kawa::kawa::ui::navigation::setup_page(PanelId::PanelStrike, &vec![0, 0, 0]);
    let o = run_request(PanelId::PanelStrike, strike_turn, &mut strike, &mut state, &mut storage, &mut synth);
    assert_eq!(o.turn, Some((0, 6, 3)));
}

#[test]
fn name_characters_sit_side_by_side() {
    let text_box = ContentBox::new(Point::new(32, 20));
    let content = Content { bytes: b"ab\ncd".to_vec(), is_dirty: true, cursor_pos: 0 };
    let (places, size) = text_box.content_layout(&content);
    assert_eq!(places, vec![Point::new(32, 20), Point::new(38, 20), Point::new(44, 20), Point::new(44, 20), Point::new(50, 20)]);
    assert_eq!(size, Size::new(24, 12));
}
