//! The panel UI of the synth: buttons across the top of the display, knobs
//! along the bottom, and the routing of the hardware inputs to the panel on
//! screen.

pub mod framework;
pub mod navigation;
pub mod panel_patch;

use vstd::prelude::*;

use self::framework::{InputConsumer, InputId, Value};

verus! {

/// The x positions of the four knobs along the bottom of the display.
pub const KNOB_POS_X: [i32; 4] = [0, 32, 64, 96];
/// The y position of the knobs.
pub const KNOB_POS_Y: i32 = 40;
/// The x positions of the five buttons across the top of the display.
pub const BUTTON_POS_X: [i32; 5] = [0, 26, 51, 77, 102];
/// The y position of the buttons.
pub const BUTTON_POS_Y: i32 = 0;

/// The number of hardware buttons.
pub const BUTTON_COUNT: usize = 5;
/// The number of panels the UI switches between.
pub const PANEL_COUNT: usize = 6;

/// The hardware inputs: five buttons, then four rotary encoders.
#[derive(Clone, Copy, Debug, PartialEq, Eq, Structural)]
pub enum InputDeviceId {
    Button1,
    Button2,
    Button3,
    Button4,
    Button5,
    Knob1,
    Knob2,
    Knob3,
    Knob4,
}

/// The number of an input, in the order of declaration.
pub open spec fn device_number(id: InputDeviceId) -> nat {
    match id {
        InputDeviceId::Button1 => 0,
        InputDeviceId::Button2 => 1,
        InputDeviceId::Button3 => 2,
        InputDeviceId::Button4 => 3,
        InputDeviceId::Button5 => 4,
        InputDeviceId::Knob1 => 5,
        InputDeviceId::Knob2 => 6,
        InputDeviceId::Knob3 => 7,
        InputDeviceId::Knob4 => 8,
    }
}

impl InputDeviceId {
    /// The input id widgets listen to for this input.
    pub fn input_id(self) -> (r: InputId)
        ensures
            r == device_number(self),
    {
        match self {
            InputDeviceId::Button1 => 0,
            InputDeviceId::Button2 => 1,
            InputDeviceId::Button3 => 2,
            InputDeviceId::Button4 => 3,
            InputDeviceId::Button5 => 4,
            InputDeviceId::Knob1 => 5,
            InputDeviceId::Knob2 => 6,
            InputDeviceId::Knob3 => 7,
            InputDeviceId::Knob4 => 8,
        }
    }
}

/// The panels, in the order the UI holds them.
#[derive(Clone, Copy, Debug, PartialEq, Eq, Structural)]
pub enum PanelId {
    PanelBow,
    PanelBlow,
    PanelStrike,
    PanelRes,
    PanelOutput,
    PanelPatch,
}

pub open spec fn panel_number(panel: PanelId) -> nat {
    match panel {
        PanelId::PanelBow => 0,
        PanelId::PanelBlow => 1,
        PanelId::PanelStrike => 2,
        PanelId::PanelRes => 3,
        PanelId::PanelOutput => 4,
        PanelId::PanelPatch => 5,
    }
}

impl PanelId {
    /// The place of this panel among the UI's panels.
    pub fn index(self) -> (r: usize)
        ensures
            r == panel_number(self),
    {
        match self {
            PanelId::PanelBow => 0,
            PanelId::PanelBlow => 1,
            PanelId::PanelStrike => 2,
            PanelId::PanelRes => 3,
            PanelId::PanelOutput => 4,
            PanelId::PanelPatch => 5,
        }
    }
}

/// A panel after the four knob readings, applied in turn.
pub open spec fn knobs_applied<P: InputConsumer>(panel: P::Model, values: (Value, Value, Value, Value)) -> P::Model {
    P::after_update(P::after_update(P::after_update(P::after_update(panel, 5, values.0), 6, values.1), 7, values.2), 8, values.3)
}

/// `r` holds the requests the panel makes for the four knob readings,
/// applied in turn.
pub open spec fn knob_requests<P: InputConsumer>(
    panel: P::Model,
    values: (Value, Value, Value, Value),
    r: (P::Request, P::Request, P::Request, P::Request),
) -> bool {
    let p1 = P::after_update(panel, 5, values.0);
    let p2 = P::after_update(p1, 6, values.1);
    let p3 = P::after_update(p2, 7, values.2);
    &&& P::is_request(panel, 5, values.0, r.0)
    &&& P::is_request(p1, 6, values.1, r.1)
    &&& P::is_request(p2, 7, values.2, r.2)
    &&& P::is_request(p3, 8, values.3, r.3)
}

/// The panel can take the four knob readings in turn.
pub open spec fn knobs_accepted<P: InputConsumer>(panel: P::Model, values: (Value, Value, Value, Value)) -> bool {
    let p1 = P::after_update(panel, 5, values.0);
    let p2 = P::after_update(p1, 6, values.1);
    let p3 = P::after_update(p2, 7, values.2);
    &&& P::accepts(panel, 5, values.0)
    &&& P::accepts(p1, 6, values.1)
    &&& P::accepts(p2, 7, values.2)
    &&& P::accepts(p3, 8, values.3)
}

/// A button sends its press to the panel when it goes down: it reads pressed
/// now and did not before.
pub open spec fn is_press(was_pressed: bool, pressed: bool) -> bool {
    pressed && pressed != was_pressed
}

/// One button reading applied to the button states and panels: a press of
/// button `i` goes to the panel on screen as input `i`, and the reading
/// becomes the button's state.
pub open spec fn button_step<P: InputConsumer>(
    states: Seq<bool>,
    panels: Seq<P::Model>,
    current: Option<int>,
    i: int,
    value: bool,
) -> (Seq<bool>, Seq<P::Model>) {
    let states2 = states.update(i, value);
    match current {
        Some(c) => if is_press(states[i], value) {
            (states2, panels.update(c, P::after_update(panels[c], i as InputId, Value::Bool(true))))
        } else {
            (states2, panels)
        },
        None => (states2, panels),
    }
}

/// `r` is what one button reading asks for: the request of the panel on
/// screen when the button goes down, nothing otherwise.
pub open spec fn button_request<P: InputConsumer>(
    states: Seq<bool>,
    panels: Seq<P::Model>,
    current: Option<int>,
    i: int,
    value: bool,
    r: Option<P::Request>,
) -> bool {
    match current {
        Some(c) => if is_press(states[i], value) {
            r is Some && P::is_request(panels[c], i as InputId, Value::Bool(true), r->0)
        } else {
            r is None
        },
        None => r is None,
    }
}

/// The panel on screen can take the reading of button `i`.
pub open spec fn button_accepted<P: InputConsumer>(
    states: Seq<bool>,
    panels: Seq<P::Model>,
    current: Option<int>,
    i: int,
    value: bool,
) -> bool {
    match current {
        Some(c) => is_press(states[i], value) ==> P::accepts(panels[c], i as InputId, Value::Bool(true)),
        None => true,
    }
}

/// Routes the hardware inputs to the panel on screen. A knob reading always
/// goes to the panel; a button goes to the panel only when it goes down, so a
/// held button acts once.
pub struct UI<P> {
    button_states: [bool; 5],
    panels: Vec<P>,
    current_panel: Option<usize>,
}

impl<P: InputConsumer> UI<P> {
    /// Whether each button read pressed last time.
    pub closed spec fn button_states(&self) -> Seq<bool> {
        self.button_states@
    }

    /// The state of the panels; empty until `setup`.
    pub closed spec fn panels(&self) -> Seq<P::Model> {
        self.panels@.map_values(|p: P| p.model())
    }

    /// The place of the panel on screen, if one is.
    pub closed spec fn current(&self) -> Option<int> {
        match self.current_panel {
            Some(i) => Some(i as int),
            None => None,
        }
    }

    /// Either no panels are set up and none is on screen, or all of them
    /// are, and the one on screen is one of them.
    pub open spec fn wf(&self) -> bool {
        &&& self.button_states().len() == BUTTON_COUNT
        &&& (self.panels().len() == 0 || self.panels().len() == PANEL_COUNT)
        &&& match self.current() {
            Some(c) => 0 <= c < self.panels().len(),
            None => true,
        }
    }

    pub fn new() -> (ui: UI<P>)
        ensures
            ui.wf(),
            ui.button_states() == seq![false, false, false, false, false],
            ui.panels() == Seq::<P::Model>::empty(),
            ui.current() == None::<int>,
    {
        let ui = UI { button_states: [false; 5], panels: Vec::new(), current_panel: None };
        assert(ui.button_states@ =~= seq![false, false, false, false, false]);
        ui
    }

    /// Installs the panels, in the order of `PanelId`.
    pub fn setup(&mut self, panels: Vec<P>)
        requires
            old(self).wf(),
            panels@.len() == PANEL_COUNT,
        ensures
            final(self).wf(),
            final(self).panels() == panels@.map_values(|p: P| p.model()),
            final(self).button_states() == old(self).button_states(),
            final(self).current() == old(self).current(),
    {
        self.panels = panels;
    }

    /// Sends the four encoder readings to the panel on screen, in the order
    /// of the knobs; returns what the panel asks for each, if a panel is on
    /// screen.
    pub fn update_knobs(&mut self, values: (Value, Value, Value, Value)) -> (r: Option<(P::Request, P::Request, P::Request, P::Request)>)
        requires
            old(self).wf(),
            match old(self).current() {
                Some(c) => knobs_accepted::<P>(old(self).panels()[c], values),
                None => true,
            },
        ensures
            final(self).wf(),
            final(self).button_states() == old(self).button_states(),
            final(self).current() == old(self).current(),
            match old(self).current() {
                Some(c) => {
                    &&& final(self).panels() == old(self).panels().update(c, knobs_applied::<P>(old(self).panels()[c], values))
                    &&& r is Some && knob_requests::<P>(old(self).panels()[c], values, r->0)
                },
                None => final(self).panels() == old(self).panels() && r.is_none(),
            },
    {
        match self.current_panel {
            Some(c) => {
                let r0 = self.panels[c].input_update(InputDeviceId::Knob1.input_id(), values.0);
                let r1 = self.panels[c].input_update(InputDeviceId::Knob2.input_id(), values.1);
                let r2 = self.panels[c].input_update(InputDeviceId::Knob3.input_id(), values.2);
                let r3 = self.panels[c].input_update(InputDeviceId::Knob4.input_id(), values.3);
                Some((r0, r1, r2, r3))
            },
            None => None,
        }
    }

    /// Applies a reading of button `id`: when the button goes down its press
    /// goes to the panel on screen, whose request is returned; the reading
    /// becomes the button's state either way.
    pub fn update_button(&mut self, id: InputDeviceId, value: bool) -> (r: Option<P::Request>)
        requires
            old(self).wf(),
            device_number(id) < BUTTON_COUNT,
            button_accepted::<P>(old(self).button_states(), old(self).panels(), old(self).current(), device_number(id) as int, value),
        ensures
            final(self).wf(),
            final(self).current() == old(self).current(),
            ({
                let (states, panels) = button_step::<P>(
                    old(self).button_states(),
                    old(self).panels(),
                    old(self).current(),
                    device_number(id) as int,
                    value,
                );
                &&& final(self).button_states() == states
                &&& final(self).panels() == panels
                &&& button_request::<P>(
                    old(self).button_states(),
                    old(self).panels(),
                    old(self).current(),
                    device_number(id) as int,
                    value,
                    r,
                )
            }),
    {
        let i = id.input_id() as usize;
        let mut r = None;
        if value && value != self.button_states[i] {
            if let Some(c) = self.current_panel {
                r = Some(self.panels[c].input_update(id.input_id(), Value::Bool(value)));
            }
        }
        self.button_states[i] = value;
        r
    }

    /// Applies a reading of each of the five buttons, in order.
    pub fn update_buttons(&mut self, values: (bool, bool, bool, bool, bool)) -> (r: (
        Option<P::Request>,
        Option<P::Request>,
        Option<P::Request>,
        Option<P::Request>,
        Option<P::Request>,
    ))
        requires
            old(self).wf(),
            ({
                let cur = old(self).current();
                let (s0, p0) = (old(self).button_states(), old(self).panels());
                let (s1, p1) = button_step::<P>(s0, p0, cur, 0, values.0);
                let (s2, p2) = button_step::<P>(s1, p1, cur, 1, values.1);
                let (s3, p3) = button_step::<P>(s2, p2, cur, 2, values.2);
                let (s4, p4) = button_step::<P>(s3, p3, cur, 3, values.3);
                &&& button_accepted::<P>(s0, p0, cur, 0, values.0)
                &&& button_accepted::<P>(s1, p1, cur, 1, values.1)
                &&& button_accepted::<P>(s2, p2, cur, 2, values.2)
                &&& button_accepted::<P>(s3, p3, cur, 3, values.3)
                &&& button_accepted::<P>(s4, p4, cur, 4, values.4)
            }),
        ensures
            final(self).wf(),
            final(self).current() == old(self).current(),
            ({
                let cur = old(self).current();
                let (s0, p0) = (old(self).button_states(), old(self).panels());
                let (s1, p1) = button_step::<P>(s0, p0, cur, 0, values.0);
                let (s2, p2) = button_step::<P>(s1, p1, cur, 1, values.1);
                let (s3, p3) = button_step::<P>(s2, p2, cur, 2, values.2);
                let (s4, p4) = button_step::<P>(s3, p3, cur, 3, values.3);
                let (s5, p5) = button_step::<P>(s4, p4, cur, 4, values.4);
                &&& final(self).button_states() == s5
                &&& final(self).panels() == p5
                &&& button_request::<P>(s0, p0, cur, 0, values.0, r.0)
                &&& button_request::<P>(s1, p1, cur, 1, values.1, r.1)
                &&& button_request::<P>(s2, p2, cur, 2, values.2, r.2)
                &&& button_request::<P>(s3, p3, cur, 3, values.3, r.3)
                &&& button_request::<P>(s4, p4, cur, 4, values.4, r.4)
            }),
    {
        let r0 = self.update_button(InputDeviceId::Button1, values.0);
        let r1 = self.update_button(InputDeviceId::Button2, values.1);
        let r2 = self.update_button(InputDeviceId::Button3, values.2);
        let r3 = self.update_button(InputDeviceId::Button4, values.3);
        let r4 = self.update_button(InputDeviceId::Button5, values.4);
        (r0, r1, r2, r3, r4)
    }

    /// Puts `panel` on screen, once the panels are set up, and resets its
    /// inputs.
    pub fn change_panel(&mut self, panel: PanelId)
        requires
            old(self).wf(),
        ensures
            final(self).wf(),
            final(self).button_states() == old(self).button_states(),
            final(self).current() == if old(self).panels().len() > 0 {
                Some(panel_number(panel) as int)
            } else {
                old(self).current()
            },
            final(self).panels() == match final(self).current() {
                Some(c) => old(self).panels().update(c, P::after_reset(old(self).panels()[c])),
                None => old(self).panels(),
            },
    {
        if self.panels.len() > 0 {
            self.current_panel = Some(panel.index());
        }
        if let Some(c) = self.current_panel {
            self.panels[c].input_reset();
        }
    }

    /// The place of the panel on screen, if one is.
    pub fn current_panel(&self) -> (r: Option<usize>)
        ensures
            match r {
                Some(c) => self.current() == Some(c as int),
                None => self.current() == None::<int>,
            },
    {
        self.current_panel
    }

    /// The panel on screen, to draw it.
    pub fn current_panel_mut(&mut self) -> (r: Option<&mut P>)
        requires
            old(self).wf(),
        ensures
            final(self).wf(),
            final(self).button_states() == old(self).button_states(),
            final(self).current() == old(self).current(),
            match old(self).current() {
                Some(c) => r is Some && r->0.model() == old(self).panels()[c]
                    && final(self).panels() == old(self).panels().update(c, final(r->0).model()),
                None => r is None && final(self).panels() == old(self).panels(),
            },
    {
        match self.current_panel {
            Some(c) => Some(&mut self.panels[c]),
            None => None,
        }
    }
}


/// A button held down acts on the panel once: a second pressed reading of the
/// same button asks for nothing and leaves the states and panels as they are.
pub proof fn lemma_held_button_acts_once<P: InputConsumer>(
    states: Seq<bool>,
    panels: Seq<P::Model>,
    current: Option<int>,
    i: int,
    r: Option<P::Request>,
)
    requires
        0 <= i < states.len(),
    ensures
        ({
            let (s1, p1) = button_step::<P>(states, panels, current, i, true);
            let (s2, p2) = button_step::<P>(s1, p1, current, i, true);
            &&& s2 == s1
            &&& p2 == p1
            &&& button_request::<P>(s1, p1, current, i, true, r) <==> r is None
        }),
{
    let (s1, p1) = button_step::<P>(states, panels, current, i, true);
    assert(s1.update(i, true) =~= s1);
}

/// Releasing a button never reaches the panel: it only records the button
/// as up.
pub proof fn lemma_release_does_not_reach_panel<P: InputConsumer>(
    states: Seq<bool>,
    panels: Seq<P::Model>,
    current: Option<int>,
    i: int,
    r: Option<P::Request>,
)
    requires
        0 <= i < states.len(),
    ensures
        button_step::<P>(states, panels, current, i, false) == (states.update(i, false), panels),
        button_request::<P>(states, panels, current, i, false, r) <==> r is None,
{
}

/// The panels are numbered in the order `PanelId` declares them, which is
/// the order the UI holds them in: bow, blow, strike, resonator, output,
/// patch. Each panel has its own place.
pub proof fn lemma_panel_places(p: PanelId, q: PanelId)
    ensures
        panel_number(p) < PANEL_COUNT,
        seq![
            PanelId::PanelBow,
            PanelId::PanelBlow,
            PanelId::PanelStrike,
            PanelId::PanelRes,
            PanelId::PanelOutput,
            PanelId::PanelPatch,
        ][panel_number(p) as int] == p,
        panel_number(p) == panel_number(q) ==> p == q,
{
}

} // verus!
