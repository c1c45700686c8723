//! A panel: the buttons and knobs on screen together, held in fixed-capacity
//! lists.

use vstd::prelude::*;

use super::framework::button::Button;
use super::framework::{InputConsumer, InputId, Point, Size, Value};
use super::knob::Knob;
use crate::geometry::{cover_rects, covering_fits, covering_rect};

verus! {

/// The number of buttons, and of knobs, a panel can hold.
pub const PANEL_CAPACITY: usize = 8;

#[verifier::external_type_specification]
#[verifier::external_body]
#[verifier::reject_recursive_types(T)]
pub struct ExHeaplessVec<T, const N: usize>(heapless::Vec<T, N>);

/// The buttons held in a button list, in order.
pub uninterp spec fn button_list(v: heapless::Vec<Button, 8>) -> Seq<Button>;

/// The knobs held in a knob list, in order.
pub uninterp spec fn knob_list(v: heapless::Vec<Knob, 8>) -> Seq<Knob>;

/// An empty button list (`heapless::Vec::new`).
#[verifier::external_body]
fn button_list_new() -> (v: heapless::Vec<Button, 8>)
    ensures
        button_list(v) == Seq::<Button>::empty(),
{
    heapless::Vec::new()
}

/// Appends a button (`heapless::Vec::push`): below the capacity of 8 the
/// button goes at the end; at capacity the list is unchanged and the button
/// comes back as the error.
#[verifier::external_body]
fn button_list_push(v: &mut heapless::Vec<Button, 8>, b: Button) -> (r: Result<(), Button>)
    ensures
        r is Ok <==> button_list(*old(v)).len() < 8,
        match r {
            Ok(_) => button_list(*final(v)) == button_list(*old(v)).push(b),
            Err(back) => back == b && button_list(*final(v)) == button_list(*old(v)),
        },
{
    v.push(b)
}

/// The number of buttons in a list (`heapless::Vec::len`); it never exceeds
/// the capacity.
#[verifier::external_body]
fn button_list_len(v: &heapless::Vec<Button, 8>) -> (r: usize)
    ensures
        r == button_list(*v).len(),
        r <= 8,
{
    v.len()
}

/// The button at place `i` of a list, to change in place (indexing through
/// `heapless::Vec`'s `DerefMut` to a slice).
#[verifier::external_body]
fn button_list_at(v: &mut heapless::Vec<Button, 8>, i: usize) -> (r: &mut Button)
    requires
        i < button_list(*old(v)).len(),
    ensures
        *r == button_list(*old(v))[i as int],
        button_list(*final(v)) == button_list(*old(v)).update(i as int, *final(r)),
{
    &mut v[i]
}

/// An empty knob list (`heapless::Vec::new`).
#[verifier::external_body]
fn knob_list_new() -> (v: heapless::Vec<Knob, 8>)
    ensures
        knob_list(v) == Seq::<Knob>::empty(),
{
    heapless::Vec::new()
}

/// Appends a knob (`heapless::Vec::push`): below the capacity of 8 the knob
/// goes at the end; at capacity the list is unchanged and the knob comes back
/// as the error.
#[verifier::external_body]
fn knob_list_push(v: &mut heapless::Vec<Knob, 8>, k: Knob) -> (r: Result<(), Knob>)
    ensures
        r is Ok <==> knob_list(*old(v)).len() < 8,
        match r {
            Ok(_) => knob_list(*final(v)) == knob_list(*old(v)).push(k),
            Err(back) => back == k && knob_list(*final(v)) == knob_list(*old(v)),
        },
{
    v.push(k)
}

/// The number of knobs in a list (`heapless::Vec::len`); it never exceeds
/// the capacity.
#[verifier::external_body]
fn knob_list_len(v: &heapless::Vec<Knob, 8>) -> (r: usize)
    ensures
        r == knob_list(*v).len(),
        r <= 8,
{
    v.len()
}

/// The knob at place `i` of a list, to change in place (indexing through
/// `heapless::Vec`'s `DerefMut` to a slice).
#[verifier::external_body]
fn knob_list_at(v: &mut heapless::Vec<Knob, 8>, i: usize) -> (r: &mut Knob)
    requires
        i < knob_list(*old(v)).len(),
    ensures
        *r == knob_list(*old(v))[i as int],
        knob_list(*final(v)) == knob_list(*old(v)).update(i as int, *final(r)),
{
    &mut v[i]
}

/// An empty list of buttons.
pub fn new_button_list() -> (v: heapless::Vec<Button, 8>)
    ensures
        button_list(v) == Seq::<Button>::empty(),
{
    button_list_new()
}

/// Appends a button to a list that has room for it.
pub fn add_button(v: &mut heapless::Vec<Button, 8>, b: Button)
    requires
        button_list(*old(v)).len() < PANEL_CAPACITY,
    ensures
        button_list(*final(v)) == button_list(*old(v)).push(b),
{
    let r = button_list_push(v, b);
    assert(r is Ok);
}

/// An empty list of knobs.
pub fn new_knob_list() -> (v: heapless::Vec<Knob, 8>)
    ensures
        knob_list(v) == Seq::<Knob>::empty(),
{
    knob_list_new()
}

/// Appends a knob to a list that has room for it.
pub fn add_knob(v: &mut heapless::Vec<Knob, 8>, k: Knob)
    requires
        knob_list(*old(v)).len() < PANEL_CAPACITY,
    ensures
        knob_list(*final(v)) == knob_list(*old(v)).push(k),
{
    let r = knob_list_push(v, k);
    assert(r is Ok);
}

/// What a panel asks its owner to run after an input: the handler of a
/// button or of a knob, with its argument.
#[derive(Clone, Copy, Debug, PartialEq, Eq, Structural)]
pub enum PanelRequest {
    Button { index: usize, pressed: bool },
    Knob { index: usize, delta: i8 },
}

/// The requests of the buttons, in the order of the buttons.
pub open spec fn button_requests(buttons: Seq<Button>, input_id: InputId, value: Value) -> Seq<PanelRequest>
    decreases buttons.len(),
{
    if buttons.len() == 0 {
        Seq::empty()
    } else {
        let rest = button_requests(buttons.drop_last(), input_id, value);
        match buttons.last().request_for(input_id, value) {
            Some(pressed) => rest.push(PanelRequest::Button { index: (buttons.len() - 1) as usize, pressed }),
            None => rest,
        }
    }
}

/// The requests of the knobs, in the order of the knobs.
pub open spec fn knob_requests(knobs: Seq<Knob>, input_id: InputId, value: Value) -> Seq<PanelRequest>
    decreases knobs.len(),
{
    if knobs.len() == 0 {
        Seq::empty()
    } else {
        let rest = knob_requests(knobs.drop_last(), input_id, value);
        match knobs.last().request_for(input_id, value) {
            Some(delta) => rest.push(PanelRequest::Knob { index: (knobs.len() - 1) as usize, delta }),
            None => rest,
        }
    }
}

/// The buttons and knobs of a panel. An input goes to every one of them.
pub struct Panel {
    buttons: heapless::Vec<Button, 8>,
    knobs: heapless::Vec<Knob, 8>,
}

impl Panel {
    pub fn new(buttons: heapless::Vec<Button, 8>, knobs: heapless::Vec<Knob, 8>) -> (p: Panel)
        ensures
            p.model() == (button_list(buttons), knob_list(knobs)),
    {
        Panel { buttons, knobs }
    }

    pub fn button_count(&self) -> (r: usize)
        ensures
            r == self.model().0.len(),
    {
        button_list_len(&self.buttons)
    }

    pub fn knob_count(&self) -> (r: usize)
        ensures
            r == self.model().1.len(),
    {
        knob_list_len(&self.knobs)
    }

    /// The button at place `i`, to draw it or pass it its handler's answer.
    pub fn button_mut(&mut self, i: usize) -> (r: &mut Button)
        requires
            i < old(self).model().0.len(),
        ensures
            *r == old(self).model().0[i as int],
            final(self).model() == (old(self).model().0.update(i as int, *final(r)), old(self).model().1),
    {
        button_list_at(&mut self.buttons, i)
    }

    /// The knob at place `i`, to draw it or pass it its handler's answer.
    pub fn knob_mut(&mut self, i: usize) -> (r: &mut Knob)
        requires
            i < old(self).model().1.len(),
        ensures
            *r == old(self).model().1[i as int],
            final(self).model() == (old(self).model().0, old(self).model().1.update(i as int, *final(r))),
    {
        knob_list_at(&mut self.knobs, i)
    }

    /// The area the panel was drawn over, from the rectangles its buttons
    /// and then its knobs report when drawn, in order.
    pub fn render_area(rects: &Vec<(Point, Size)>) -> (r: (Point, Size))
        requires
            covering_fits(rects@),
        ensures
            r == covering_rect(rects@),
    {
        cover_rects(rects)
    }
}

impl InputConsumer for Panel {
    type Request = Vec<PanelRequest>;

    /// The buttons and the knobs.
    type Model = (Seq<Button>, Seq<Knob>);

    closed spec fn model(&self) -> (Seq<Button>, Seq<Knob>) {
        (button_list(self.buttons), knob_list(self.knobs))
    }

    /// Every knob can take the input.
    open spec fn accepts(m: (Seq<Button>, Seq<Knob>), input_id: InputId, value: Value) -> bool {
        forall|j: int| 0 <= j < m.1.len() ==> #[trigger] Knob::accepts(m.1[j], input_id, value)
    }

    open spec fn after_reset(m: (Seq<Button>, Seq<Knob>)) -> (Seq<Button>, Seq<Knob>) {
        (
            m.0.map_values(|b: Button| Button::after_reset(b)),
            m.1.map_values(|k: Knob| Knob::after_reset(k)),
        )
    }

    open spec fn after_update(m: (Seq<Button>, Seq<Knob>), input_id: InputId, value: Value) -> (Seq<Button>, Seq<Knob>) {
        (
            m.0.map_values(|b: Button| Button::after_update(b, input_id, value)),
            m.1.map_values(|k: Knob| Knob::after_update(k, input_id, value)),
        )
    }

    /// The requests of the buttons, then those of the knobs.
    open spec fn is_request(m: (Seq<Button>, Seq<Knob>), input_id: InputId, value: Value, r: Vec<PanelRequest>) -> bool {
        r@ == button_requests(m.0, input_id, value) + knob_requests(m.1, input_id, value)
    }

    fn input_reset(&mut self) {
        let ghost old_buttons = button_list(self.buttons);
        let ghost old_knobs = knob_list(self.knobs);
        let n = button_list_len(&self.buttons);
        let mut i: usize = 0;
        while i < n
            invariant
                n == old_buttons.len(),
                i <= n,
                knob_list(self.knobs) == old_knobs,
                button_list(self.buttons).len() == n,
                forall|j: int| 0 <= j < i ==> #[trigger] button_list(self.buttons)[j] == Button::after_reset(old_buttons[j]),
                forall|j: int| i <= j < n ==> #[trigger] button_list(self.buttons)[j] == old_buttons[j],
            decreases n - i,
        {
            let b = button_list_at(&mut self.buttons, i);
            b.input_reset();
            i = i + 1;
        }
        let m = knob_list_len(&self.knobs);
        let mut i: usize = 0;
        while i < m
            invariant
                m == old_knobs.len(),
                i <= m,
                button_list(self.buttons) =~= old_buttons.map_values(|b: Button| Button::after_reset(b)),
                knob_list(self.knobs).len() == m,
                forall|j: int| 0 <= j < i ==> #[trigger] knob_list(self.knobs)[j] == Knob::after_reset(old_knobs[j]),
                forall|j: int| i <= j < m ==> #[trigger] knob_list(self.knobs)[j] == old_knobs[j],
            decreases m - i,
        {
            let k = knob_list_at(&mut self.knobs, i);
            k.input_reset();
            i = i + 1;
        }
        assert(knob_list(self.knobs) =~= old_knobs.map_values(|k: Knob| Knob::after_reset(k)));
    }

    fn input_update(&mut self, input_id: InputId, value: Value) -> (r: Vec<PanelRequest>) {
        let ghost old_buttons = button_list(self.buttons);
        let ghost old_knobs = knob_list(self.knobs);
        let mut requests: Vec<PanelRequest> = Vec::new();
        let n = button_list_len(&self.buttons);
        let mut i: usize = 0;
        while i < n
            invariant
                n == old_buttons.len(),
                i <= n,
                knob_list(self.knobs) == old_knobs,
                button_list(self.buttons).len() == n,
                forall|j: int| 0 <= j < i ==> #[trigger] button_list(self.buttons)[j] == Button::after_update(old_buttons[j], input_id, value),
                forall|j: int| i <= j < n ==> #[trigger] button_list(self.buttons)[j] == old_buttons[j],
                requests@ == button_requests(old_buttons.take(i as int), input_id, value),
            decreases n - i,
        {
            assert(old_buttons.take(i as int + 1).drop_last() == old_buttons.take(i as int));
            let b = button_list_at(&mut self.buttons, i);
            let request = b.input_update(input_id, value);
            if let Some(pressed) = request {
                requests.push(PanelRequest::Button { index: i, pressed });
            }
            i = i + 1;
        }
        assert(old_buttons.take(n as int) == old_buttons);
        let ghost after_buttons = requests@;
        assert(Panel::accepts(old(self).model(), input_id, value));
        assert(old(self).model().1 == old_knobs);
        assert forall|j: int| 0 <= j < old_knobs.len() implies #[trigger] Knob::accepts(old_knobs[j], input_id, value) by {
            assert(Knob::accepts(old(self).model().1[j], input_id, value));
        }
        let m = knob_list_len(&self.knobs);
        let mut i: usize = 0;
        while i < m
            invariant
                m == old_knobs.len(),
                i <= m,
                forall|j: int| 0 <= j < m ==> #[trigger] Knob::accepts(old_knobs[j], input_id, value),
                button_list(self.buttons) =~= old_buttons.map_values(|b: Button| Button::after_update(b, input_id, value)),
                knob_list(self.knobs).len() == m,
                forall|j: int| 0 <= j < i ==> #[trigger] knob_list(self.knobs)[j] == Knob::after_update(old_knobs[j], input_id, value),
                forall|j: int| i <= j < m ==> #[trigger] knob_list(self.knobs)[j] == old_knobs[j],
                after_buttons == button_requests(old_buttons, input_id, value),
                requests@ == after_buttons + knob_requests(old_knobs.take(i as int), input_id, value),
            decreases m - i,
        {
            assert(old_knobs.take(i as int + 1).drop_last() == old_knobs.take(i as int));
            assert(Knob::accepts(old_knobs[i as int], input_id, value));
            let k = knob_list_at(&mut self.knobs, i);
            let request = k.input_update(input_id, value);
            if let Some(delta) = request {
                requests.push(PanelRequest::Knob { index: i, delta });
            }
            i = i + 1;
        }
        assert(old_knobs.take(m as int) == old_knobs);
        assert(knob_list(self.knobs) =~= old_knobs.map_values(|k: Knob| Knob::after_update(k, input_id, value)));
        requests
    }
}

} // verus!
