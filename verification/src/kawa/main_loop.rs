//! The decisions of the firmware's main loop: when the trigger input plays a
//! note, and when a redrawn region has to be sent to the display.

use vstd::prelude::*;

use crate::geometry::{Point, Size};

verus! {

/// A change of the trigger input that plays or stops the test note.
#[derive(Clone, Copy, Debug, PartialEq, Eq, Structural)]
pub enum TriggerEdge {
    /// The input went low: play the test note.
    Pressed,
    /// The input went high again: stop it.
    Released,
}

/// One reading of the trigger input: a low pin while the trigger is up
/// presses it, a high pin while it is down releases it; otherwise nothing
/// changes.
pub open spec fn trigger_step(trigger_state: bool, pin_low: bool) -> (bool, Option<TriggerEdge>) {
    if !trigger_state && pin_low {
        (true, Some(TriggerEdge::Pressed))
    } else if trigger_state && !pin_low {
        (false, Some(TriggerEdge::Released))
    } else {
        (trigger_state, None)
    }
}

/// The state of the trigger after a run of readings from `trigger_state`,
/// and the edges reported on the way, in order.
pub open spec fn trigger_run(trigger_state: bool, readings: Seq<bool>) -> (bool, Seq<TriggerEdge>)
    decreases readings.len(),
{
    if readings.len() == 0 {
        (trigger_state, Seq::empty())
    } else {
        let (state, edges) = trigger_run(trigger_state, readings.drop_last());
        let (next, edge) = trigger_step(state, readings.last());
        (next, match edge {
            Some(e) => edges.push(e),
            None => edges,
        })
    }
}

/// Starting with the trigger up, the edges of any run of readings alternate
/// between a press and a release, starting with a press, and the trigger is
/// down exactly when the last edge was a press.
pub proof fn lemma_trigger_edges_alternate(readings: Seq<bool>)
    ensures
        ({
            let (state, edges) = trigger_run(false, readings);
            &&& forall|i: int| 0 <= i < edges.len() ==> #[trigger] edges[i] == if i % 2 == 0 {
                TriggerEdge::Pressed
            } else {
                TriggerEdge::Released
            }
            &&& state == (edges.len() % 2 == 1)
        }),
    decreases readings.len(),
{
    if readings.len() > 0 {
        lemma_trigger_edges_alternate(readings.drop_last());
    }
}

/// The trigger's state after a reading of its input (`pin_low` when the
/// input reads low), and the note event to send: a note when the input goes
/// low while the trigger was up, a note off when it goes high while the
/// trigger was down.
pub fn update_trigger(trigger_state: bool, pin_low: bool) -> (r: (bool, Option<TriggerEdge>))
    ensures
        r == trigger_step(trigger_state, pin_low),
{
    if !trigger_state && pin_low {
        (true, Some(TriggerEdge::Pressed))
    } else if trigger_state && !pin_low {
        (false, Some(TriggerEdge::Released))
    } else {
        (trigger_state, None)
    }
}

/// Whether the region a panel redrew has to be sent to the display: only
/// when a panel was drawn and the region has an area.
pub fn region_needs_flush(invalidate: Option<(Point, Size)>) -> (r: bool)
    ensures
        r == match invalidate {
            Some((_, size)) => size.width != 0 && size.height != 0,
            None => false,
        },
{
    match invalidate {
        Some((_, size)) => size.width != 0 && size.height != 0,
        None => false,
    }
}

} // verus!
