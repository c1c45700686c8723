//! Rotary encoders read through timers in encoder mode.

use vstd::prelude::*;

verus! {

/// The encoder position for a timer count: the timer counts two steps per
/// detent, and its low 16 bits are read as a signed number, so the position
/// is that number halved, rounded toward zero.
pub fn position_from_count(count: u32) -> (r: i16)
    ensures
        r as int == {
            let c = (count as i16) as int;
            if c >= 0 {
                c / 2
            } else {
                -((-c) / 2)
            }
        },
{
    (count as i16) / 2
}

} // verus!
