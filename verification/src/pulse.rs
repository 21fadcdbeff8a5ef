//! The shape of one pulse: three windows counted from the slot where it began.

use vstd::prelude::*;

verus! {

/// Last cursor offset, counted from the origin, of the rising edge.
pub const RISE_END: usize = 20;

/// Last cursor offset of the falling edge.
pub const FALL_END: usize = 50;

/// Last cursor offset of the recovery edge, and of the pulse as a whole.
pub const PULSE_END: usize = 60;

/// Change of the cursor height on each tick inside a window.
pub const KICK: i64 = 15;

/// Number of slots that each such tick draws ahead of the cursor.
pub const STROKE: usize = 15;

/// The cursor `x` is on the rising edge of a pulse that began at `origin`.
pub open spec fn rising(origin: int, x: int) -> bool {
    origin < x <= origin + RISE_END
}

/// The cursor `x` is on the falling edge.
pub open spec fn falling(origin: int, x: int) -> bool {
    origin + RISE_END < x <= origin + FALL_END
}

/// The cursor `x` is on the recovery edge.
pub open spec fn recovering(origin: int, x: int) -> bool {
    origin + FALL_END < x <= origin + PULSE_END
}

/// The cursor `x` has left the pulse behind.
pub open spec fn spent(origin: int, x: int) -> bool {
    x > origin + PULSE_END
}

/// Direction in which the edge under the cursor runs: 1 up, -1 down, 0 where
/// no edge is drawn.
pub open spec fn slope(origin: int, x: int) -> int {
    if rising(origin, x) || recovering(origin, x) {
        1
    } else if falling(origin, x) {
        -1
    } else {
        0
    }
}

/// Height of the cursor above the point where a pulse began, counted in
/// kicks, after the tick whose cursor stood `d` slots past the origin: up for
/// 20 slots, down for 30, up again for 10, and level from there on.
pub open spec fn climb(d: int) -> int {
    if d <= 0 {
        0
    } else if d <= RISE_END {
        d
    } else if d <= FALL_END {
        2 * RISE_END - d
    } else if d <= PULSE_END {
        d - PULSE_END
    } else {
        0
    }
}

/// The three windows split the 60 cursor positions after the origin between
/// them: inside that range exactly one window holds the cursor, outside it
/// none does.
pub proof fn lemma_windows_partition(origin: int, x: int)
    ensures
        (origin < x <= origin + PULSE_END) <==> (rising(origin, x) || falling(origin, x)
            || recovering(origin, x)),
        !(rising(origin, x) && falling(origin, x)),
        !(rising(origin, x) && recovering(origin, x)),
        !(falling(origin, x) && recovering(origin, x)),
        (origin < x <= origin + PULSE_END) <==> slope(origin, x) != 0,
{
}

} // verus!
