//! Index arithmetic on the circular point buffer.

use vstd::prelude::*;

verus! {

/// Number of slots in the point buffer.
pub const WIDTH: usize = 1000;

/// Height of the flat trace, and the height the cursor returns to on a wrap.
pub const CENTER: i64 = 500;

/// How many ticks a plotted point stays visible behind the cursor.
pub const TRAIL: usize = 600;

/// The slot that a tick writes when the stored cursor is `x`: the cursor
/// itself, or slot 0 once the cursor has run off the end of the buffer.
pub open spec fn position(x: int) -> int {
    if x >= WIDTH {
        0
    } else {
        x
    }
}

/// The slot `k` places ahead of `x`, going round the buffer.
pub open spec fn slot(x: int, k: int) -> int {
    (x + k) % (WIDTH as int)
}

/// How many places slot `i` lies ahead of `x`, going round the buffer.
pub open spec fn offset(x: int, i: int) -> int {
    (i - x) % (WIDTH as int)
}

/// The slot exactly `TRAIL` places behind `x`, going round the buffer.
pub open spec fn decay_slot(x: int) -> int {
    (x - TRAIL) % (WIDTH as int)
}

/// How many ticks ago slot `i` was last the cursor, when `n` ticks have run
/// since the cursor stood at 0: 0 for the slot written by the latest tick.
pub open spec fn lag(n: int, i: int) -> int {
    (n - 1 - i) % (WIDTH as int)
}

/// The slot `k` places ahead of `x`.
pub fn slot_index(x: usize, k: usize) -> (index: usize)
    requires
        x < WIDTH,
        k < WIDTH,
    ensures
        index == slot(x as int, k as int),
        index < WIDTH,
        offset(x as int, index as int) == k,
{
    (x + k) % WIDTH
}

/// The slot whose point fades when the cursor stands at `x`.
pub fn decay_index(x: usize) -> (index: usize)
    ensures
        index == decay_slot(x as int),
        index < WIDTH,
{
    if x >= TRAIL {
        (x - TRAIL) % WIDTH
    } else {
        WIDTH + x - TRAIL
    }
}

} // verus!
