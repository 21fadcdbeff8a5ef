//! The trace as a mathematical state machine: what one tick does to the
//! buffer, the cursor and the pulse.

use vstd::prelude::*;
use crate::pulse::{slope, spent, KICK, STROKE};
use crate::ring::{decay_slot, offset, position, CENTER, WIDTH};

verus! {

/// The point that stands for "nothing plotted here".
pub open spec fn sentinel() -> (int, int) {
    (0, 0)
}

/// The points of `line` that a frame shows, in buffer order: all but the
/// blanks.
pub open spec fn plotted(line: Seq<(int, int)>) -> Seq<(int, int)> {
    line.filter(|p: (int, int)| p != sentinel())
}

/// The point that a stroke starting at `(x, y)` draws `k` places ahead of the
/// cursor: `k` higher on an edge that runs up, `k` lower on one that runs down.
pub open spec fn stroke_point(x: int, y: int, up: bool, k: int) -> (int, int) {
    if up {
        (x, y + k)
    } else {
        (x, y - k)
    }
}

/// The buffer after a stroke from `(x, y)`: the `STROKE` slots from `x` on,
/// going round the buffer, hold the stroke; the others are as before.
pub open spec fn stroke(line: Seq<(int, int)>, x: int, y: int, up: bool) -> Seq<(int, int)> {
    Seq::new(
        line.len(),
        |i: int|
            if offset(x, i) < STROKE {
                stroke_point(x, y, up, offset(x, i))
            } else {
                line[i]
            },
    )
}

/// State of the trace.
#[verifier::ext_equal]
pub struct Waveform {
    /// One point per slot; `sentinel()` where nothing is plotted.
    pub line: Seq<(int, int)>,
    /// The cursor as stored: `WIDTH` after the tick that wrote the last slot.
    pub dot_x: int,
    /// Height of the cursor.
    pub dot_y: int,
    /// Slot at which the latest pulse began.
    pub origin: int,
    /// Whether a pulse is under way.
    pub beating: bool,
}

impl Waveform {
    /// What every reachable state satisfies. The height can move by `KICK` per
    /// tick and starts from `CENTER` at slot 0, which bounds it by the cursor.
    pub open spec fn wf(self) -> bool {
        &&& self.line.len() == WIDTH
        &&& 0 <= self.dot_x <= WIDTH
        &&& 0 <= self.origin < WIDTH
        &&& CENTER - KICK * self.dot_x <= self.dot_y <= CENTER + KICK * self.dot_x
    }

    /// The state at construction: nothing plotted, the cursor at slot 0 on the
    /// baseline, no pulse.
    pub open spec fn init() -> Self {
        Waveform {
            line: Seq::new(WIDTH as nat, |i: int| sentinel()),
            dot_x: 0,
            dot_y: CENTER as int,
            origin: 0,
            beating: false,
        }
    }

    /// Height from which a tick starts: the stored one, or `CENTER` when the
    /// cursor wraps.
    pub open spec fn baseline(self) -> int {
        if self.dot_x >= WIDTH {
            CENTER as int
        } else {
            self.dot_y
        }
    }

    /// First part of a tick: wrap the cursor, plot the leading point, and let a
    /// pending signal start a pulse here unless one is under way.
    pub open spec fn lead(self, signal: bool) -> Self {
        let x = position(self.dot_x);
        let y = self.baseline();
        Waveform {
            line: self.line.update(x, (x, y)),
            dot_x: x,
            dot_y: y,
            origin: if signal && !self.beating {
                x
            } else {
                self.origin
            },
            beating: self.beating || signal,
        }
    }

    /// The pulse step, taken while a pulse is under way. Inside a window the
    /// height moves by `KICK` and a stroke is drawn from the cursor; past the
    /// last window the pulse ends.
    pub open spec fn pulse(self) -> Self {
        let dir = slope(self.origin, self.dot_x);
        let y = self.dot_y + KICK * dir;
        Waveform {
            line: if dir != 0 {
                stroke(self.line, self.dot_x, y, dir > 0)
            } else {
                self.line
            },
            dot_y: y,
            beating: !spent(self.origin, self.dot_x),
            ..self
        }
    }

    /// Last part of a tick: erase the slot `TRAIL` places behind the cursor
    /// and move the cursor on.
    pub open spec fn fade(self) -> Self {
        Waveform {
            line: self.line.update(decay_slot(self.dot_x), sentinel()),
            dot_x: self.dot_x + 1,
            ..self
        }
    }

    /// One tick, with `signal` telling whether the liveness flag was raised.
    pub open spec fn tick(self, signal: bool) -> Self {
        let led = self.lead(signal);
        if led.beating {
            led.pulse().fade()
        } else {
            led.fade()
        }
    }

    /// One tick per entry of `signals`, in order.
    pub open spec fn run(self, signals: Seq<bool>) -> Self
        decreases signals.len(),
    {
        if signals.len() == 0 {
            self
        } else {
            self.run(signals.drop_last()).tick(signals.last())
        }
    }
}

/// `n` ticks during which the flag is never raised.
pub open spec fn quiet(n: nat) -> Seq<bool> {
    Seq::new(n, |i: int| false)
}

/// A tick keeps a well-formed state well-formed.
pub proof fn lemma_tick_wf(s: Waveform, signal: bool)
    requires
        s.wf(),
    ensures
        s.tick(signal).wf(),
        s.lead(signal).wf(),
        s.lead(signal).dot_x < WIDTH,
{
}

} // verus!
