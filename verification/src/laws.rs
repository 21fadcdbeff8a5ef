//! What holds of every run of the trace.

use vstd::prelude::*;
use crate::model::{quiet, sentinel, Waveform};
use crate::pulse::{climb, spent, KICK, PULSE_END};
use crate::ring::{decay_slot, lag, position, CENTER, TRAIL, WIDTH};

verus! {

/// Slot `i` lies in the trail after `n` ticks from the start: it was the cursor
/// at one of the latest `TRAIL` ticks, and no earlier than the first.
pub open spec fn in_trail(n: nat, i: int) -> bool {
    lag(n as int, i) < n && lag(n as int, i) < TRAIL
}

/// Each tick moves the cursor one slot on, round the buffer, whatever the flag
/// does; the stored cursor is one past the slot that the latest tick wrote.
pub proof fn lemma_run_cursor(s: Waveform, signals: Seq<bool>)
    requires
        s.wf(),
    ensures
        s.run(signals).wf(),
        position(s.run(signals).dot_x) == (position(s.dot_x) + signals.len()) % (WIDTH as int),
        signals.len() > 0 ==> s.run(signals).dot_x == (position(s.dot_x) + signals.len() - 1) % (
        WIDTH as int) + 1,
    decreases signals.len(),
{
    if signals.len() > 0 {
        lemma_run_cursor(s, signals.drop_last());
    }
}

/// The state after `n` ticks from the start with the flag never raised: the
/// cursor one past the slot written last, on the baseline, no pulse, and the
/// slots of the trail each holding its own baseline point, the others blank.
pub open spec fn settled(s: Waveform, n: nat) -> bool {
    &&& s.wf()
    &&& s.dot_x == if n == 0 {
        0
    } else {
        (n - 1) % (WIDTH as int) + 1
    }
    &&& s.dot_y == CENTER
    &&& !s.beating
    &&& forall|i: int|
        0 <= i < WIDTH ==> #[trigger] s.line[i] == if in_trail(n, i) {
            (i, CENTER as int)
        } else {
            sentinel()
        }
}

/// How the lag of a slot changes with one more tick: the slot just written
/// has lag 0, every other slot falls one further behind, and the slot that
/// the tick erases is the one that reaches lag `TRAIL`.
proof fn lemma_lag_step(n: int, i: int)
    requires
        0 <= n,
        0 <= i < WIDTH,
    ensures
        i == n % (WIDTH as int) ==> lag(n + 1, i) == 0,
        i != n % (WIDTH as int) ==> lag(n + 1, i) == lag(n, i) + 1,
        i == decay_slot(n % (WIDTH as int)) <==> lag(n + 1, i) == TRAIL,
{
}

/// A tick without a signal takes the settled state of `n` ticks to that of
/// `n + 1`.
proof fn lemma_quiet_tick(s: Waveform, n: nat)
    requires
        settled(s, n),
    ensures
        settled(s.tick(false), n + 1),
{
    let t = s.tick(false);
    let x = position(s.dot_x);
    assert(x == n % (WIDTH as nat));
    assert(t.line == s.line.update(x, (x, CENTER as int)).update(decay_slot(x), sentinel()));
    assert forall|i: int| 0 <= i < WIDTH implies #[trigger] t.line[i] == if in_trail(n + 1, i) {
        (i, CENTER as int)
    } else {
        sentinel()
    } by {
        lemma_lag_step(n as int, i);
    }
}

/// After `n` ticks from the start with the flag never raised, the cursor
/// stands at `n` modulo `WIDTH` on the baseline, no pulse is under way, and
/// the plotted slots are those of the trail: each holds its own baseline
/// point, every other slot is blank.
pub proof fn lemma_quiet_trail(n: nat)
    ensures
        ({
            let s = Waveform::init().run(quiet(n));
            &&& settled(s, n)
            &&& position(s.dot_x) == n % (WIDTH as nat)
            &&& forall|i: int|
                0 <= i < WIDTH ==> (#[trigger] s.line[i] != sentinel() <==> in_trail(n, i))
        }),
    decreases n,
{
    if n > 0 {
        let m = (n - 1) as nat;
        lemma_quiet_trail(m);
        assert(quiet(n).drop_last() =~= quiet(m));
        lemma_quiet_tick(Waveform::init().run(quiet(m)), m);
    }
}

/// A raised flag starts one pulse and no more. The tick that sees the flag
/// starts a pulse at its cursor and takes the flag, so the next tick runs
/// without a signal: it starts nothing, and the pulse goes on from the same
/// origin.
pub proof fn lemma_single_shot(s: Waveform)
    requires
        s.wf(),
        !s.beating,
    ensures
        s.tick(true).beating,
        s.tick(true).origin == position(s.dot_x),
        s.tick(true).tick(false).beating,
        s.tick(true).tick(false).origin == s.tick(true).origin,
{
}

/// A signal that arrives while a pulse is under way is lost: the tick does
/// what it would have done without it.
pub proof fn lemma_signal_lost(s: Waveform)
    requires
        s.wf(),
        s.beating,
    ensures
        s.tick(true) == s.tick(false),
{
}

/// A pulse under way ends on the tick whose cursor stands more than
/// `PULSE_END` slots past its origin, and on no other; its origin stays.
pub proof fn lemma_pulse_end(s: Waveform, signal: bool)
    requires
        s.wf(),
        s.beating,
    ensures
        s.tick(signal).beating == !spent(s.origin, position(s.dot_x)),
        s.tick(signal).origin == s.origin,
{
}

/// The course of one pulse that begins far enough from the end of the buffer
/// to run without a wrap. The first of the `signals` starts it; what the
/// later ones say makes no difference. After the tick that stands `k` slots
/// past the origin the height is `climb(k)` kicks above where it began, and
/// the pulse is under way up to `k = PULSE_END`; the tick after that ends it,
/// with the height back where the pulse began.
pub proof fn lemma_pulse_course(s: Waveform, signals: Seq<bool>)
    requires
        s.wf(),
        !s.beating,
        1 <= signals.len() <= PULSE_END + 2,
        signals[0],
        position(s.dot_x) + signals.len() <= WIDTH,
    ensures
        ({
            let t = s.run(signals);
            let k = signals.len() - 1;
            &&& t.wf()
            &&& t.origin == position(s.dot_x)
            &&& t.dot_x == position(s.dot_x) + signals.len()
            &&& t.dot_y == s.baseline() + KICK * climb(k)
            &&& t.beating == (k <= PULSE_END)
        }),
    decreases signals.len(),
{
    if signals.len() == 1 {
        assert(s.run(signals.drop_last()) == s);
    } else {
        lemma_pulse_course(s, signals.drop_last());
    }
}

/// A pulse that begins within `PULSE_END` slots of the end of the buffer never
/// ends: the cursor wraps before it has gone far enough past the origin. The
/// pulse stays under way, from the same origin, whatever the flag does.
pub proof fn lemma_late_pulse_stays(s: Waveform, signals: Seq<bool>)
    requires
        s.wf(),
        s.beating,
        s.origin + PULSE_END + 1 >= WIDTH,
    ensures
        s.run(signals).wf(),
        s.run(signals).beating,
        s.run(signals).origin == s.origin,
    decreases signals.len(),
{
    if signals.len() > 0 {
        lemma_late_pulse_stays(s, signals.drop_last());
    }
}

/// At the end of the buffer a tick starts over: it does what it would do with
/// the cursor at slot 0 on the baseline, and leaves the cursor at slot 1.
pub proof fn lemma_wrap(s: Waveform, signal: bool)
    requires
        s.wf(),
        s.dot_x == WIDTH,
    ensures
        s.tick(signal) == (Waveform { dot_x: 0, dot_y: CENTER as int, ..s }).tick(signal),
        s.lead(signal).line[0] == (0int, CENTER as int),
        s.tick(signal).dot_x == 1,
{
}

} // verus!
