//! The trace as it runs: a buffer of plotted points, a cursor, and the pulse.

use vstd::prelude::*;
use crate::event::{quits, Control, Event, Key};
use crate::flag::LivenessFlag;
use crate::model::{plotted, sentinel, stroke, stroke_point, Waveform};
use crate::pulse::{FALL_END, KICK, PULSE_END, RISE_END, STROKE};
use crate::ring::{decay_index, decay_slot, offset, position, slot_index, CENTER, WIDTH};

verus! {

/// A stored point as the model reads it.
pub open spec fn lift(p: (i64, i64)) -> (int, int) {
    (p.0 as int, p.1 as int)
}

/// A stored buffer as the model reads it.
pub open spec fn lift_all(points: Seq<(i64, i64)>) -> Seq<(int, int)> {
    Seq::new(points.len(), |i: int| lift(points[i]))
}

/// The trace: one point per slot, the cursor, and the pulse under way, if any.
pub struct App {
    line: Vec<(i64, i64)>,
    dot_x: usize,
    dot_y: i64,
    initial_heartbeat_x: usize,
    is_beating: bool,
}

impl View for App {
    type V = Waveform;

    closed spec fn view(&self) -> Waveform {
        Waveform {
            line: lift_all(self.line@),
            dot_x: self.dot_x as int,
            dot_y: self.dot_y as int,
            origin: self.initial_heartbeat_x as int,
            beating: self.is_beating,
        }
    }
}

impl App {
    /// The invariant of the trace; see [`Waveform::wf`].
    pub open spec fn wf(&self) -> bool {
        self@.wf()
    }

    /// An empty trace: every slot blank, the cursor at slot 0 on the baseline.
    pub fn new() -> (app: App)
        ensures
            app.wf(),
            app@ == Waveform::init(),
    {
        let mut dots: Vec<(i64, i64)> = Vec::new();
        let mut i: usize = 0;
        while i < WIDTH
            invariant
                i <= WIDTH,
                dots@.len() == i,
                forall|j: int| 0 <= j < i ==> dots@[j] == (0i64, 0i64),
            decreases WIDTH - i,
        {
            dots.push((0, 0));
            i += 1;
        }
        let app = App {
            line: dots,
            dot_x: 0,
            dot_y: CENTER,
            initial_heartbeat_x: 0,
            is_beating: false,
        };
        assert(app@.line =~= Waveform::init().line);
        app
    }

    /// Draws one edge of the pulse: `STROKE` points from the cursor on, going
    /// round the buffer, each one step higher (or lower) than the one before.
    fn draw_stroke(&mut self, up: bool)
        requires
            old(self)@.line.len() == WIDTH,
            old(self)@.dot_x < WIDTH,
            -1_000_000 <= old(self)@.dot_y <= 1_000_000,
        ensures
            final(self)@ == (Waveform {
                line: stroke(old(self)@.line, old(self)@.dot_x, old(self)@.dot_y, up),
                ..old(self)@
            }),
    {
        let x = self.dot_x;
        let y = self.dot_y;
        let ghost before = self@;
        let mut k: usize = 0;
        while k < STROKE
            invariant
                k <= STROKE,
                x < WIDTH,
                -1_000_000 <= y <= 1_000_000,
                before.line.len() == WIDTH,
                self.line@.len() == WIDTH,
                self@.dot_x == x,
                self@.dot_y == y,
                self@.origin == before.origin,
                self@.beating == before.beating,
                forall|i: int|
                    0 <= i < WIDTH ==> lift(#[trigger] self.line@[i]) == if offset(x as int, i)
                        < k {
                        stroke_point(x as int, y as int, up, offset(x as int, i))
                    } else {
                        before.line[i]
                    },
            decreases STROKE - k,
        {
            let index = slot_index(x, k);
            let point = if up {
                (x as i64, y + k as i64)
            } else {
                (x as i64, y - k as i64)
            };
            assert(lift(point) == stroke_point(x as int, y as int, up, k as int));
            self.line.set(index, point);
            k += 1;
        }
        assert(self@.line =~= stroke(before.line, x as int, y as int, up));
    }

    /// The pulse step: inside one of the three windows the height moves by
    /// `KICK` and an edge is drawn from the cursor; past the last window the
    /// pulse ends.
    fn heartbeat(&mut self)
        requires
            old(self)@.line.len() == WIDTH,
            old(self)@.dot_x < WIDTH,
            old(self)@.origin < WIDTH,
            -100_000 <= old(self)@.dot_y <= 100_000,
            old(self)@.beating,
        ensures
            final(self)@ == old(self)@.pulse(),
    {
        let x = self.dot_x;
        let origin = self.initial_heartbeat_x;
        if x > origin && x <= origin + RISE_END {
            self.dot_y += KICK;
            self.draw_stroke(true);
        }
        if x > origin + RISE_END && x <= origin + FALL_END {
            self.dot_y -= KICK;
            self.draw_stroke(false);
        }
        if x > origin + FALL_END && x <= origin + PULSE_END {
            self.dot_y += KICK;
            self.draw_stroke(true);
        }
        if x > origin + PULSE_END {
            self.is_beating = false;
        }
    }

    /// One tick. Wraps the cursor at the end of the buffer, plots the leading
    /// point, takes the liveness flag and lets it start a pulse unless one is
    /// under way, runs the pulse step, erases the point `TRAIL` slots behind
    /// the cursor, and moves the cursor on.
    pub fn update(&mut self, flag: &mut LivenessFlag)
        requires
            old(self).wf(),
        ensures
            final(self).wf(),
            final(self)@ == old(self)@.tick(old(flag)@),
            !final(flag)@,
            final(self)@.line[decay_slot(position(old(self)@.dot_x))] == sentinel(),
    {
        if self.dot_x >= WIDTH {
            self.dot_x = 0;
            self.dot_y = CENTER;
        }
        self.line.set(self.dot_x, (self.dot_x as i64, self.dot_y));
        if flag.take() && !self.is_beating {
            self.initial_heartbeat_x = self.dot_x;
            self.is_beating = true;
        }
        assert(self@ == old(self)@.lead(old(flag)@));
        if self.is_beating {
            self.heartbeat();
        }
        let ghost pulsed = self@;
        assert(self.line@.len() == pulsed.line.len());
        let decay_index = decay_index(self.dot_x);
        self.line.set(decay_index, (0, 0));
        self.dot_x += 1;
        assert(self@ == pulsed.fade());
    }

    /// Handles one event of the render loop. A tick advances the trace; the
    /// key `q` asks the loop to stop; any other input changes nothing.
    pub fn handle(&mut self, event: Event<Key>, flag: &mut LivenessFlag) -> (next: Control)
        requires
            old(self).wf(),
        ensures
            final(self).wf(),
            match event {
                Event::Tick => {
                    &&& next == Control::Continue
                    &&& final(self)@ == old(self)@.tick(old(flag)@)
                    &&& !final(flag)@
                },
                Event::Input(key) => {
                    &&& next == if quits(key) {
                        Control::Quit
                    } else {
                        Control::Continue
                    }
                    &&& *final(self) == *old(self)
                    &&& *final(flag) == *old(flag)
                },
            },
    {
        match event {
            Event::Tick => {
                self.update(flag);
                Control::Continue
            },
            Event::Input(Key::Char(c)) => {
                if c == 'q' {
                    Control::Quit
                } else {
                    Control::Continue
                }
            },
            Event::Input(Key::Other) => Control::Continue,
        }
    }

    /// The buffer, slot by slot.
    pub fn line(&self) -> (line: &Vec<(i64, i64)>)
        ensures
            lift_all(line@) == self@.line,
    {
        &self.line
    }

    /// The plotted points in buffer order: every point but the blanks. With
    /// the cursor point, this is what one frame shows.
    pub fn visible(&self) -> (points: Vec<(i64, i64)>)
        ensures
            lift_all(points@) == plotted(self@.line),
    {
        let mut points: Vec<(i64, i64)> = Vec::new();
        let mut i: usize = 0;
        assert(plotted(self@.line.take(0)) =~= lift_all(points@)) by {
            reveal(Seq::filter);
        }
        while i < self.line.len()
            invariant
                i <= self.line@.len(),
                lift_all(points@) == plotted(self@.line.take(i as int)),
            decreases self.line@.len() - i,
        {
            let point = self.line[i];
            let ghost shorter = self@.line.take(i as int);
            let ghost longer = self@.line.take(i + 1);
            let ghost kept = lift_all(points@);
            assert(longer.drop_last() =~= shorter);
            assert(longer.last() == lift(point));
            assert(plotted(longer) == if lift(point) != sentinel() {
                kept.push(lift(point))
            } else {
                kept
            }) by {
                reveal(Seq::filter);
            }
            if point.0 != 0 || point.1 != 0 {
                points.push(point);
                assert(lift_all(points@) =~= kept.push(lift(point)));
            }
            i += 1;
        }
        assert(self@.line.take(i as int) =~= self@.line);
        points
    }

    /// The cursor point, as one frame shows it.
    pub fn dot(&self) -> (point: (i64, i64))
        requires
            self.wf(),
        ensures
            lift(point) == (self@.dot_x, self@.dot_y),
    {
        (self.dot_x as i64, self.dot_y)
    }

    /// The cursor as stored.
    pub fn dot_x(&self) -> (x: usize)
        ensures
            x == self@.dot_x,
    {
        self.dot_x
    }

    /// Height of the cursor.
    pub fn dot_y(&self) -> (y: i64)
        ensures
            y == self@.dot_y,
    {
        self.dot_y
    }

    /// Slot at which the latest pulse began.
    pub fn initial_heartbeat_x(&self) -> (origin: usize)
        ensures
            origin == self@.origin,
    {
        self.initial_heartbeat_x
    }

    /// Whether a pulse is under way.
    pub fn is_beating(&self) -> (beating: bool)
        ensures
            beating == self@.beating,
    {
        self.is_beating
    }
}

} // verus!
