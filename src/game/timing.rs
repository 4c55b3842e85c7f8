use vstd::prelude::*;

use std::time::Instant;

verus! {

#[verifier::external_type_specification]
#[verifier::external_body]
pub struct ExInstant(Instant);

/// Relies on std's `Instant::now`: it reads the monotonic clock, so nothing is
/// known of the value.
#[verifier::external_body]
pub(crate) fn instant_now() -> Instant {
    Instant::now()
}

/// Ticks per second of the simulation.
pub const TICK_RATE: u32 = 120;

/// Ticks between two automatic one-row drops.
pub const GRAVITY: u32 = 120;

/// Ticks before a held horizontal move starts repeating.
pub const SHIFT_DELAY: u16 = 12;

/// What gravity asks for in one tick.
#[derive(Debug, PartialEq, Eq, Structural)]
pub enum TimeAction {
    /// Move the piece down by this many rows.
    Drop(i8),
    Idle,
}

/// A counter that runs up towards a goal.
#[derive(Debug, Default, Clone, Copy)]
pub struct Ticker {
    pub goal: u16,
    pub value: u16,
}

/// The auto-repeat state of one direction: the initial delay and the repeat
/// interval.
#[derive(Debug, Default, Clone, Copy)]
pub struct Timings {
    pub das: Ticker,
    pub arr: Ticker,
}

/// The lock timer: engaged while the piece cannot fall, it counts down and
/// forces a lock at zero.
#[derive(Debug, Clone, Copy)]
pub struct HardDrop {
    pub scheduled: bool,
    pub goal: u32,
}

/// The timing state of a session.
#[derive(Debug)]
pub struct GameTime {
    pub right: Timings,
    pub left: Timings,
    pub down: Timings,
    pub hard_drop: HardDrop,
    /// Ticks per automatic drop.
    pub gravity: u32,
    /// Ticks accumulated towards the next automatic drop.
    pub grav_goal: u32,
    pub ticks: u32,
    pub start: Instant,
    pub now: Instant,
}

/// The value of a saturating increment of a `u16`.
pub open spec fn inc16(v: u16) -> u16 {
    if v == u16::MAX {
        v
    } else {
        (v + 1) as u16
    }
}

/// One step of auto-repeat for a held direction: the new state and how many
/// moves to make now. Before the delay is reached only the first tick moves
/// (once); after it, the repeat counter pays out one move per interval, or
/// 255 moves at once when the interval is zero.
pub open spec fn repeat_step(t: Timings) -> (Timings, int) {
    let das = Ticker { value: inc16(t.das.value), ..t.das };
    if das.value < das.goal {
        (
            Timings { das, arr: Ticker { value: 0, ..t.arr } },
            if das.value == 1 {
                1
            } else {
                0
            },
        )
    } else {
        let a = inc16(t.arr.value);
        if t.arr.goal == 0 {
            (Timings { das, arr: Ticker { value: 0, ..t.arr } }, 255)
        } else {
            let n = a / t.arr.goal;
            (
                Timings { das, arr: Ticker { value: (a % t.arr.goal) as u16, ..t.arr } },
                if n > 255 {
                    255
                } else {
                    n as int
                },
            )
        }
    }
}

/// The lock budget for a piece whose anchor is on row `y`: longer nearer the
/// top, zero from row 24 down.
pub open spec fn lock_budget(y: i8) -> int {
    let a = if y < 0 {
        -y
    } else {
        y as int
    };
    if a >= 24 {
        0
    } else {
        120 * (24 - a)
    }
}

impl Ticker {
    pub fn new(goal: u16) -> (r: Self)
        ensures
            r.goal == goal,
            r.value == 0,
    {
        Ticker { goal, value: 0 }
    }

    pub fn tick(&mut self)
        ensures
            *final(self) == (Ticker { value: inc16(old(self).value), ..*old(self) }),
    {
        self.value = self.value.saturating_add(1);
    }

    pub fn reset(&mut self)
        ensures
            *final(self) == (Ticker { value: 0, ..*old(self) }),
    {
        self.value = 0;
    }

    pub fn reached(&self) -> (r: bool)
        ensures
            r == (self.value >= self.goal),
    {
        self.value >= self.goal
    }
}

impl Timings {
    pub fn new(das_limit: u16, arr_limit: u16) -> (r: Self)
        ensures
            r.das.goal == das_limit,
            r.arr.goal == arr_limit,
            r.das.value == 0,
            r.arr.value == 0,
    {
        Timings { das: Ticker::new(das_limit), arr: Ticker::new(arr_limit) }
    }

    /// Both counters back to zero, the goals kept.
    pub open spec fn reset_spec(self) -> Timings {
        Timings { das: Ticker { value: 0, ..self.das }, arr: Ticker { value: 0, ..self.arr } }
    }

    pub fn reset(&mut self)
        ensures
            *final(self) == old(self).reset_spec(),
    {
        self.das.reset();
        self.arr.reset();
    }

    /// One auto-repeat step; returns the number of moves to make.
    pub fn count(&mut self) -> (r: u8)
        ensures
            (*final(self), r as int) == repeat_step(*old(self)),
    {
        self.das.tick();
        if !self.das.reached() {
            self.arr.reset();
            return if self.das.value == 1 {
                1
            } else {
                0
            };
        }
        self.arr.tick();
        let amount: u16;
        if self.arr.goal == 0 {
            amount = 255;
            self.arr.value = 0;
        } else {
            amount = self.arr.value / self.arr.goal;
            self.arr.value = self.arr.value % self.arr.goal;
        }
        if amount > 255 {
            255
        } else {
            amount as u8
        }
    }
}

impl HardDrop {
    pub fn new() -> (r: Self)
        ensures
            r.goal == 120 * 20,
            !r.scheduled,
    {
        HardDrop { goal: 120 * 20, scheduled: false }
    }

    /// The timer after counting one tick in which the piece, anchored on row
    /// `y`, cannot fall, and whether that tick forces a lock. An idle timer
    /// starts from the budget of row `y`; a forced lock disengages it.
    pub open spec fn after_increment(self, y: i8) -> (HardDrop, bool) {
        let g = if self.scheduled {
            self.goal as int
        } else {
            lock_budget(y)
        };
        let left = if g > 0 {
            g - 1
        } else {
            0
        };
        if left == 0 {
            (HardDrop { scheduled: false, goal: lock_budget(0) as u32 }, true)
        } else {
            (HardDrop { scheduled: true, goal: left as u32 }, false)
        }
    }

    /// Counts one tick in which the piece cannot fall; true when the budget
    /// runs out, which disengages the timer again.
    pub fn increment(&mut self, y: i8) -> (r: bool)
        ensures
            (*final(self), r) == old(self).after_increment(y),
    {
        if !self.scheduled {
            self.reset_goal(y);
            self.scheduled = true;
        }
        if self.goal > 0 {
            self.goal = self.goal - 1;
        }
        if self.goal == 0 {
            self.reset_goal(0);
            true
        } else {
            false
        }
    }

    /// Disengages the timer, with the budget of row `y`.
    pub fn reset_goal(&mut self, y: i8)
        ensures
            *final(self) == (HardDrop { scheduled: false, goal: lock_budget(y) as u32 }),
    {
        let a: u8 = if y < 0 {
            (-(y as i16)) as u8
        } else {
            y as u8
        };
        self.goal = 120 * (24u8.saturating_sub(a) as u32);
        self.scheduled = false;
    }
}

impl GameTime {
    /// Gravity is a positive interval and the accumulator does not exceed it.
    pub open spec fn wf(self) -> bool {
        0 < self.gravity < u32::MAX && self.grav_goal <= self.gravity
    }

    pub open spec fn timings_of(self, left: Option<bool>) -> Timings {
        match left {
            Some(true) => self.left,
            Some(false) => self.right,
            None => self.down,
        }
    }

    /// `self` with the timings of direction `left` replaced by `t`.
    pub open spec fn with_timings(self, left: Option<bool>, t: Timings) -> GameTime {
        match left {
            Some(true) => GameTime { left: t, ..self },
            Some(false) => GameTime { right: t, ..self },
            None => GameTime { down: t, ..self },
        }
    }

    /// The timers as a session begins: auto-repeat counters at zero, the
    /// lock timer idle, the gravity accumulator full, no tick counted.
    pub open spec fn is_initial(self) -> bool {
        &&& self.wf()
        &&& self.right == Timings::new_spec(SHIFT_DELAY, 0)
        &&& self.left == Timings::new_spec(SHIFT_DELAY, 0)
        &&& self.down == Timings::new_spec(0, 0)
        &&& self.hard_drop == (HardDrop { goal: 2400, scheduled: false })
        &&& self.gravity == GRAVITY
        &&& self.grav_goal == GRAVITY
        &&& self.ticks == 0
    }

    pub fn new(now: Instant) -> (r: Self)
        ensures
            r.is_initial(),
            r.start == now,
            r.now == now,
    {
        GameTime {
            right: Timings::new(SHIFT_DELAY, 0),
            left: Timings::new(SHIFT_DELAY, 0),
            down: Timings::new(0, 0),
            hard_drop: HardDrop::new(),
            start: now,
            now,
            gravity: GRAVITY,
            grav_goal: GRAVITY,
            ticks: 0,
        }
    }

    /// The auto-repeat state of one direction: left for `Some(true)`, right
    /// for `Some(false)`, down for `None`.
    pub fn timings(&self, left: Option<bool>) -> (r: Timings)
        ensures
            r == self.timings_of(left),
    {
        match left {
            Some(true) => self.left,
            Some(false) => self.right,
            None => self.down,
        }
    }

    fn set_timings(&mut self, left: Option<bool>, t: Timings)
        ensures
            *final(self) == old(self).with_timings(left, t),
    {
        match left {
            Some(true) => self.left = t,
            Some(false) => self.right = t,
            None => self.down = t,
        }
    }

    /// Sets both auto-repeat counters of one direction back to zero.
    pub fn reset_timing(&mut self, left: Option<bool>)
        ensures
            *final(self) == old(self).with_timings(
                left,
                old(self).timings_of(left).reset_spec(),
            ),
    {
        let mut t = self.timings(left);
        t.reset();
        self.set_timings(left, t);
    }

    /// The state after one auto-repeat step of direction `left`, and the
    /// number of moves it makes. A horizontal direction first resets the
    /// opposite one.
    pub open spec fn counted(self, left: Option<bool>) -> (GameTime, int) {
        let base = match left {
            Some(l) => self.with_timings(Some(!l), self.timings_of(Some(!l)).reset_spec()),
            None => self,
        };
        let step = repeat_step(base.timings_of(left));
        (base.with_timings(left, step.0), step.1)
    }

    /// The number of moves a held direction makes this tick.
    pub fn count_move(&mut self, left: Option<bool>) -> (r: u8)
        ensures
            (*final(self), r as int) == old(self).counted(left),
    {
        if let Some(l) = left {
            self.reset_timing(Some(!l));
        }
        let mut t = self.timings(left);
        let n = t.count();
        self.set_timings(left, t);
        n
    }

    /// The state after one tick at `now`, and the number of rows gravity
    /// drops the piece by: one per full interval in the accumulator.
    pub open spec fn ticked(self, now: Instant) -> (GameTime, int) {
        let acc = self.grav_goal + 1;
        let t = GameTime { now, ticks: ((self.ticks + 1) % 0x1_0000_0000) as u32, ..self };
        if acc >= self.gravity {
            (GameTime { grav_goal: (acc % self.gravity as int) as u32, ..t }, acc / self.gravity as int)
        } else {
            (GameTime { grav_goal: acc as u32, ..t }, 0)
        }
    }

    /// Advances one tick: counts it and adds it to the gravity accumulator,
    /// which pays out one drop per full interval.
    pub fn tick(&mut self, now: Instant) -> (r: TimeAction)
        requires
            old(self).wf(),
        ensures
            final(self).wf(),
            *final(self) == old(self).ticked(now).0,
            old(self).ticked(now).1 > 0 ==> r == TimeAction::Drop(old(self).ticked(now).1 as i8),
            old(self).ticked(now).1 == 0 ==> r is Idle,
            old(self).ticked(now).1 <= 2,
    {
        self.now = now;
        self.ticks = self.ticks.wrapping_add(1);
        self.grav_goal = self.grav_goal + 1;
        if self.grav_goal >= self.gravity {
            let acc = self.grav_goal;
            let drop = acc / self.gravity;
            assert(1 <= drop <= 2) by (nonlinear_arith)
                requires
                    drop == acc / self.gravity,
                    self.gravity <= acc <= self.gravity + 1,
                    self.gravity > 0,
            ;
            self.grav_goal = acc % self.gravity;
            TimeAction::Drop(drop as i8)
        } else {
            TimeAction::Idle
        }
    }
}

impl Timings {
    pub open spec fn new_spec(das_limit: u16, arr_limit: u16) -> Timings {
        Timings {
            das: Ticker { goal: das_limit, value: 0 },
            arr: Ticker { goal: arr_limit, value: 0 },
        }
    }
}

} // verus!
