//! The host's frame clock: decides, from the time now, how many simulation
//! ticks are due and whether a frame should be drawn. Times are nanoseconds
//! from an origin the host chooses; durations are nanoseconds.
use vstd::prelude::*;

verus! {

/// Simulation ticks per second.
pub const TICK_RATE: usize = 120;

/// Nanoseconds per simulation tick.
pub const TICK_DURATION: u64 = 8333333;

/// The largest time a timer accepts: far beyond any session, and small
/// enough that no sum of a time and a duration overflows.
pub const TIME_LIMIT: u64 = 0x4000_0000_0000_0000;

/// What one call of `Timer::tick` found due.
#[derive(Debug, Clone, Copy)]
pub struct TimeAction {
    pub render: bool,
    pub ticks: u32,
    pub elapsed: u64,
    pub sleep: u64,
    pub now: u64,
}

/// Schedules ticks at a fixed rate and frames at the render rate.
#[derive(Debug)]
pub struct Timer {
    pub render_rate: usize,
    pub render_duration: u64,
    pub elapsed: u64,
    pub now: u64,
    pub start: u64,
    pub next_tick: u64,
    pub next_render: u64,
    pub ticks: u32,
    pub renders: u32,
    pub tick_calls: u32,
    pub total_sleep_time: u64,
}

/// How many periods of `d` a deadline at `next` must move by to reach `now`.
pub open spec fn periods_due(next: int, now: int, d: int) -> int {
    if next < now {
        (now - next + d - 1) / d
    } else {
        0
    }
}

/// The deadline moved past `now` by whole periods of `d`.
pub open spec fn advanced(next: int, now: int, d: int) -> int {
    next + periods_due(next, now, d) * d
}

pub open spec fn min_u32(v: int) -> int {
    if v > u32::MAX {
        u32::MAX as int
    } else {
        v
    }
}

pub open spec fn sat_add_u32(a: int, b: int) -> int {
    min_u32(a + b)
}

pub open spec fn min_int(a: int, b: int) -> int {
    if a < b {
        a
    } else {
        b
    }
}

/// `a - b`, or zero where `b` exceeds `a`.
pub open spec fn sat_sub_int(a: int, b: int) -> int {
    if a > b {
        a - b
    } else {
        0
    }
}

impl TimeAction {
    pub fn new(render: bool, ticks: u32, elapsed: u64, sleep: u64, now: u64) -> (r: Self)
        ensures
            r == (TimeAction { render, ticks, elapsed, sleep, now }),
    {
        TimeAction { render, ticks, elapsed, sleep, now }
    }
}

/// `now + diff`, less what of `diff` has not yet passed before `time`: the
/// deadline one period after `now`, pulled back to `time` where that is sooner.
pub fn diff_time(now: u64, diff: u64, time: u64) -> (r: u64)
    requires
        now + diff <= u64::MAX,
    ensures
        r == now + diff - sat_sub_int(diff as int, sat_sub_int(time as int, now as int)),
{
    now + diff - diff.saturating_sub(time.saturating_sub(now))
}

/// The deadline `next` moved past `now` by whole periods of `d`, and how
/// many periods that took.
fn catch_up(next: u64, now: u64, d: u64) -> (r: (u64, u64))
    requires
        d > 0,
        now <= TIME_LIMIT,
        d <= TIME_LIMIT,
        next <= now + d,
    ensures
        r.0 == advanced(next as int, now as int, d as int),
        r.1 == periods_due(next as int, now as int, d as int),
        now <= r.0 <= now + d,
{
    if next < now {
        let gap = now - next + d - 1;
        let k = gap / d;
        assert(k * d <= gap && gap < k * d + d) by (nonlinear_arith)
            requires
                k == gap / d,
                d > 0,
        ;
        (next + k * d, k)
    } else {
        (next, 0)
    }
}

impl Timer {
    /// The render period is positive, times stay within the limit, and each
    /// deadline lies at most one period after the last time seen.
    pub open spec fn wf(self) -> bool {
        &&& 0 < self.render_duration <= 1_000_000_000
        &&& self.now <= TIME_LIMIT
        &&& self.start <= self.now
        &&& self.next_tick <= self.now + TICK_DURATION
        &&& self.next_render <= self.now + self.render_duration
    }

    /// A timer started at `now` that renders `render_rate` frames a second.
    pub fn new(render_rate: usize, now: u64) -> (r: Self)
        requires
            render_rate > 0,
            now <= TIME_LIMIT,
        ensures
            r.wf(),
            r.render_rate == render_rate,
            r.render_duration == if render_rate > 1_000_000_000 {
                1
            } else {
                1_000_000_000int / render_rate as int
            },
            r.now == now && r.start == now,
            r.next_tick == now + TICK_DURATION,
            r.next_render == now + r.render_duration,
            r.ticks == 0 && r.renders == 0 && r.tick_calls == 0,
            r.elapsed == 0 && r.total_sleep_time == 0,
    {
        let render_duration: u64 = if render_rate > 1_000_000_000 {
            1
        } else {
            1_000_000_000 / render_rate as u64
        };
        assert(0 < render_duration <= 1_000_000_000) by (nonlinear_arith)
            requires
                render_rate > 1_000_000_000 ==> render_duration == 1,
                render_rate <= 1_000_000_000 ==> render_duration == 1_000_000_000int / render_rate as int,
                render_rate > 0,
        ;
        Timer {
            render_duration,
            render_rate,
            elapsed: 0,
            now,
            start: now,
            next_tick: now + TICK_DURATION,
            next_render: now + render_duration,
            ticks: 0,
            renders: 0,
            tick_calls: 0,
            total_sleep_time: 0,
        }
    }

    /// Advances to `now`: moves each deadline that has passed, counts the
    /// ticks due, and says whether a frame is due.
    pub fn tick(&mut self, now: u64) -> (r: TimeAction)
        requires
            old(self).wf(),
            old(self).now <= now <= TIME_LIMIT,
        ensures
            final(self).wf(),
            ({
                let o = *old(self);
                let nt = advanced(o.next_tick as int, now as int, TICK_DURATION as int);
                let nr = advanced(o.next_render as int, now as int, o.render_duration as int);
                &&& r.now == now
                &&& r.elapsed == now - o.now
                &&& r.render == (o.next_render < now)
                &&& r.ticks == min_u32(
                    periods_due(o.next_tick as int, now as int, TICK_DURATION as int),
                )
                &&& r.sleep == min_int(nt, nr)
                &&& final(self).now == now
                &&& final(self).next_tick == nt
                &&& final(self).next_render == nr
                &&& final(self).ticks == sat_add_u32(o.ticks as int, r.ticks as int)
                &&& final(self).renders == if r.render {
                    sat_add_u32(o.renders as int, 1)
                } else {
                    o.renders as int
                }
                &&& final(self).start == o.start
                &&& final(self).elapsed == if o.elapsed + (now - o.now) > u64::MAX {
                    u64::MAX as int
                } else {
                    o.elapsed + (now - o.now)
                }
            }),
    {
        let elapsed = now - self.now;
        self.elapsed = self.elapsed.saturating_add(elapsed);
        self.now = now;
        let (render, ticks) = self.tick_count(now);
        let sleep = if self.next_tick < self.next_render {
            self.next_tick
        } else {
            self.next_render
        };
        let ghost nt = self.next_tick;
        let ghost nr = self.next_render;
        assert(ticks != 0 <==> periods_due(old(self).next_tick as int, now as int, TICK_DURATION as int) != 0);
        if ticks != 0 {
            self.next_tick = diff_time(now, TICK_DURATION, self.next_tick);
            self.ticks = self.ticks.saturating_add(ticks);
        }
        if render {
            self.next_render = diff_time(now, self.render_duration, self.next_render);
            self.renders = self.renders.saturating_add(1);
        }
        assert(self.next_tick == nt);
        assert(self.next_render == nr);
        self.tick_calls = self.tick_calls.wrapping_add(1);
        self.total_sleep_time = self.total_sleep_time.saturating_add(sleep.saturating_sub(now));
        TimeAction { render, ticks, elapsed, sleep, now }
    }

    /// Moves the passed deadlines beyond `now`; returns whether a frame is
    /// due and how many ticks are.
    pub fn tick_count(&mut self, now: u64) -> (r: (bool, u32))
        requires
            old(self).wf(),
            old(self).now == now,
        ensures
            final(self).wf(),
            *final(self) == (Timer {
                next_tick: final(self).next_tick,
                next_render: final(self).next_render,
                ..*old(self)
            }),
            final(self).next_tick == advanced(
                old(self).next_tick as int,
                now as int,
                TICK_DURATION as int,
            ),
            final(self).next_render == advanced(
                old(self).next_render as int,
                now as int,
                old(self).render_duration as int,
            ),
            now <= final(self).next_render,
            now <= final(self).next_tick,
            r.0 == (old(self).next_render < now),
            r.1 == min_u32(periods_due(old(self).next_tick as int, now as int, TICK_DURATION as int)),
    {
        let (nr, _) = catch_up(self.next_render, now, self.render_duration);
        let (nt, k) = catch_up(self.next_tick, now, TICK_DURATION);
        let render = self.next_render < now;
        self.next_render = nr;
        self.next_tick = nt;
        let ticks: u32 = if k > u32::MAX as u64 {
            u32::MAX
        } else {
            k as u32
        };
        (render, ticks)
    }

    /// The next deadline, of a tick or a frame.
    pub fn sleep_until(&self) -> (r: u64)
        ensures
            r == min_int(self.next_tick as int, self.next_render as int),
    {
        if self.next_tick < self.next_render {
            self.next_tick
        } else {
            self.next_render
        }
    }

    pub fn start(&self) -> (r: u64)
        ensures
            r == self.start,
    {
        self.start
    }

    pub fn render_rate(&self) -> (r: usize)
        ensures
            r == self.render_rate,
    {
        self.render_rate
    }

    /// utility method
    pub fn tick_rate(&self) -> (r: usize)
        ensures
            r == TICK_RATE,
    {
        TICK_RATE
    }

    /// Ticks counted less ticks expected by `now`, clamped to `i32`.
    pub fn tick_drift(&self, now: u64) -> (r: i32)
        requires
            self.start <= now,
        ensures
            r == clamp_i32(self.ticks - min_u32((now - self.start) / TICK_DURATION as int)),
    {
        drift(self.ticks, self.est_ticks(now))
    }

    /// Frames counted less frames expected by `now`, clamped to `i32`.
    pub fn render_drift(&self, now: u64) -> (r: i32)
        requires
            self.start <= now,
            self.render_duration > 0,
        ensures
            r == clamp_i32(
                self.renders - min_u32((now - self.start) / self.render_duration as int),
            ),
    {
        drift(self.renders, self.est_renders(now))
    }

    /// Frames expected by `now`.
    pub fn est_renders(&self, now: u64) -> (r: u32)
        requires
            self.start <= now,
            self.render_duration > 0,
        ensures
            r == min_u32((now - self.start) / self.render_duration as int),
    {
        let n = (now - self.start) / self.render_duration;
        if n > u32::MAX as u64 {
            u32::MAX
        } else {
            n as u32
        }
    }

    /// Ticks expected by `now`.
    pub fn est_ticks(&self, now: u64) -> (r: u32)
        requires
            self.start <= now,
        ensures
            r == min_u32((now - self.start) / TICK_DURATION as int),
    {
        let n = (now - self.start) / TICK_DURATION;
        if n > u32::MAX as u64 {
            u32::MAX
        } else {
            n as u32
        }
    }

    pub fn ticks(&self) -> (r: u32)
        ensures
            r == self.ticks,
    {
        self.ticks
    }

    pub fn renders(&self) -> (r: u32)
        ensures
            r == self.renders,
    {
        self.renders
    }

    pub fn elapsed(&self) -> (r: u64)
        ensures
            r == self.elapsed,
    {
        self.elapsed
    }
}

pub open spec fn clamp_i32(v: int) -> int {
    if v > i32::MAX {
        i32::MAX as int
    } else if v < i32::MIN {
        i32::MIN as int
    } else {
        v
    }
}

fn drift(counted: u32, expected: u32) -> (r: i32)
    ensures
        r == clamp_i32(counted - expected),
{
    let d: i64 = counted as i64 - expected as i64;
    if d > i32::MAX as i64 {
        i32::MAX
    } else if d < i32::MIN as i64 {
        i32::MIN
    } else {
        d as i32
    }
}

} // verus!
