//! The delay and sound timers, which count down at 60 Hz of elapsed time,
//! however many instructions run in that time.

use vstd::prelude::*;

verus! {

/// Length of one timer period in nanoseconds: a sixtieth of a second.
pub const TIMER_PERIOD_NS: u64 = 16_666_666;

/// The two timers and the time accumulated towards their next tick.
#[derive(Clone, Copy, Debug, PartialEq, Eq, Structural)]
pub struct Timers {
    /// The delay timer.
    pub delay: u8,
    /// The sound timer. A tone sounds while it is not zero.
    pub sound: u8,
    /// Nanoseconds accumulated since the last tick.
    pub elapsed: u64,
    /// Whether an earlier step has left a point in time to measure from.
    pub running: bool,
}

/// A timer value after one tick: one less, but never below zero.
pub open spec fn counted_down(value: u8) -> u8 {
    if value > 0 {
        (value - 1) as u8
    } else {
        0
    }
}

/// A timer value after `ticks` ticks.
pub open spec fn counted_down_by(value: u8, ticks: int) -> u8 {
    if value > ticks {
        (value - ticks) as u8
    } else {
        0
    }
}

/// The sum of two spans of time, held at the largest value that fits.
pub open spec fn accumulated(elapsed: u64, more: u64) -> u64 {
    if elapsed + more > u64::MAX {
        u64::MAX
    } else {
        (elapsed + more) as u64
    }
}

/// The sum of a sequence of spans of time.
pub open spec fn total_time(spans: Seq<u64>) -> int
    decreases spans.len(),
{
    if spans.len() == 0 {
        0
    } else {
        total_time(spans.drop_last()) + spans.last()
    }
}

impl Timers {
    /// Timers at rest: both zero, nothing accumulated, nothing to measure
    /// from.
    pub open spec fn stopped() -> Timers {
        Timers { delay: 0, sound: 0, elapsed: 0, running: false }
    }

    /// The timers after `elapsed_ns` more nanoseconds. The first advance after
    /// a stop only starts the measurement. Later ones add to the accumulated
    /// time; once that reaches a period, one period is taken off and both
    /// timers tick once.
    pub open spec fn advanced(self, elapsed_ns: u64) -> Timers {
        if !self.running {
            Timers { running: true, ..self }
        } else {
            let total = accumulated(self.elapsed, elapsed_ns);
            if total >= TIMER_PERIOD_NS {
                Timers {
                    delay: counted_down(self.delay),
                    sound: counted_down(self.sound),
                    elapsed: (total - TIMER_PERIOD_NS) as u64,
                    running: true,
                }
            } else {
                Timers { elapsed: total, ..self }
            }
        }
    }

    /// The timers after one advance for each of `spans`, in order.
    pub open spec fn advanced_through(self, spans: Seq<u64>) -> Timers
        decreases spans.len(),
    {
        if spans.len() == 0 {
            self
        } else {
            self.advanced_through(spans.drop_last()).advanced(spans.last())
        }
    }

    /// Timers at rest.
    pub fn new() -> (t: Timers)
        ensures
            t == Timers::stopped(),
    {
        Timers { delay: 0, sound: 0, elapsed: 0, running: false }
    }

    /// Advances the timers by `elapsed_ns` nanoseconds.
    pub fn advance(&mut self, elapsed_ns: u64)
        ensures
            *final(self) == old(self).advanced(elapsed_ns),
    {
        if self.running {
            let total = self.elapsed.saturating_add(elapsed_ns);
            if total >= TIMER_PERIOD_NS {
                self.elapsed = total - TIMER_PERIOD_NS;
                if self.delay > 0 {
                    self.delay -= 1;
                }
                if self.sound > 0 {
                    self.sound -= 1;
                }
            } else {
                self.elapsed = total;
            }
        } else {
            self.running = true;
        }
    }
}

/// While every advance is shorter than a period, the accumulated time stays
/// below a period, and the timers have ticked exactly once for each period
/// that the elapsed time has completed, stopping at zero.
pub proof fn lemma_timer_cadence(start: Timers, spans: Seq<u64>)
    requires
        start.running,
        start.elapsed < TIMER_PERIOD_NS,
        forall|k: int| 0 <= k < spans.len() ==> spans[k] < TIMER_PERIOD_NS,
    ensures
        ({
            let end = start.advanced_through(spans);
            let time = start.elapsed + total_time(spans);
            &&& end.running
            &&& end.elapsed == time % (TIMER_PERIOD_NS as int)
            &&& end.delay == counted_down_by(start.delay, time / (TIMER_PERIOD_NS as int))
            &&& end.sound == counted_down_by(start.sound, time / (TIMER_PERIOD_NS as int))
        }),
    decreases spans.len(),
{
    if spans.len() > 0 {
        let earlier = spans.drop_last();
        lemma_timer_cadence(start, earlier);
        let before = start.elapsed + total_time(earlier);
        let span = spans.last();
        lemma_total_time_nonnegative(earlier);
        lemma_one_more_span(before, span as int);
    }
}

/// The sum of spans of time is not negative.
proof fn lemma_total_time_nonnegative(spans: Seq<u64>)
    ensures
        total_time(spans) >= 0,
    decreases spans.len(),
{
    if spans.len() > 0 {
        lemma_total_time_nonnegative(spans.drop_last());
    }
}

/// Adding less than a period to a time completes at most one more period.
proof fn lemma_one_more_span(before: int, span: int)
    requires
        0 <= before,
        0 <= span < 16_666_666,
    ensures
        before % 16_666_666 + span >= 16_666_666 ==> {
            &&& (before + span) / 16_666_666 == before / 16_666_666 + 1
            &&& (before + span) % 16_666_666 == before % 16_666_666 + span - 16_666_666
        },
        before % 16_666_666 + span < 16_666_666 ==> {
            &&& (before + span) / 16_666_666 == before / 16_666_666
            &&& (before + span) % 16_666_666 == before % 16_666_666 + span
        },
{
}

} // verus!
