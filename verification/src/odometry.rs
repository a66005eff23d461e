//! When the odometry takes a sample, and what it measures from.

use vstd::prelude::*;

use crate::clock::micros_between;

verus! {

/// The interval that a sample is taken over.
#[derive(Clone, Copy, Debug, PartialEq, Eq, Structural)]
pub enum SampleInterval {
    /// So many microseconds.
    Measured { us: u64 },
    /// The task's period, because no time seems to have passed.
    Nominal { period_ms: u64 },
}

/// What a tick comes to.
#[derive(Clone, Copy, Debug, PartialEq, Eq, Structural)]
pub enum OdometryAction {
    /// Too soon after the last sample: let other tasks have their turn.
    Skip,
    /// Take a sample: the wheel speeds since the counters stood at `prev_l` and `prev_r`.
    Sample { prev_l: i32, prev_r: i32, interval: SampleInterval },
    Exit,
}

/// What happened to the odometry task.
#[derive(Clone, Copy, Debug, PartialEq, Eq, Structural)]
pub enum OdometryEvent {
    /// A tick at time `now`.
    Tick { now: u64 },
    /// The task is told to stop.
    Stop,
}

/// The odometry task: the encoder counters at the last sample, and when that was.
#[derive(Clone, Copy, Debug, PartialEq, Eq, Structural)]
pub struct Odometry {
    pub prev_l: i32,
    pub prev_r: i32,
    pub last_sample: u64,
    pub period_ms: u64,
}

/// Less than half a period, `period_ms` milliseconds, has passed.
pub open spec fn too_soon(us: int, period_ms: int) -> bool {
    2 * us < 1000 * period_ms
}

/// What the task does on an event. Ticks that were missed come back to back; dividing a count by
/// such a short interval would be a large false speed, so they are skipped.
pub open spec fn odometry_action(odometry: Odometry, event: OdometryEvent) -> OdometryAction {
    match event {
        OdometryEvent::Stop => OdometryAction::Exit,
        OdometryEvent::Tick { now } => {
            let us = now - odometry.last_sample;
            if us > 0 && too_soon(us, odometry.period_ms as int) {
                OdometryAction::Skip
            } else {
                OdometryAction::Sample {
                    prev_l: odometry.prev_l,
                    prev_r: odometry.prev_r,
                    interval: if us > 0 {
                        SampleInterval::Measured { us: us as u64 }
                    } else {
                        SampleInterval::Nominal { period_ms: odometry.period_ms }
                    },
                }
            }
        },
    }
}

/// The task after a sample at time `stamp` that found the counters at `left` and `right`.
pub open spec fn sampled(odometry: Odometry, left: i32, right: i32, stamp: u64) -> Odometry {
    Odometry { prev_l: left, prev_r: right, last_sample: stamp, ..odometry }
}

impl Odometry {
    /// The task starts measuring from where the counters stand.
    pub fn new(left: i32, right: i32, now: u64, period_ms: u64) -> (odometry: Self)
        ensures
            odometry == (Odometry { prev_l: left, prev_r: right, last_sample: now, period_ms }),
    {
        Odometry { prev_l: left, prev_r: right, last_sample: now, period_ms }
    }

    /// What the task does on an event.
    pub fn action(&self, event: OdometryEvent) -> (action: OdometryAction)
        requires
            event matches OdometryEvent::Tick { now } ==> self.last_sample <= now,
        ensures
            action == odometry_action(*self, event),
    {
        match event {
            OdometryEvent::Stop => OdometryAction::Exit,
            OdometryEvent::Tick { now } => {
                let us: u64 = micros_between(self.last_sample, now);
                if us == 0 {
                    OdometryAction::Sample {
                        prev_l: self.prev_l,
                        prev_r: self.prev_r,
                        interval: SampleInterval::Nominal { period_ms: self.period_ms },
                    }
                } else if us / 500 < self.period_ms {
                    OdometryAction::Skip
                } else {
                    OdometryAction::Sample {
                        prev_l: self.prev_l,
                        prev_r: self.prev_r,
                        interval: SampleInterval::Measured { us },
                    }
                }
            },
        }
    }

    /// Takes in a sample.
    pub fn on_sample(&mut self, left: i32, right: i32, stamp: u64)
        ensures
            *final(self) == sampled(*old(self), left, right, stamp),
    {
        self.prev_l = left;
        self.prev_r = right;
        self.last_sample = stamp;
    }
}

/// A tick at time `now`, and what a sample taken on it finds: the counters, and when it was done.
pub struct CounterTick {
    pub now: u64,
    pub left: i32,
    pub right: i32,
    pub stamp: u64,
}

/// The task after a tick.
pub open spec fn after_tick(odometry: Odometry, tick: CounterTick) -> Odometry {
    if odometry_action(odometry, OdometryEvent::Tick { now: tick.now }) is Sample {
        sampled(odometry, tick.left, tick.right, tick.stamp)
    } else {
        odometry
    }
}

/// The task after a series of ticks.
pub open spec fn after_ticks(odometry: Odometry, ticks: Seq<CounterTick>) -> Odometry
    decreases ticks.len(),
{
    if ticks.len() == 0 {
        odometry
    } else {
        after_tick(after_ticks(odometry, ticks.drop_last()), ticks.last())
    }
}

/// The counts that the samples of a series of ticks measure in all, left and right.
pub open spec fn measured_counts(odometry: Odometry, ticks: Seq<CounterTick>) -> (int, int)
    decreases ticks.len(),
{
    if ticks.len() == 0 {
        (0, 0)
    } else {
        let (left, right) = measured_counts(odometry, ticks.drop_last());
        match odometry_action(
            after_ticks(odometry, ticks.drop_last()),
            OdometryEvent::Tick { now: ticks.last().now },
        ) {
            OdometryAction::Sample { prev_l, prev_r, .. } => (
                left + (ticks.last().left - prev_l),
                right + (ticks.last().right - prev_r),
            ),
            _ => (left, right),
        }
    }
}

/// No count is lost or measured twice, whichever ticks are skipped: the samples measure in all
/// what the counters have moved between the first and the last of them.
pub proof fn law_no_count_is_lost(odometry: Odometry, ticks: Seq<CounterTick>)
    ensures
        measured_counts(odometry, ticks).0 == after_ticks(odometry, ticks).prev_l - odometry.prev_l,
        measured_counts(odometry, ticks).1 == after_ticks(odometry, ticks).prev_r - odometry.prev_r,
    decreases ticks.len(),
{
    if ticks.len() > 0 {
        law_no_count_is_lost(odometry, ticks.drop_last());
    }
}

/// A skipped tick changes nothing, so that the next sample is taken over all the time since the
/// last one.
pub proof fn law_skipped_tick_changes_nothing(odometry: Odometry, tick: CounterTick)
    requires
        odometry.last_sample <= tick.now,
    ensures
        after_tick(odometry, tick) == odometry <== odometry_action(
            odometry,
            OdometryEvent::Tick { now: tick.now },
        ) == OdometryAction::Skip,
        odometry_action(odometry, OdometryEvent::Tick { now: tick.now }) == OdometryAction::Skip
            <==> 0 < tick.now - odometry.last_sample && too_soon(
            tick.now - odometry.last_sample,
            odometry.period_ms as int,
        ),
{
}

/// No sample is taken over less than half a period.
pub proof fn law_no_sample_over_a_short_interval(odometry: Odometry, now: u64, us: u64)
    requires
        odometry.last_sample <= now,
        odometry_action(odometry, OdometryEvent::Tick { now }) matches OdometryAction::Sample {
            interval,
            ..
        } && interval == (SampleInterval::Measured { us }),
    ensures
        us == now - odometry.last_sample,
        us > 0,
        2 * us >= 1000 * odometry.period_ms,
{
}

/// A sample is taken over the time since the last one whenever time has passed, and over the
/// nominal period exactly if none has; it is measured from where the counters stood at the last
/// one. A tick is skipped exactly if some time, but less than half a period, has passed.
pub proof fn law_interval_is_the_time_passed(odometry: Odometry, now: u64)
    requires
        odometry.last_sample <= now,
    ensures
        ({
            let passed = now - odometry.last_sample;
            let action = odometry_action(odometry, OdometryEvent::Tick { now });
            &&& action == OdometryAction::Skip <==> 0 < passed && 2 * passed < 1000
                * odometry.period_ms
            &&& action !is Skip ==> action is Sample
            &&& action matches OdometryAction::Sample { prev_l, prev_r, interval } ==> {
                &&& prev_l == odometry.prev_l
                &&& prev_r == odometry.prev_r
                &&& interval is Measured <==> now > odometry.last_sample
                &&& interval matches SampleInterval::Measured { us } ==> us == passed
                &&& interval matches SampleInterval::Nominal { period_ms } ==> period_ms
                    == odometry.period_ms
            }
        }),
{
}

/// The task exits when it is told to stop, and never on a tick.
pub proof fn law_odometry_exits_when_told(odometry: Odometry, event: OdometryEvent)
    ensures
        odometry_action(odometry, event) == OdometryAction::Exit <==> event == OdometryEvent::Stop,
{
}

/// A sample is what the next one is measured from, and does not change the period.
pub proof fn law_sample_is_the_new_start(odometry: Odometry, left: i32, right: i32, stamp: u64)
    ensures
        sampled(odometry, left, right, stamp).prev_l == left,
        sampled(odometry, left, right, stamp).prev_r == right,
        sampled(odometry, left, right, stamp).last_sample == stamp,
        sampled(odometry, left, right, stamp).period_ms == odometry.period_ms,
{
}

/// The ticks come one after the other, each sample done before the next tick, all after `since`.
pub open spec fn in_order(since: u64, ticks: Seq<CounterTick>) -> bool
    decreases ticks.len(),
{
    ticks.len() > 0 ==> {
        let before = ticks.drop_last();
        &&& in_order(since, before)
        &&& since <= ticks.last().now <= ticks.last().stamp
        &&& before.len() > 0 ==> before.last().stamp <= ticks.last().now
    }
}

/// The time that the samples of a series of ticks measure in all, and the time that taking them
/// takes.
pub open spec fn measured_time(odometry: Odometry, ticks: Seq<CounterTick>) -> (int, int)
    decreases ticks.len(),
{
    if ticks.len() == 0 {
        (0, 0)
    } else {
        let (measured, taking) = measured_time(odometry, ticks.drop_last());
        match odometry_action(
            after_ticks(odometry, ticks.drop_last()),
            OdometryEvent::Tick { now: ticks.last().now },
        ) {
            OdometryAction::Sample { interval: SampleInterval::Measured { us }, .. } => (
                measured + us,
                taking + (ticks.last().stamp - ticks.last().now),
            ),
            OdometryAction::Sample { .. } => (
                measured,
                taking + (ticks.last().stamp - ticks.last().now),
            ),
            _ => (measured, taking),
        }
    }
}

proof fn lemma_last_sample_is_past(odometry: Odometry, ticks: Seq<CounterTick>)
    requires
        in_order(odometry.last_sample, ticks),
    ensures
        after_ticks(odometry, ticks).last_sample <= if ticks.len() > 0 {
            ticks.last().stamp
        } else {
            odometry.last_sample
        },
    decreases ticks.len(),
{
    if ticks.len() > 0 {
        lemma_last_sample_is_past(odometry, ticks.drop_last());
    }
}

/// No time is lost or measured twice, whichever ticks are skipped: what the samples measure,
/// together with the time that taking them takes, is the time from the first to the last.
pub proof fn law_no_time_is_lost(odometry: Odometry, ticks: Seq<CounterTick>)
    requires
        in_order(odometry.last_sample, ticks),
    ensures
        measured_time(odometry, ticks).0 + measured_time(odometry, ticks).1 == after_ticks(
            odometry,
            ticks,
        ).last_sample - odometry.last_sample,
    decreases ticks.len(),
{
    if ticks.len() > 0 {
        let before = ticks.drop_last();
        law_no_time_is_lost(odometry, before);
        lemma_last_sample_is_past(odometry, before);
    }
}

} // verus!
