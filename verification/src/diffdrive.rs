//! Driving a circle, with or without motion capture.

use vstd::prelude::*;

use crate::clock::millis_between;
use crate::robotstate::{is_zero_word, word_is_zero, RobotPose};

verus! {

/// How long poses are waited for before the circle starts, in milliseconds.
pub const SETTLE_MS: u64 = 1000;

/// How long a circle takes, in milliseconds.
pub const CIRCLE_MS: u64 = 8000;

/// A pose was received: position and heading are not all zero.
pub open spec fn pose_known(pose: RobotPose) -> bool {
    !(is_zero_word(pose.x) && is_zero_word(pose.y) && is_zero_word(pose.yaw))
}

/// Whether a pose was received.
pub fn pose_is_known(pose: RobotPose) -> (known: bool)
    ensures
        known == pose_known(pose),
{
    !(word_is_zero(pose.x) && word_is_zero(pose.y) && word_is_zero(pose.yaw))
}

/// How new poses come to the task.
#[derive(Clone, Copy, Debug, PartialEq, Eq, Structural)]
pub enum PoseSource {
    /// The task is woken by a pose or by its tick, whichever comes first.
    Awaited,
    /// The task reads the latest pose on every tick.
    Polled,
}

/// What happened to the task.
#[derive(Clone, Copy, Debug, PartialEq, Eq, Structural)]
pub enum CircleEvent {
    /// A pose came.
    Pose(RobotPose),
    /// The tick came before a pose.
    Tick,
}

/// One step of driving the circle.
#[derive(Clone, Copy, Debug, PartialEq, Eq, Structural)]
pub enum CircleOp {
    /// Follow the setpoint at this time with the controller.
    Control { t_ms: u64 },
    /// Drive with the speeds of the circle alone.
    DriveBlind { t_ms: u64 },
    LedOn,
    LedOff,
    /// Log the state at this time.
    Log { t_ms: u64 },
    FlushLog,
    SetMotors,
    StopMotors,
}

/// What the task waits for.
#[derive(Clone, Copy, Debug, PartialEq, Eq, Structural)]
pub enum CircleAction {
    /// A pose or a tick, whichever comes first.
    AwaitPoseOrTick,
    /// A tick, and then the latest pose.
    PollPose,
    Exit,
}

/// What an iteration of the task comes to.
#[derive(Debug, PartialEq, Eq)]
pub struct CircleStep {
    pub ops: Vec<CircleOp>,
    pub action: CircleAction,
}

/// Driving a circle.
#[derive(Clone, Copy, Debug, PartialEq, Eq, Structural)]
pub struct CircleRun {
    pub source: PoseSource,
    /// Where the circle starts.
    pub initial: RobotPose,
    /// Where the robot was last known to be.
    pub robot: RobotPose,
    /// Whether that is known from motion capture at present.
    pub mocap: bool,
    pub start: u64,
}

/// Time since the start in milliseconds.
pub open spec fn circle_time(run: CircleRun, now: u64) -> int {
    (now - run.start) / 1000
}

/// Whether the circle is complete.
pub open spec fn circle_done(source: PoseSource, t_ms: int) -> bool {
    match source {
        PoseSource::Awaited => t_ms > CIRCLE_MS,
        PoseSource::Polled => t_ms >= CIRCLE_MS,
    }
}

/// The steps of an iteration: with motion capture the controller drives and the LED is on,
/// without it the robot drives blind; with a logger the state is logged and flushed; at the end of
/// the circle the motors stop.
pub open spec fn circle_ops(mocap: bool, t_ms: u64, done: bool, has_logger: bool) -> Seq<
    CircleOp,
> {
    (if mocap {
        seq![CircleOp::Control { t_ms }, CircleOp::LedOn]
    } else {
        seq![CircleOp::DriveBlind { t_ms }, CircleOp::LedOff]
    }) + (if has_logger {
        seq![CircleOp::Log { t_ms }, CircleOp::FlushLog]
    } else {
        seq![]
    }) + seq![CircleOp::SetMotors] + (if done {
        seq![CircleOp::StopMotors]
    } else {
        seq![]
    })
}

/// The run after a pose or a tick. A pose that is polled may be one that was never received; the
/// last known one then stays.
pub open spec fn circle_after(run: CircleRun, event: CircleEvent) -> CircleRun {
    match (run.source, event) {
        (PoseSource::Awaited, CircleEvent::Pose(pose)) => CircleRun {
            robot: pose,
            mocap: true,
            ..run
        },
        (PoseSource::Polled, CircleEvent::Pose(pose)) => CircleRun {
            robot: if pose_known(pose) {
                pose
            } else {
                run.robot
            },
            mocap: pose_known(pose),
            ..run
        },
        (_, CircleEvent::Tick) => CircleRun { mocap: false, ..run },
    }
}

/// What the task waits for after an iteration.
pub open spec fn circle_action(source: PoseSource, done: bool) -> CircleAction {
    if done {
        CircleAction::Exit
    } else if source == PoseSource::Awaited {
        CircleAction::AwaitPoseOrTick
    } else {
        CircleAction::PollPose
    }
}

/// Whether the tick is still to be waited for after an event.
pub open spec fn waits_for_tick(source: PoseSource, event: CircleEvent) -> bool {
    source == PoseSource::Awaited && event is Pose
}

impl CircleRun {
    /// A circle that starts at `pose`, at time `start`.
    pub fn new(source: PoseSource, pose: RobotPose, start: u64) -> (run: Self)
        ensures
            run == (CircleRun {
                source,
                initial: pose,
                robot: pose,
                mocap: pose_known(pose),
                start,
            }),
    {
        CircleRun { source, initial: pose, robot: pose, mocap: pose_is_known(pose), start }
    }

    /// What the task waits for before its first iteration: a polled pose comes before it, an
    /// awaited one after it.
    pub fn first_action(&self) -> (action: Option<CircleAction>)
        ensures
            action == match self.source {
                PoseSource::Awaited => None,
                PoseSource::Polled => Some(CircleAction::PollPose),
            },
    {
        match self.source {
            PoseSource::Awaited => None,
            PoseSource::Polled => Some(CircleAction::PollPose),
        }
    }

    /// Takes in a pose or a tick. The result says whether to wait for the tick as well: a pose
    /// that was awaited does not end the tick it came in.
    pub fn on_event(&mut self, event: CircleEvent) -> (wait_tick: bool)
        requires
            old(self).source == PoseSource::Polled ==> event is Pose,
        ensures
            *final(self) == circle_after(*old(self), event),
            wait_tick == waits_for_tick(old(self).source, event),
    {
        match event {
            CircleEvent::Pose(pose) => {
                if matches!(self.source, PoseSource::Awaited) {
                    self.robot = pose;
                    self.mocap = true;
                    true
                } else {
                    self.mocap = pose_is_known(pose);
                    if self.mocap {
                        self.robot = pose;
                    }
                    false
                }
            },
            CircleEvent::Tick => {
                self.mocap = false;
                false
            },
        }
    }

    /// One iteration at time `now`, with or without a logger.
    pub fn drive(&self, now: u64, has_logger: bool) -> (step: CircleStep)
        requires
            self.start <= now,
        ensures
            ({
                let t_ms = circle_time(*self, now);
                let done = circle_done(self.source, t_ms);
                &&& step.ops@ == circle_ops(self.mocap, t_ms as u64, done, has_logger)
                &&& step.action == circle_action(self.source, done)
            }),
    {
        let t_ms: u64 = millis_between(self.start, now);
        let awaited = matches!(self.source, PoseSource::Awaited);
        let done = if awaited {
            t_ms > CIRCLE_MS
        } else {
            t_ms >= CIRCLE_MS
        };
        let mut ops = if self.mocap {
            vec![CircleOp::Control { t_ms }, CircleOp::LedOn]
        } else {
            vec![CircleOp::DriveBlind { t_ms }, CircleOp::LedOff]
        };
        if has_logger {
            ops.push(CircleOp::Log { t_ms });
            ops.push(CircleOp::FlushLog);
        }
        ops.push(CircleOp::SetMotors);
        if done {
            ops.push(CircleOp::StopMotors);
        }
        let action = if done {
            CircleAction::Exit
        } else if awaited {
            CircleAction::AwaitPoseOrTick
        } else {
            CircleAction::PollPose
        };
        CircleStep { ops, action }
    }
}

/// The motors are stopped last, and exactly when the circle is complete.
pub proof fn law_circle_ends_with_motors_stopped(
    mocap: bool,
    t_ms: u64,
    done: bool,
    has_logger: bool,
)
    ensures
        circle_ops(mocap, t_ms, done, has_logger).contains(CircleOp::StopMotors) <==> done,
        circle_ops(mocap, t_ms, done, has_logger).last() == if done {
            CircleOp::StopMotors
        } else {
            CircleOp::SetMotors
        },
{
    let ops = circle_ops(mocap, t_ms, done, has_logger);
    if done {
        assert(ops[ops.len() - 1] == CircleOp::StopMotors);
    }
}

/// An iteration logs exactly one snapshot if there is a logger, and flushes it right after;
/// without a logger it logs and flushes nothing.
pub proof fn law_snapshot_is_logged_and_flushed(
    mocap: bool,
    t_ms: u64,
    done: bool,
    has_logger: bool,
    i: int,
)
    requires
        0 <= i < circle_ops(mocap, t_ms, done, has_logger).len(),
    ensures
        ({
            let ops = circle_ops(mocap, t_ms, done, has_logger);
            &&& ops[i] is Log <==> has_logger && i == 2
            &&& ops[i] == CircleOp::FlushLog <==> has_logger && i == 3
            &&& has_logger ==> ops.len() > 3 && ops[2] == (CircleOp::Log { t_ms })
        }),
{
}

/// Without motion capture the last known pose stays, and a new one is taken over only if it was
/// received. The start of the circle never changes.
pub proof fn law_last_known_pose_stays(run: CircleRun, event: CircleEvent)
    requires
        run.source == PoseSource::Polled ==> event is Pose,
    ensures
        ({
            let after = circle_after(run, event);
            &&& after.initial == run.initial
            &&& after.start == run.start
            &&& !after.mocap ==> after.robot == run.robot
            &&& after.mocap ==> event == CircleEvent::Pose(after.robot)
        }),
{
}

/// A circle that has lasted eight seconds is over at the next millisecond at the latest.
pub proof fn law_circle_is_over_after_eight_seconds(run: CircleRun, now: u64)
    requires
        run.start <= now,
    ensures
        now - run.start >= 8_001_000 ==> circle_done(run.source, circle_time(run, now)),
        now - run.start < 8_000_000 ==> !circle_done(run.source, circle_time(run, now)),
{
}

/// A pose counts as received exactly if position or heading holds a number that is not zero; zero
/// is all bits clear, but for the sign.
pub proof fn law_pose_at_the_origin_is_none(pose: RobotPose)
    ensures
        pose_known(pose) <==> {
            ||| pose.x != 0 && pose.x != 0x8000_0000
            ||| pose.y != 0 && pose.y != 0x8000_0000
            ||| pose.yaw != 0 && pose.yaw != 0x8000_0000
        },
{
}

/// The controller drives, at the time of the iteration, exactly if the robot is seen by motion
/// capture, and the LED shows that; otherwise the robot drives blind at that time. Either way the
/// motors are set, after that.
pub proof fn law_blind_without_motion_capture(
    mocap: bool,
    t_ms: u64,
    done: bool,
    has_logger: bool,
    t: u64,
)
    ensures
        ({
            let ops = circle_ops(mocap, t_ms, done, has_logger);
            &&& ops.contains(CircleOp::Control { t_ms: t }) <==> mocap && t == t_ms
            &&& ops.contains(CircleOp::DriveBlind { t_ms: t }) <==> !mocap && t == t_ms
            &&& ops.contains(CircleOp::LedOn) <==> mocap
            &&& ops.contains(CircleOp::LedOff) <==> !mocap
            &&& ops[0] is Control || ops[0] is DriveBlind
            &&& ops.skip(1).contains(CircleOp::SetMotors)
        }),
{
    let ops = circle_ops(mocap, t_ms, done, has_logger);
    let motors: int = if has_logger {
        4
    } else {
        2
    };
    assert(ops[0] == if mocap {
        CircleOp::Control { t_ms }
    } else {
        CircleOp::DriveBlind { t_ms }
    });
    assert(ops[1] == if mocap {
        CircleOp::LedOn
    } else {
        CircleOp::LedOff
    });
    assert(ops[motors] == CircleOp::SetMotors);
    assert(ops.skip(1)[motors - 1] == CircleOp::SetMotors);
}

/// The time of an iteration is the number of whole milliseconds since the start. The circle is
/// over as soon as eight seconds have passed, where the pose is polled; where it is awaited, a
/// millisecond later.
pub proof fn law_time_on_the_circle(run: CircleRun, now: u64)
    requires
        run.start <= now,
    ensures
        ({
            let t_ms = circle_time(run, now);
            &&& t_ms * 1000 <= now - run.start < t_ms * 1000 + 1000
            &&& circle_done(run.source, t_ms) <==> now - run.start >= match run.source {
                PoseSource::Awaited => 8_001_000int,
                PoseSource::Polled => 8_000_000int,
            }
        }),
{
}

/// An awaited pose is trusted whatever it is, a polled one exactly if it was received, and a tick
/// without a pose means that the robot is not seen.
pub proof fn law_poses_are_taken_over(run: CircleRun, event: CircleEvent)
    requires
        run.source == PoseSource::Polled ==> event is Pose,
    ensures
        ({
            let after = circle_after(run, event);
            &&& after.source == run.source
            &&& after.mocap <==> match event {
                CircleEvent::Pose(pose) => run.source == PoseSource::Awaited || pose_known(pose),
                CircleEvent::Tick => false,
            }
            &&& after.robot == match event {
                CircleEvent::Pose(pose) if after.mocap => pose,
                _ => run.robot,
            }
        }),
{
}

/// The task exits exactly at the end of the circle, and goes on waiting for poses in its own way
/// until then; between two iterations exactly one tick passes, so a pose that comes before the
/// tick does not make the next iteration come early.
pub proof fn law_one_iteration_per_tick(source: PoseSource, done: bool, event: CircleEvent)
    requires
        source == PoseSource::Polled ==> event is Pose,
    ensures
        ({
            let action = circle_action(source, done);
            let ticks_in_action = if action == CircleAction::PollPose || event is Tick {
                1int
            } else {
                0int
            };
            let ticks_after = if waits_for_tick(source, event) {
                1int
            } else {
                0int
            };
            &&& action == CircleAction::Exit <==> done
            &&& action == CircleAction::PollPose ==> source == PoseSource::Polled
            &&& action == CircleAction::AwaitPoseOrTick ==> source == PoseSource::Awaited
            &&& !done ==> ticks_in_action + ticks_after == 1
        }),
{
}

} // verus!
