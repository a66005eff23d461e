//! Where the estimator starts: at the motion capture pose if one comes in time, else at the start
//! of the loaded trajectory, else at the origin.

use vstd::prelude::*;

use crate::robotstate::EkfInitMsg;

verus! {

/// How long a motion capture pose is waited for, in milliseconds.
pub const MOCAP_WAIT_MS: u64 = 300;

/// What happened on the way to a start pose.
#[derive(Clone, Copy, Debug, PartialEq, Eq, Structural)]
pub enum InitEvent {
    Begin,
    /// A motion capture pose came in time.
    Mocap(EkfInitMsg),
    /// None came.
    TimedOut,
    /// Where the loaded trajectory starts, if one is loaded.
    TrajectoryStart(Option<EkfInitMsg>),
}

/// What finding a start pose asks for.
#[derive(Clone, Copy, Debug, PartialEq, Eq, Structural)]
pub enum InitAction {
    AwaitMocap { timeout_ms: u64 },
    AskTrajectoryStart,
    StartAt(EkfInitMsg),
}

/// The origin: three numbers zero.
pub open spec fn origin() -> EkfInitMsg {
    EkfInitMsg { x: 0, y: 0, yaw: 0 }
}

/// The sources are asked in order, the next one only if the one before has nothing.
pub open spec fn init_action(event: InitEvent) -> InitAction {
    match event {
        InitEvent::Begin => InitAction::AwaitMocap { timeout_ms: MOCAP_WAIT_MS },
        InitEvent::Mocap(pose) => InitAction::StartAt(pose),
        InitEvent::TimedOut => InitAction::AskTrajectoryStart,
        InitEvent::TrajectoryStart(Some(pose)) => InitAction::StartAt(pose),
        InitEvent::TrajectoryStart(None) => InitAction::StartAt(origin()),
    }
}

/// What finding a start pose does next.
pub fn next_init_action(event: InitEvent) -> (action: InitAction)
    ensures
        action == init_action(event),
{
    match event {
        InitEvent::Begin => InitAction::AwaitMocap { timeout_ms: MOCAP_WAIT_MS },
        InitEvent::Mocap(pose) => InitAction::StartAt(pose),
        InitEvent::TimedOut => InitAction::AskTrajectoryStart,
        InitEvent::TrajectoryStart(Some(pose)) => InitAction::StartAt(pose),
        InitEvent::TrajectoryStart(None) => InitAction::StartAt(EkfInitMsg { x: 0, y: 0, yaw: 0 }),
    }
}

/// Answers a question: `mocap` is the pose that comes in time, `trajectory` the start of the
/// loaded trajectory.
pub open spec fn init_answer(
    action: InitAction,
    mocap: Option<EkfInitMsg>,
    trajectory: Option<EkfInitMsg>,
) -> InitEvent {
    match action {
        InitAction::AwaitMocap { .. } => match mocap {
            Some(pose) => InitEvent::Mocap(pose),
            None => InitEvent::TimedOut,
        },
        _ => InitEvent::TrajectoryStart(trajectory),
    }
}

/// A motion capture pose goes before the start of a trajectory, and that before the origin; a
/// start pose is found after two questions at most.
pub proof fn law_start_pose(mocap: Option<EkfInitMsg>, trajectory: Option<EkfInitMsg>)
    ensures
        ({
            let first = init_action(init_answer(init_action(InitEvent::Begin), mocap, trajectory));
            let second = init_action(init_answer(first, mocap, trajectory));
            match mocap {
                Some(pose) => first == InitAction::StartAt(pose),
                None => first == InitAction::AskTrajectoryStart && second == InitAction::StartAt(
                    match trajectory {
                        Some(pose) => pose,
                        None => origin(),
                    },
                ),
            }
        }),
{
}

/// A pose that is found is used as it is, whichever source it comes from, and without any the
/// robot is taken to be at the origin, heading along the first axis. The first source is given
/// three tenths of a second.
pub proof fn law_found_pose_is_used(pose: EkfInitMsg)
    ensures
        init_action(InitEvent::Mocap(pose)) == InitAction::StartAt(pose),
        init_action(InitEvent::TrajectoryStart(Some(pose))) == InitAction::StartAt(pose),
        init_action(InitEvent::TrajectoryStart(None)) matches InitAction::StartAt(start) && {
            &&& start.x == 0
            &&& start.y == 0
            &&& start.yaw == 0
        },
        init_action(InitEvent::Begin) matches InitAction::AwaitMocap { timeout_ms } && timeout_ms
            * 10 == 3 * 1000,
        init_action(InitEvent::TimedOut) == InitAction::AskTrajectoryStart,
{
}

} // verus!
