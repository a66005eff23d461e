use pololu3pi2040_rs::clock::{micros_between, millis_between};
use pololu3pi2040_rs::diffdrive::{
    pose_is_known, CircleAction, CircleEvent, CircleOp, CircleRun, PoseSource, CIRCLE_MS, SETTLE_MS,
};
use pololu3pi2040_rs::odometry::{Odometry, OdometryAction, OdometryEvent, SampleInterval};
use pololu3pi2040_rs::robotstate::{word_is_zero, RobotPose};
use pololu3pi2040_rs::trajectory_control::{
    begin_run, OuterAction, OuterEffect, OuterEvent, OuterPhase, OuterTask, Reference, RunAction,
    RunEffect, RunEvent, RunPhase, TrajectoryResult, TrajectoryRun,
};

fn rest() -> Vec<RunEffect> {
    vec![RunEffect::ZeroWheels, RunEffect::SetLogging(false), RunEffect::ResetGainScales]
}

fn pose(x: f32, y: f32, yaw: f32) -> RobotPose {
    RobotPose { x: x.to_bits(), y: y.to_bits(), z: 0, roll: 0, pitch: 0, yaw: yaw.to_bits() }
}

#[test]
fn ticks_are_microseconds() {
    assert_eq!(millis_between(5_000, 1_004_999), 999);
    assert_eq!(millis_between(0, 999), 0);
    assert_eq!(micros_between(10, 250), 240);
    assert_eq!(millis_between(0, u64::MAX), u64::MAX / 1000);
}

#[test]
fn only_the_two_zeros_compare_equal_to_zero() {
    assert!(word_is_zero(0.0f32.to_bits()));
    assert!(word_is_zero((-0.0f32).to_bits()));
    for number in [1.0f32, -1.0, f32::MIN_POSITIVE, f32::NAN, f32::INFINITY] {
        assert_eq!(word_is_zero(number.to_bits()), number == 0.0);
    }
    assert!(!word_is_zero(1));
}

#[test]
fn a_run_opens_a_log_only_if_none_is_open() {
    let common = vec![RunEffect::SetLogging(true), RunEffect::StartEstimator, RunEffect::ResetGainScales];
    let mut opening = vec![RunEffect::OpenLog];
    opening.extend(common.clone());
    assert_eq!(begin_run(Some(false)), opening);
    assert_eq!(begin_run(Some(true)), common);
    assert_eq!(begin_run(None), common);
}

/// Takes a run through one control step at time `now`.
fn control_step(run: &mut TrajectoryRun, now: u64, fresh: bool, end: bool) -> (Vec<RunEffect>, RunAction) {
    assert_eq!(run.step(RunEvent::Tick).action, RunAction::AskStopAll);
    let predict = run.step(RunEvent::StopAll(false));
    assert_eq!(predict.effects, vec![RunEffect::Predict]);
    assert_eq!(predict.action, RunAction::AskPoseFresh);
    let estimate = run.step(RunEvent::PoseFresh(fresh));
    assert_eq!(estimate.action, RunAction::AskClock);
    let mut expected = vec![RunEffect::PublishEstimate];
    if fresh {
        expected.insert(0, RunEffect::Correct);
    }
    assert_eq!(estimate.effects, expected);
    let track = run.step(RunEvent::Clock { now });
    assert!(matches!(track.action, RunAction::AskAtEnd { .. }));
    let last = run.step(RunEvent::AtEnd(end));
    let mut effects = track.effects;
    effects.extend(last.effects);
    (effects, last.action)
}

#[test]
fn a_control_step_estimates_tracks_and_publishes() {
    let mut run = TrajectoryRun::new(1_000_000, false);
    let (effects, action) = control_step(&mut run, 1_250_500, true, false);
    assert_eq!(
        effects,
        vec![
            RunEffect::FindSetpoint { t_ms: 250 },
            RunEffect::PublishSetpoint,
            RunEffect::Track,
            RunEffect::PublishWheelCommand,
            RunEffect::PublishTrackingError,
        ]
    );
    assert_eq!(action, RunAction::AwaitTick);
    assert_eq!(run.phase, RunPhase::Ready);
}

#[test]
fn a_gain_network_scales_the_gains_before_tracking() {
    let mut run = TrajectoryRun::new(0, true);
    let (effects, _) = control_step(&mut run, 20_000, false, false);
    assert_eq!(effects[..4].to_vec(), vec![
        RunEffect::FindSetpoint { t_ms: 20 },
        RunEffect::PublishSetpoint,
        RunEffect::ScaleGains,
        RunEffect::Track,
    ]);
}

#[test]
fn a_run_completes_at_the_end_of_the_trajectory() {
    let mut run = TrajectoryRun::new(0, false);
    let (effects, action) = control_step(&mut run, 8_000_000, false, true);
    assert_eq!(effects[5..].to_vec(), rest());
    assert_eq!(action, RunAction::Return(TrajectoryResult::Completed));
    assert_eq!(run.phase, RunPhase::Ended);
}

#[test]
fn a_stop_command_ends_a_run_and_a_start_command_does_not() {
    let mut run = TrajectoryRun::new(0, false);
    let go = run.step(RunEvent::Command { run: true });
    assert!(go.effects.is_empty());
    assert_eq!(go.action, RunAction::AskStopAll);
    let mut run = TrajectoryRun::new(0, false);
    let stop = run.step(RunEvent::Command { run: false });
    assert_eq!(stop.effects, rest());
    assert_eq!(stop.action, RunAction::Return(TrajectoryResult::Stopped));
}

#[test]
fn stopping_everything_ends_a_run() {
    let mut run = TrajectoryRun::new(0, false);
    run.step(RunEvent::Tick);
    let stop = run.step(RunEvent::StopAll(true));
    let mut expected = rest();
    expected.push(RunEffect::SetLogging(false));
    assert_eq!(stop.effects, expected);
    assert_eq!(stop.action, RunAction::Return(TrajectoryResult::Stopped));
}

#[test]
fn a_pause_takes_no_time() {
    let mut run = TrajectoryRun::new(1_000_000, false);
    let pause = run.step(RunEvent::Pause);
    let mut expected = vec![RunEffect::ClearWheelCommands];
    expected.extend(rest());
    assert_eq!(pause.effects, expected);
    assert_eq!(pause.action, RunAction::AskPauseStart);
    assert_eq!(run.step(RunEvent::PausedAt { now: 3_000_000 }).action, RunAction::AwaitResume);
    let resume = run.step(RunEvent::Resumed { now: 10_000_000 });
    assert_eq!(resume.effects, vec![RunEffect::SetLogging(true)]);
    assert_eq!(resume.action, RunAction::AwaitTick);
    assert_eq!(run.pause_offset, 7_000_000);
    let (effects, _) = control_step(&mut run, 10_500_000, false, false);
    assert_eq!(effects[0], RunEffect::FindSetpoint { t_ms: 2_500 });
}

#[test]
fn any_command_ends_a_paused_run() {
    for command in [true, false] {
        let mut run = TrajectoryRun::new(0, false);
        run.step(RunEvent::Pause);
        run.step(RunEvent::PausedAt { now: 5 });
        let step = run.step(RunEvent::Command { run: command });
        assert_eq!(step.effects, rest());
        assert_eq!(step.action, RunAction::Return(TrajectoryResult::Stopped));
    }
}

#[test]
fn outer_tasks_start_on_command() {
    for reference in [Reference::Figure8, Reference::Spin] {
        let mut task = OuterTask::new(reference);
        assert_eq!(task.step(OuterEvent::Command { run: false }).action, OuterAction::AwaitCommand);
        assert_eq!(task.step(OuterEvent::Command { run: true }).action, OuterAction::Run(reference));
        assert_eq!(task.phase, OuterPhase::Running);
    }
}

#[test]
fn a_trajectory_from_the_card_must_be_loaded() {
    let mut task = OuterTask::new(Reference::SdCard);
    assert_eq!(task.step(OuterEvent::Command { run: true }).action, OuterAction::LookUpTrajectory);
    assert_eq!(task.step(OuterEvent::Loaded(false)).action, OuterAction::AwaitCommand);
    task.step(OuterEvent::Command { run: true });
    assert_eq!(task.step(OuterEvent::Loaded(true)).action, OuterAction::Run(Reference::SdCard));
}

#[test]
fn outer_tasks_clean_up_after_a_run() {
    for result in [TrajectoryResult::Completed, TrajectoryResult::Stopped] {
        let mut task = OuterTask::new(Reference::Spin);
        task.step(OuterEvent::Command { run: true });
        let ended = task.step(OuterEvent::RunEnded(result));
        assert_eq!(ended.effects, vec![
            OuterEffect::LedOff,
            OuterEffect::ForgetResume,
            OuterEffect::ForgetPause,
            OuterEffect::CloseLog,
        ]);
        assert_eq!(ended.action, OuterAction::AwaitCommand);
    }
}

#[test]
fn outer_tasks_exit_when_told_to() {
    let mut idle = OuterTask::new(Reference::SdCard);
    let exit = idle.step(OuterEvent::Stop);
    assert!(exit.effects.is_empty());
    assert_eq!(exit.action, OuterAction::Exit);
    let mut running = OuterTask { reference: Reference::SdCard, phase: OuterPhase::Running };
    let exit = running.step(OuterEvent::Stop);
    assert_eq!(exit.effects, vec![OuterEffect::LedOff, OuterEffect::CloseLog]);
    assert_eq!(exit.action, OuterAction::Exit);
}

#[test]
fn odometry_skips_ticks_that_come_too_soon() {
    let odometry = Odometry::new(100, 200, 1_000_000, 10);
    let nominal = OdometryAction::Sample {
        prev_l: 100,
        prev_r: 200,
        interval: SampleInterval::Nominal { period_ms: 10 },
    };
    assert_eq!(odometry.action(OdometryEvent::Tick { now: 1_000_000 }), nominal);
    assert_eq!(odometry.action(OdometryEvent::Tick { now: 1_000_001 }), OdometryAction::Skip);
    assert_eq!(odometry.action(OdometryEvent::Tick { now: 1_004_999 }), OdometryAction::Skip);
    let sample = OdometryAction::Sample {
        prev_l: 100,
        prev_r: 200,
        interval: SampleInterval::Measured { us: 5_000 },
    };
    assert_eq!(odometry.action(OdometryEvent::Tick { now: 1_005_000 }), sample);
    assert_eq!(odometry.action(OdometryEvent::Stop), OdometryAction::Exit);
}

#[test]
fn odometry_skips_what_the_float_comparison_skips() {
    for period_ms in [1u64, 3, 7, 10, 20, 50, 1000, 16_777] {
        let minimum = period_ms as f32 / 1000.0 * 0.5;
        let odometry = Odometry::new(0, 0, 0, period_ms);
        let half = 500 * period_ms;
        for us in [1, half / 2 + 1, half - 1, half, half + 1, 2 * half, 40 * half] {
            let dt = us as f32 / 1_000_000.0;
            let skipped = odometry.action(OdometryEvent::Tick { now: us }) == OdometryAction::Skip;
            assert_eq!(skipped, dt < minimum);
        }
    }
}

#[test]
fn odometry_loses_no_counts() {
    let mut odometry = Odometry::new(10, -10, 0, 10);
    let mut measured = (0, 0);
    let ticks = [(10_000, 14, -12), (10_200, 15, -13), (20_000, 20, -20), (20_001, 21, -20), (31_000, 30, -33)];
    let mut samples = 0;
    for (now, left, right) in ticks {
        if let OdometryAction::Sample { prev_l, prev_r, .. } = odometry.action(OdometryEvent::Tick { now }) {
            measured = (measured.0 + left - prev_l, measured.1 + right - prev_r);
            odometry.on_sample(left, right, now);
            samples += 1;
        }
    }
    assert_eq!(samples, 3);
    assert_eq!(measured, (20, -23));
    assert_eq!((odometry.prev_l, odometry.prev_r, odometry.last_sample), (30, -33, 31_000));
}

#[test]
fn a_pose_at_the_origin_counts_as_none() {
    assert!(!pose_is_known(pose(0.0, -0.0, 0.0)));
    assert!(pose_is_known(pose(0.1, 0.0, 0.0)));
    assert!(pose_is_known(pose(0.0, -2.0, 0.0)));
    assert!(pose_is_known(pose(0.0, 0.0, 1.0)));
    let mut high = pose(0.0, 0.0, 0.0);
    high.z = 1.0f32.to_bits();
    assert!(!pose_is_known(high));
}

#[test]
fn a_circle_is_driven_with_or_without_motion_capture() {
    assert_eq!((SETTLE_MS, CIRCLE_MS), (1000, 8000));
    let known = CircleRun::new(PoseSource::Awaited, pose(1.0, 2.0, 3.0), 500);
    assert_eq!(known.drive(1_500, true).ops, vec![
        CircleOp::Control { t_ms: 1 },
        CircleOp::LedOn,
        CircleOp::Log { t_ms: 1 },
        CircleOp::FlushLog,
        CircleOp::SetMotors,
    ]);
    let blind = CircleRun::new(PoseSource::Polled, pose(0.0, 0.0, 0.0), 500);
    assert_eq!(blind.drive(2_500, true).ops, vec![
        CircleOp::DriveBlind { t_ms: 2 },
        CircleOp::LedOff,
        CircleOp::Log { t_ms: 2 },
        CircleOp::FlushLog,
        CircleOp::SetMotors,
    ]);
}

#[test]
fn a_circle_without_a_logger_logs_nothing() {
    for source in [PoseSource::Awaited, PoseSource::Polled] {
        let run = CircleRun::new(source, pose(1.0, 0.0, 0.0), 0);
        assert_eq!(run.drive(3_000, false).ops, vec![
            CircleOp::Control { t_ms: 3 },
            CircleOp::LedOn,
            CircleOp::SetMotors,
        ]);
        assert_eq!(run.drive(9_000_000, false).ops, vec![
            CircleOp::Control { t_ms: 9_000 },
            CircleOp::LedOn,
            CircleOp::SetMotors,
            CircleOp::StopMotors,
        ]);
    }
}

#[test]
fn a_polled_pose_comes_before_the_first_iteration() {
    let awaited = CircleRun::new(PoseSource::Awaited, pose(0.0, 0.0, 0.0), 0);
    assert_eq!(awaited.first_action(), None);
    let polled = CircleRun::new(PoseSource::Polled, pose(0.0, 0.0, 0.0), 0);
    assert_eq!(polled.first_action(), Some(CircleAction::PollPose));
}

#[test]
fn an_awaited_pose_is_taken_and_a_tick_drives_blind() {
    let mut run = CircleRun::new(PoseSource::Awaited, pose(0.0, 0.0, 0.0), 0);
    assert!(!run.mocap);
    assert!(run.on_event(CircleEvent::Pose(pose(1.0, 0.0, 0.0))));
    assert!(run.mocap);
    assert!(!run.on_event(CircleEvent::Tick));
    assert!(!run.mocap);
    assert_eq!(run.robot, pose(1.0, 0.0, 0.0));
    assert_eq!(run.initial, pose(0.0, 0.0, 0.0));
    assert!(run.on_event(CircleEvent::Pose(pose(0.0, 0.0, 0.0))));
    assert!(run.mocap);
}

#[test]
fn a_polled_pose_is_taken_only_if_it_was_received() {
    let mut run = CircleRun::new(PoseSource::Polled, pose(1.0, 1.0, 1.0), 0);
    assert!(!run.on_event(CircleEvent::Pose(pose(0.0, 0.0, 0.0))));
    assert!(!run.mocap);
    assert_eq!(run.robot, pose(1.0, 1.0, 1.0));
    assert!(!run.on_event(CircleEvent::Pose(pose(2.0, 0.0, 0.0))));
    assert!(run.mocap);
    assert_eq!(run.robot, pose(2.0, 0.0, 0.0));
}

#[test]
fn a_circle_ends_with_the_motors_stopped() {
    let awaited = CircleRun::new(PoseSource::Awaited, pose(0.0, 0.0, 0.0), 0);
    assert_eq!(awaited.drive(8_000_999, true).action, CircleAction::AwaitPoseOrTick);
    let last = awaited.drive(8_001_000, true);
    assert_eq!(last.action, CircleAction::Exit);
    assert_eq!(last.ops[4..].to_vec(), vec![CircleOp::SetMotors, CircleOp::StopMotors]);
    let polled = CircleRun::new(PoseSource::Polled, pose(0.0, 0.0, 0.0), 0);
    assert_eq!(polled.drive(7_999_999, false).action, CircleAction::PollPose);
    assert_eq!(polled.drive(8_000_000, false).action, CircleAction::Exit);
}
