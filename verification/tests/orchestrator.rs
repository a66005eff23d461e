use pololu3pi2040_rs::boot::{boot_plan, robot_id, BootOp};
use pololu3pi2040_rs::ekf_init::{next_init_action, InitAction, InitEvent};
use pololu3pi2040_rs::orchestrator::{
    switch_plan, Action, Op, Orchestrator, StaleSignal, Task, DRAIN_REPEATS,
};
use pololu3pi2040_rs::orchestrator_signal::{
    menu_action, mode_for_command, DrainSignal, MenuAction, MenuEvent, Mode, OrchestratorMsg,
    StopSignal,
};
use pololu3pi2040_rs::robotstate::EkfInitMsg;

const MODES: [Mode; 6] = [
    Mode::Menu,
    Mode::TeleOp,
    Mode::TrajMocap,
    Mode::CtrlAction,
    Mode::TrajOnboard,
    Mode::TrajOnboard2,
];

/// Carries out a whole switch; the tasks in `failing` do not start.
fn switch(orchestrator: &mut Orchestrator, to: Mode, failing: &[Task]) -> Vec<Op> {
    let mut performed = Vec::new();
    let mut action = orchestrator.on_message(OrchestratorMsg::SwitchTo(to));
    while let Action::Perform(op) = action {
        performed.push(op);
        let ok = match op {
            Op::Spawn { task, .. } => !failing.contains(&task),
            Op::TrySpawn(task) => !failing.contains(&task),
            _ => true,
        };
        action = orchestrator.on_performed(ok);
    }
    performed
}

#[test]
fn commands_select_modes() {
    assert_eq!(mode_for_command(0), Some(Mode::Menu));
    assert_eq!(mode_for_command(1), Some(Mode::TeleOp));
    assert_eq!(mode_for_command(2), Some(Mode::TrajMocap));
    assert_eq!(mode_for_command(3), None);
    assert_eq!(mode_for_command(4), Some(Mode::CtrlAction));
    assert_eq!(mode_for_command(5), Some(Mode::TrajOnboard));
    assert_eq!(mode_for_command(6), Some(Mode::TrajOnboard2));
    assert_eq!(mode_for_command(7), None);
}

#[test]
fn the_menu_tells_packets_apart_by_length() {
    assert_eq!(menu_action(5, MenuEvent::Packet { len: 5 }), MenuAction::ReadSelection);
    assert_eq!(menu_action(5, MenuEvent::Packet { len: 8 }), MenuAction::ReadParameter);
    assert_eq!(menu_action(5, MenuEvent::Packet { len: 6 }), MenuAction::Receive);
    assert_eq!(menu_action(8, MenuEvent::Packet { len: 8 }), MenuAction::ReadSelection);
    assert_eq!(
        menu_action(5, MenuEvent::Selection { command: Some(4) }),
        MenuAction::Send(OrchestratorMsg::SwitchTo(Mode::CtrlAction))
    );
    assert_eq!(menu_action(5, MenuEvent::Selection { command: Some(3) }), MenuAction::Receive);
    assert_eq!(menu_action(5, MenuEvent::Selection { command: None }), MenuAction::Receive);
    assert_eq!(menu_action(5, MenuEvent::Parameter { valid: true }), MenuAction::WriteParameter);
    assert_eq!(menu_action(5, MenuEvent::Parameter { valid: false }), MenuAction::Receive);
    assert_eq!(menu_action(5, MenuEvent::Done), MenuAction::Receive);
    assert_eq!(menu_action(5, MenuEvent::Stop), MenuAction::Exit);
}

#[test]
fn draining_waits_no_longer_than_it_must() {
    let mut drain = DrainSignal::new(2);
    assert!(drain.wants_wait());
    drain.waited(true);
    assert!(drain.wants_wait());
    drain.waited(true);
    assert!(!drain.wants_wait());
    let mut quiet = DrainSignal::new(2);
    quiet.waited(false);
    assert!(!quiet.wants_wait());
    assert!(!DrainSignal::new(0).wants_wait());
}

#[test]
fn switching_to_the_present_mode_only_beeps() {
    for mode in MODES {
        assert_eq!(switch_plan(mode, mode), vec![Op::Beep(b'R')]);
    }
    let mut orchestrator = Orchestrator::new();
    assert_eq!(switch(&mut orchestrator, Mode::Menu, &[]), vec![Op::Beep(b'R')]);
    assert_eq!(orchestrator.mode, Mode::Menu);
}

#[test]
fn the_menu_gives_way_to_teleoperation() {
    let mut orchestrator = Orchestrator::new();
    let performed = switch(&mut orchestrator, Mode::TeleOp, &[]);
    assert_eq!(
        performed,
        vec![
            Op::Signal(StopSignal::MenuUart),
            Op::Signal(StopSignal::LogSending),
            Op::WaitMs(2),
            Op::Drain { signal: StopSignal::MenuUart, repeats: 2 },
            Op::Drain { signal: StopSignal::LogSending, repeats: 2 },
            Op::DrainUartRx,
            Op::ResetRobotState,
            Op::Reset(StaleSignal::TrajPause),
            Op::Reset(StaleSignal::TrajResume),
            Op::Reset(StaleSignal::TrajectoryControl),
            Op::Reset(StaleSignal::StopImu),
            Op::Reset(StaleSignal::StopPoseEst),
            Op::SendMode(1),
            Op::Spawn { task: Task::TeleopUart, counted: true },
            Op::Spawn { task: Task::TeleopMotor, counted: true },
            Op::BeepIfStarted(b'T'),
            Op::Spawn { task: Task::UartLog { period_ms: 50 }, counted: false },
        ]
    );
    assert_eq!(orchestrator.mode, Mode::TeleOp);
}

#[test]
fn trajectory_modes_start_their_tasks_around_the_start_pose() {
    for (mode, number, outer, tune) in [
        (Mode::TrajMocap, 2, Task::OuterSdCard, b'M'),
        (Mode::TrajOnboard, 5, Task::OuterOnboard, b'F'),
        (Mode::TrajOnboard2, 6, Task::OuterOnboard2, b'G'),
    ] {
        let plan = switch_plan(Mode::Menu, mode);
        assert_eq!(
            plan[12..].to_vec(),
            vec![
                Op::SendMode(number),
                Op::OpenLog,
                Op::Spawn { task: Task::MocapUart, counted: true },
                Op::Spawn { task: Task::MocapUpdate, counted: true },
                Op::Spawn { task: Task::Odometry { period_ms: 10 }, counted: true },
                Op::Spawn { task: Task::WheelInner { period_ms: 10 }, counted: true },
                Op::Spawn { task: Task::ReadImu, counted: true },
                Op::ResolvePose,
                Op::Spawn { task: outer, counted: true },
                Op::BeepIfStarted(tune),
                Op::Spawn { task: Task::UartLog { period_ms: 50 }, counted: false },
                Op::Spawn { task: Task::SdLogging, counted: false },
            ]
        );
    }
}

#[test]
fn leaving_a_driving_mode_stops_the_motors_and_clears_the_signals() {
    for from in MODES {
        for to in MODES {
            if from == to {
                continue;
            }
            let plan = switch_plan(from, to);
            let first_spawn = plan
                .iter()
                .position(|op| matches!(op, Op::Spawn { .. } | Op::TrySpawn(_)))
                .unwrap();
            let reports: Vec<usize> =
                (0..plan.len()).filter(|i| matches!(plan[*i], Op::SendMode(_))).collect();
            assert_eq!(reports.len(), 1);
            assert!(reports[0] < first_spawn);
            let stop = plan.iter().position(|op| *op == Op::StopMotors);
            assert_eq!(stop.is_some(), from != Mode::Menu);
            assert!(stop.unwrap_or(0) < first_spawn);
            for (i, op) in plan.iter().enumerate() {
                if let Op::Signal(signal) = op {
                    let drain = Op::Drain { signal: *signal, repeats: DRAIN_REPEATS };
                    let clear = plan.iter().position(|op| *op == drain).unwrap();
                    assert!(i < clear && clear < first_spawn);
                    assert!(plan[i..clear].iter().any(|op| matches!(op, Op::WaitMs(_))));
                }
            }
            let follows = |mode: Mode| {
                matches!(mode, Mode::TrajMocap | Mode::TrajOnboard | Mode::TrajOnboard2)
            };
            assert_eq!(plan.contains(&Op::OpenLog), follows(to));
            assert_eq!(plan.contains(&Op::CloseLog), follows(from));
        }
    }
}

#[test]
fn nothing_starts_before_stale_data_is_cleared() {
    for from in MODES {
        for to in MODES {
            if from == to {
                continue;
            }
            let plan = switch_plan(from, to);
            for (i, op) in plan.iter().enumerate() {
                if !matches!(op, Op::Spawn { .. } | Op::TrySpawn(_)) {
                    continue;
                }
                for cleared in [
                    Op::DrainUartRx,
                    Op::ResetRobotState,
                    Op::Reset(StaleSignal::TrajPause),
                    Op::Reset(StaleSignal::TrajResume),
                    Op::Reset(StaleSignal::TrajectoryControl),
                    Op::Reset(StaleSignal::StopImu),
                    Op::Reset(StaleSignal::StopPoseEst),
                ] {
                    assert!(plan[..i].contains(&cleared));
                }
                let outer = [Task::OuterSdCard, Task::OuterOnboard, Task::OuterOnboard2];
                if matches!(op, Op::Spawn { task, .. } if outer.contains(task)) {
                    assert!(plan[..i].contains(&Op::ResolvePose));
                    assert!(plan[..i].contains(&Op::OpenLog));
                }
            }
        }
    }
}

#[test]
fn trajectory_modes_are_left_with_all_their_signals() {
    let plan = switch_plan(Mode::TrajOnboard, Mode::Menu);
    let signals = [
        StopSignal::MocapUart,
        StopSignal::MocapUpdate,
        StopSignal::WheelInner,
        StopSignal::TrajOuter,
        StopSignal::Odom,
        StopSignal::Imu,
        StopSignal::LogSending,
        StopSignal::PoseEst,
    ];
    for (i, signal) in signals.iter().enumerate() {
        assert_eq!(plan[i], Op::Signal(*signal));
        assert_eq!(plan[10 + i], Op::Drain { signal: *signal, repeats: 2 });
    }
    assert_eq!(plan[8], Op::WaitMs(200));
    assert_eq!(plan[9], Op::StopMotors);
    assert_eq!(plan[18], Op::CloseLog);
    let teleop = switch_plan(Mode::CtrlAction, Mode::Menu);
    assert_eq!(teleop[3..5].to_vec(), vec![Op::WaitMs(40), Op::StopMotors]);
}

#[test]
fn the_tune_is_left_out_if_a_counted_task_fails() {
    let tune = Op::BeepIfStarted(b'A');
    let mut good = Orchestrator::new();
    assert!(switch(&mut good, Mode::CtrlAction, &[]).contains(&tune));
    let mut bad = Orchestrator::new();
    assert!(!switch(&mut bad, Mode::CtrlAction, &[Task::TeleopMotor]).contains(&tune));
    assert_eq!(bad.mode, Mode::CtrlAction);
    let mut quiet = Orchestrator::new();
    let log = Task::UartLog { period_ms: 50 };
    assert!(switch(&mut quiet, Mode::CtrlAction, &[log]).contains(&tune));
}

#[test]
fn the_menu_log_is_retried() {
    let log = Task::UartLog { period_ms: 50 };
    let attempt = Op::TrySpawn(log);
    let pause = Op::PauseUnlessPlaced(50);
    let mut good = Orchestrator::new();
    switch(&mut good, Mode::TeleOp, &[]);
    let performed = switch(&mut good, Mode::Menu, &[]);
    assert_eq!(performed[performed.len() - 2..].to_vec(), vec![Op::BeepIfStarted(b'q'), attempt]);
    let mut bad = Orchestrator::new();
    switch(&mut bad, Mode::TeleOp, &[]);
    let performed = switch(&mut bad, Mode::Menu, &[log]);
    assert_eq!(
        performed[performed.len() - 6..].to_vec(),
        vec![attempt, pause, attempt, pause, attempt, pause]
    );
    assert_eq!(bad.mode, Mode::Menu);
}

#[test]
fn the_menu_log_is_tried_until_it_starts() {
    let mut orchestrator = Orchestrator::new();
    switch(&mut orchestrator, Mode::TeleOp, &[]);
    let mut tries = 0;
    let mut pauses = 0;
    let mut action = orchestrator.on_message(OrchestratorMsg::SwitchTo(Mode::Menu));
    while let Action::Perform(op) = action {
        let mut ok = true;
        if matches!(op, Op::TrySpawn(_)) {
            tries += 1;
            ok = tries == 2;
        }
        if matches!(op, Op::PauseUnlessPlaced(_)) {
            pauses += 1;
        }
        action = orchestrator.on_performed(ok);
    }
    assert_eq!((tries, pauses), (2, 1));
}

#[test]
fn motion_capture_goes_before_the_trajectory_and_that_before_the_origin() {
    let pose = EkfInitMsg { x: 1, y: 2, yaw: 3 };
    assert_eq!(next_init_action(InitEvent::Begin), InitAction::AwaitMocap { timeout_ms: 300 });
    assert_eq!(next_init_action(InitEvent::Mocap(pose)), InitAction::StartAt(pose));
    assert_eq!(next_init_action(InitEvent::TimedOut), InitAction::AskTrajectoryStart);
    assert_eq!(next_init_action(InitEvent::TrajectoryStart(Some(pose))), InitAction::StartAt(pose));
    let zero = 0.0f32.to_bits();
    assert_eq!(
        next_init_action(InitEvent::TrajectoryStart(None)),
        InitAction::StartAt(EkfInitMsg { x: zero, y: zero, yaw: zero })
    );
}

#[test]
fn starting_up_shares_what_is_there() {
    let common = vec![
        BootOp::StartEncoders,
        BootOp::StartUart,
        BootOp::StartBuzzer,
        BootOp::StartMenu,
        BootOp::ShareConfig,
    ];
    assert_eq!(boot_plan(false, false), common);
    let mut full = vec![BootOp::ShareLed, BootOp::ShareLogger];
    full.extend(common);
    assert_eq!(boot_plan(true, true), full);
    assert_eq!(robot_id(None), 7);
    assert_eq!(robot_id(Some(3)), 3);
}
