//! Following a trajectory: the control loop of one run with its pauses and stops, and the tasks
//! that start runs on command.

use vstd::prelude::*;

use crate::clock::millis_between;

pub use crate::control_types::TrajectoryResult;

verus! {

/// Where the control loop stands.
#[derive(Clone, Copy, Debug, PartialEq, Eq, Structural)]
pub enum RunPhase {
    /// Waits for the next tick, a command or a pause.
    Ready,
    /// Asks whether everything is to stop.
    StopCheck,
    /// Asks whether a new motion capture pose is there.
    PoseCheck,
    /// Asks for the time.
    TimeCheck,
    /// Asks whether the trajectory is at its end.
    EndCheck,
    /// Asks when the pause began.
    Pausing,
    /// Waits for the end of the pause that began at `since`.
    Paused { since: u64 },
    Ended,
}

/// What happened to the control loop. Times are clock ticks.
#[derive(Clone, Copy, Debug, PartialEq, Eq, Structural)]
pub enum RunEvent {
    Tick,
    /// A command: go on, or stop.
    Command { run: bool },
    Pause,
    /// Whether everything is to stop.
    StopAll(bool),
    /// Whether a motion capture pose has come since the last question.
    PoseFresh(bool),
    /// The present time.
    Clock { now: u64 },
    /// Whether the trajectory is at its end.
    AtEnd(bool),
    /// When the pause began.
    PausedAt { now: u64 },
    /// The pause is over.
    Resumed { now: u64 },
}

/// What the control loop does on the way to its next question.
#[derive(Clone, Copy, Debug, PartialEq, Eq, Structural)]
pub enum RunEffect {
    OpenLog,
    SetLogging(bool),
    StartEstimator,
    /// Command both wheels to stand still.
    ZeroWheels,
    /// Throw away the wheel commands that are waiting.
    ClearWheelCommands,
    ResetGainScales,
    /// Read the odometry and predict with it.
    Predict,
    /// Read the motion capture pose and correct with it.
    Correct,
    PublishEstimate,
    /// Find the setpoint for this time since the start, in milliseconds.
    FindSetpoint { t_ms: u64 },
    PublishSetpoint,
    /// Scale the gains with the gain network.
    ScaleGains,
    /// Compute the wheel speeds that follow the setpoint.
    Track,
    PublishWheelCommand,
    PublishTrackingError,
}

/// What the control loop waits for.
#[derive(Clone, Copy, Debug, PartialEq, Eq, Structural)]
pub enum RunAction {
    AwaitTick,
    AskStopAll,
    AskPoseFresh,
    AskClock,
    /// Compare this time since the start, in milliseconds, to the trajectory's duration.
    AskAtEnd { t_ms: u64 },
    AskPauseStart,
    AwaitResume,
    Return(TrajectoryResult),
}

/// One run along a trajectory.
#[derive(Clone, Copy, Debug, PartialEq, Eq, Structural)]
pub struct TrajectoryRun {
    pub phase: RunPhase,
    /// When the run began.
    pub start: u64,
    /// How long the run was paused so far.
    pub pause_offset: u64,
    /// Whether a gain network scales the gains.
    pub scaled: bool,
}

/// What a step of the control loop comes to.
#[derive(Debug, PartialEq, Eq)]
pub struct RunStep {
    pub effects: Vec<RunEffect>,
    pub action: RunAction,
}

/// Whether an event can answer what the loop waits for.
pub open spec fn run_accepts(phase: RunPhase, event: RunEvent) -> bool {
    match phase {
        RunPhase::Ready => event is Tick || event is Command || event is Pause,
        RunPhase::StopCheck => event is StopAll,
        RunPhase::PoseCheck => event is PoseFresh,
        RunPhase::TimeCheck => event is Clock,
        RunPhase::EndCheck => event is AtEnd,
        RunPhase::Pausing => event is PausedAt,
        RunPhase::Paused { .. } => event is Resumed || event is Command,
        RunPhase::Ended => false,
    }
}

/// The clock has not run backwards.
pub open spec fn clock_ok(run: TrajectoryRun, event: RunEvent) -> bool {
    match event {
        RunEvent::Clock { now } => run.start + run.pause_offset <= now,
        RunEvent::Resumed { now } => run.phase is Paused ==> {
            &&& run.phase->since <= now
            &&& run.pause_offset + (now - run.phase->since) <= u64::MAX
        },
        _ => true,
    }
}

/// Time since the start of a run, in ticks; pauses do not count.
pub open spec fn run_time(run: TrajectoryRun, now: u64) -> int {
    now - run.start - run.pause_offset
}

/// How a run is left: wheels standing still, nothing logged, gains as configured.
pub open spec fn rest_effects() -> Seq<RunEffect> {
    seq![RunEffect::ZeroWheels, RunEffect::SetLogging(false), RunEffect::ResetGainScales]
}

/// What is done on an event.
pub open spec fn run_effects(run: TrajectoryRun, event: RunEvent) -> Seq<RunEffect> {
    match event {
        RunEvent::Tick | RunEvent::PausedAt { .. } => seq![],
        RunEvent::Command { run: go } => if go && run.phase is Ready {
            seq![]
        } else {
            rest_effects()
        },
        RunEvent::Pause => seq![RunEffect::ClearWheelCommands] + rest_effects(),
        RunEvent::StopAll(stop) => if stop {
            rest_effects() + seq![RunEffect::SetLogging(false)]
        } else {
            seq![RunEffect::Predict]
        },
        RunEvent::PoseFresh(fresh) => if fresh {
            seq![RunEffect::Correct, RunEffect::PublishEstimate]
        } else {
            seq![RunEffect::PublishEstimate]
        },
        RunEvent::Clock { now } => track_effects(run_time(run, now) / 1000, run.scaled),
        RunEvent::AtEnd(end) => if end {
            rest_effects()
        } else {
            seq![]
        },
        RunEvent::Resumed { .. } => seq![RunEffect::SetLogging(true)],
    }
}

/// One step along the trajectory at `t_ms` milliseconds.
pub open spec fn track_effects(t_ms: int, scaled: bool) -> Seq<RunEffect> {
    seq![RunEffect::FindSetpoint { t_ms: t_ms as u64 }, RunEffect::PublishSetpoint] + (if scaled {
        seq![RunEffect::ScaleGains]
    } else {
        seq![]
    }) + seq![
        RunEffect::Track,
        RunEffect::PublishWheelCommand,
        RunEffect::PublishTrackingError,
    ]
}

/// What the loop waits for after an event. A command during a pause ends the run, whatever it
/// says; otherwise only a command to stop does.
pub open spec fn run_action(run: TrajectoryRun, event: RunEvent) -> RunAction {
    match event {
        RunEvent::Tick => RunAction::AskStopAll,
        RunEvent::Command { run: go } => if go && run.phase is Ready {
            RunAction::AskStopAll
        } else {
            RunAction::Return(TrajectoryResult::Stopped)
        },
        RunEvent::Pause => RunAction::AskPauseStart,
        RunEvent::StopAll(stop) => if stop {
            RunAction::Return(TrajectoryResult::Stopped)
        } else {
            RunAction::AskPoseFresh
        },
        RunEvent::PoseFresh(_) => RunAction::AskClock,
        RunEvent::Clock { now } => RunAction::AskAtEnd { t_ms: (run_time(run, now) / 1000) as u64 },
        RunEvent::AtEnd(end) => if end {
            RunAction::Return(TrajectoryResult::Completed)
        } else {
            RunAction::AwaitTick
        },
        RunEvent::PausedAt { .. } => RunAction::AwaitResume,
        RunEvent::Resumed { .. } => RunAction::AwaitTick,
    }
}

/// The phase in which the loop waits for the answer to an action; `now` is the time the event
/// before it came with.
pub open spec fn phase_for(action: RunAction, now: u64) -> RunPhase {
    match action {
        RunAction::AwaitTick => RunPhase::Ready,
        RunAction::AskStopAll => RunPhase::StopCheck,
        RunAction::AskPoseFresh => RunPhase::PoseCheck,
        RunAction::AskClock => RunPhase::TimeCheck,
        RunAction::AskAtEnd { .. } => RunPhase::EndCheck,
        RunAction::AskPauseStart => RunPhase::Pausing,
        RunAction::AwaitResume => RunPhase::Paused { since: now },
        RunAction::Return(_) => RunPhase::Ended,
    }
}

/// The time that an event comes with.
pub open spec fn event_time(event: RunEvent) -> u64 {
    match event {
        RunEvent::Clock { now } => now,
        RunEvent::PausedAt { now } => now,
        RunEvent::Resumed { now } => now,
        _ => 0,
    }
}

/// The run after an event: a pause that is over is added to the time that does not count, and
/// nothing else about the run changes but its phase.
pub open spec fn run_after(run: TrajectoryRun, event: RunEvent) -> TrajectoryRun {
    TrajectoryRun {
        phase: phase_for(run_action(run, event), event_time(event)),
        pause_offset: match event {
            RunEvent::Resumed { now } => (run.pause_offset + (now - run.phase->since)) as u64,
            _ => run.pause_offset,
        },
        ..run
    }
}

/// What is done before the first tick. A log file is opened if there is a logger without one.
pub open spec fn begin_effects(file_open: Option<bool>) -> Seq<RunEffect> {
    (if file_open == Some(false) {
        seq![RunEffect::OpenLog]
    } else {
        seq![]
    }) + seq![RunEffect::SetLogging(true), RunEffect::StartEstimator, RunEffect::ResetGainScales]
}

fn rest() -> (effects: Vec<RunEffect>)
    ensures
        effects@ == rest_effects(),
{
    vec![RunEffect::ZeroWheels, RunEffect::SetLogging(false), RunEffect::ResetGainScales]
}

fn track(t_ms: u64, scaled: bool) -> (effects: Vec<RunEffect>)
    ensures
        effects@ == track_effects(t_ms as int, scaled),
{
    let mut effects = vec![RunEffect::FindSetpoint { t_ms }, RunEffect::PublishSetpoint];
    if scaled {
        effects.push(RunEffect::ScaleGains);
    }
    effects.push(RunEffect::Track);
    effects.push(RunEffect::PublishWheelCommand);
    effects.push(RunEffect::PublishTrackingError);
    effects
}

/// What is done before the first tick; `file_open` says whether the logger has a file open, if
/// there is a logger.
pub fn begin_run(file_open: Option<bool>) -> (effects: Vec<RunEffect>)
    ensures
        effects@ == begin_effects(file_open),
{
    let mut effects: Vec<RunEffect> = Vec::new();
    if let Some(open) = file_open {
        if !open {
            effects.push(RunEffect::OpenLog);
        }
    }
    effects.push(RunEffect::SetLogging(true));
    effects.push(RunEffect::StartEstimator);
    effects.push(RunEffect::ResetGainScales);
    effects
}

impl TrajectoryRun {
    /// A run that begins at `start`.
    pub fn new(start: u64, scaled: bool) -> (run: Self)
        ensures
            run == (TrajectoryRun { phase: RunPhase::Ready, start, pause_offset: 0, scaled }),
    {
        TrajectoryRun { phase: RunPhase::Ready, start, pause_offset: 0, scaled }
    }

    /// Takes in an event.
    pub fn step(&mut self, event: RunEvent) -> (step: RunStep)
        requires
            run_accepts(old(self).phase, event),
            clock_ok(*old(self), event),
        ensures
            *final(self) == run_after(*old(self), event),
            step.effects@ == run_effects(*old(self), event),
            step.action == run_action(*old(self), event),
    {
        match event {
            RunEvent::Tick => {
                self.phase = RunPhase::StopCheck;
                RunStep { effects: Vec::new(), action: RunAction::AskStopAll }
            },
            RunEvent::Command { run: go } => {
                let ready = matches!(self.phase, RunPhase::Ready);
                if go && ready {
                    self.phase = RunPhase::StopCheck;
                    RunStep { effects: Vec::new(), action: RunAction::AskStopAll }
                } else {
                    self.phase = RunPhase::Ended;
                    RunStep {
                        effects: rest(),
                        action: RunAction::Return(TrajectoryResult::Stopped),
                    }
                }
            },
            RunEvent::Pause => {
                self.phase = RunPhase::Pausing;
                let mut effects = vec![RunEffect::ClearWheelCommands];
                let mut end = rest();
                effects.append(&mut end);
                RunStep { effects, action: RunAction::AskPauseStart }
            },
            RunEvent::StopAll(stop) => if stop {
                self.phase = RunPhase::Ended;
                let mut effects = rest();
                effects.push(RunEffect::SetLogging(false));
                RunStep { effects, action: RunAction::Return(TrajectoryResult::Stopped) }
            } else {
                self.phase = RunPhase::PoseCheck;
                RunStep { effects: vec![RunEffect::Predict], action: RunAction::AskPoseFresh }
            },
            RunEvent::PoseFresh(fresh) => {
                self.phase = RunPhase::TimeCheck;
                let effects = if fresh {
                    vec![RunEffect::Correct, RunEffect::PublishEstimate]
                } else {
                    vec![RunEffect::PublishEstimate]
                };
                RunStep { effects, action: RunAction::AskClock }
            },
            RunEvent::Clock { now } => {
                let t_ms: u64 = millis_between(self.start + self.pause_offset, now);
                self.phase = RunPhase::EndCheck;
                RunStep {
                    effects: track(t_ms, self.scaled),
                    action: RunAction::AskAtEnd { t_ms },
                }
            },
            RunEvent::AtEnd(end) => if end {
                self.phase = RunPhase::Ended;
                RunStep { effects: rest(), action: RunAction::Return(TrajectoryResult::Completed) }
            } else {
                self.phase = RunPhase::Ready;
                RunStep { effects: Vec::new(), action: RunAction::AwaitTick }
            },
            RunEvent::PausedAt { now } => {
                self.phase = RunPhase::Paused { since: now };
                RunStep { effects: Vec::new(), action: RunAction::AwaitResume }
            },
            RunEvent::Resumed { now } => {
                if let RunPhase::Paused { since } = self.phase {
                    self.pause_offset = self.pause_offset + (now - since);
                }
                self.phase = RunPhase::Ready;
                RunStep {
                    effects: vec![RunEffect::SetLogging(true)],
                    action: RunAction::AwaitTick,
                }
            },
        }
    }
}

/// The run has not been paused longer than it has lasted at time `latest`.
pub open spec fn run_inv(run: TrajectoryRun, latest: u64) -> bool {
    &&& run.start + run.pause_offset <= latest
    &&& run.phase matches RunPhase::Paused { since } ==> run.start + run.pause_offset <= since
        <= latest
}

/// A clock that never runs backwards is all that a run needs of it: if every event comes no
/// earlier than the one before, no time that the loop computes is negative or too large.
pub proof fn law_forward_clock_is_enough(run: TrajectoryRun, latest: u64, event: RunEvent)
    requires
        run_accepts(run.phase, event),
        run_inv(run, latest),
        event is Clock || event is PausedAt || event is Resumed ==> latest <= event_time(event),
    ensures
        clock_ok(run, event),
        ({
            let now = if latest <= event_time(event) {
                event_time(event)
            } else {
                latest
            };
            run_inv(run_after(run, event), now)
        }),
{
}

/// A pause takes no time: after it the run goes on at the time at which it was paused.
pub proof fn law_pause_takes_no_time(run: TrajectoryRun, paused: u64, resumed: u64, now: u64)
    requires
        run.phase == RunPhase::Pausing,
        run_inv(run, paused),
        paused <= resumed <= now,
    ensures
        ({
            let held = run_after(run, RunEvent::PausedAt { now: paused });
            let back = run_after(held, RunEvent::Resumed { now: resumed });
            &&& back.phase == RunPhase::Ready
            &&& run_time(back, now) == run_time(run, paused) + (now - resumed)
        }),
{
}

/// Whatever ends a run leaves the wheels commanded to stand still, the logging off and the gains
/// unscaled; and so does whatever pauses it.
pub proof fn law_run_is_left_at_rest(run: TrajectoryRun, event: RunEvent)
    requires
        run_accepts(run.phase, event),
        run_action(run, event) is Return || event is Pause,
    ensures
        ({
            let effects = run_effects(run, event);
            &&& effects.contains(RunEffect::ZeroWheels)
            &&& effects.contains(RunEffect::ResetGainScales)
            &&& effects.contains(RunEffect::SetLogging(false))
            &&& !effects.contains(RunEffect::SetLogging(true))
            &&& !effects.contains(RunEffect::PublishWheelCommand)
        }),
{
    let effects = run_effects(run, event);
    if event is Pause {
        assert(effects[1] == RunEffect::ZeroWheels);
        assert(effects[2] == RunEffect::SetLogging(false));
        assert(effects[3] == RunEffect::ResetGainScales);
    } else {
        assert(effects[0] == RunEffect::ZeroWheels);
        assert(effects[1] == RunEffect::SetLogging(false));
        assert(effects[2] == RunEffect::ResetGainScales);
    }
}

/// The wheels are driven only on the way from a tick that was not stopped: never while paused,
/// and never when everything is to stop.
pub proof fn law_wheels_turn_only_when_tracking(run: TrajectoryRun, event: RunEvent)
    requires
        run_accepts(run.phase, event),
    ensures
        run_effects(run, event).contains(RunEffect::PublishWheelCommand) <==> run.phase
            == RunPhase::TimeCheck,
        run_after(run, event).phase == RunPhase::TimeCheck <==> run.phase == RunPhase::PoseCheck,
        run_after(run, event).phase == RunPhase::PoseCheck <==> event == RunEvent::StopAll(false),
{
    let effects = run_effects(run, event);
    if event is Clock {
        assert(effects[effects.len() - 2] == RunEffect::PublishWheelCommand);
    }
}

/// A run counts as completed exactly when the trajectory is at its end.
pub proof fn law_completed_means_at_end(run: TrajectoryRun, event: RunEvent)
    requires
        run_accepts(run.phase, event),
    ensures
        run_action(run, event) == RunAction::Return(TrajectoryResult::Completed) <==> event
            == RunEvent::AtEnd(true),
{
}

/// What a task follows when it is told to start.
#[derive(Clone, Copy, Debug, PartialEq, Eq, Structural)]
pub enum Reference {
    /// The trajectory loaded from the card.
    SdCard,
    /// A figure eight around the present pose.
    Figure8,
    /// A spin on the spot.
    Spin,
}

/// Where a task that starts runs stands.
#[derive(Clone, Copy, Debug, PartialEq, Eq, Structural)]
pub enum OuterPhase {
    Idle,
    /// Looks for the loaded trajectory.
    Looking,
    Running,
    Exited,
}

/// What happened to a task that starts runs.
#[derive(Clone, Copy, Debug, PartialEq, Eq, Structural)]
pub enum OuterEvent {
    /// A command: start, or stop.
    Command { run: bool },
    /// The task is told to stop.
    Stop,
    /// Whether a trajectory is loaded.
    Loaded(bool),
    /// The run has ended.
    RunEnded(TrajectoryResult),
}

/// What a task that starts runs does on the way to its next wait.
#[derive(Clone, Copy, Debug, PartialEq, Eq, Structural)]
pub enum OuterEffect {
    LedOff,
    ForgetResume,
    ForgetPause,
    CloseLog,
}

/// What a task that starts runs waits for.
#[derive(Clone, Copy, Debug, PartialEq, Eq, Structural)]
pub enum OuterAction {
    AwaitCommand,
    LookUpTrajectory,
    /// Run along the reference, and stop with the run when told to.
    Run(Reference),
    Exit,
}

/// What a step of a task that starts runs comes to.
#[derive(Debug, PartialEq, Eq)]
pub struct OuterStep {
    pub effects: Vec<OuterEffect>,
    pub action: OuterAction,
}

/// A task that starts runs along a reference.
#[derive(Clone, Copy, Debug, PartialEq, Eq, Structural)]
pub struct OuterTask {
    pub reference: Reference,
    pub phase: OuterPhase,
}

/// Whether an event can answer what the task waits for.
pub open spec fn outer_accepts(phase: OuterPhase, event: OuterEvent) -> bool {
    match phase {
        OuterPhase::Idle => event is Command || event is Stop,
        OuterPhase::Looking => event is Loaded,
        OuterPhase::Running => event is RunEnded || event is Stop,
        OuterPhase::Exited => false,
    }
}

/// What is done on an event: after a run the LED goes off and the log file is closed; signals to
/// pause or resume that came too late are forgotten unless the task exits.
pub open spec fn outer_effects(task: OuterTask, event: OuterEvent) -> Seq<OuterEffect> {
    if task.phase == OuterPhase::Running {
        if event is Stop {
            seq![OuterEffect::LedOff, OuterEffect::CloseLog]
        } else {
            seq![
                OuterEffect::LedOff,
                OuterEffect::ForgetResume,
                OuterEffect::ForgetPause,
                OuterEffect::CloseLog,
            ]
        }
    } else {
        seq![]
    }
}

/// What the task waits for after an event. A start without a loaded trajectory is passed over if
/// that is what the task follows.
pub open spec fn outer_action(task: OuterTask, event: OuterEvent) -> OuterAction {
    match event {
        OuterEvent::Stop => OuterAction::Exit,
        OuterEvent::RunEnded(_) => OuterAction::AwaitCommand,
        OuterEvent::Loaded(loaded) => if loaded {
            OuterAction::Run(task.reference)
        } else {
            OuterAction::AwaitCommand
        },
        OuterEvent::Command { run } => if !run {
            OuterAction::AwaitCommand
        } else if task.reference == Reference::SdCard {
            OuterAction::LookUpTrajectory
        } else {
            OuterAction::Run(task.reference)
        },
    }
}

/// The phase in which the task waits for the answer to an action.
pub open spec fn outer_phase_for(action: OuterAction) -> OuterPhase {
    match action {
        OuterAction::AwaitCommand => OuterPhase::Idle,
        OuterAction::LookUpTrajectory => OuterPhase::Looking,
        OuterAction::Run(_) => OuterPhase::Running,
        OuterAction::Exit => OuterPhase::Exited,
    }
}

impl OuterTask {
    /// A task that waits for its first command.
    pub fn new(reference: Reference) -> (task: Self)
        ensures
            task == (OuterTask { reference, phase: OuterPhase::Idle }),
    {
        OuterTask { reference, phase: OuterPhase::Idle }
    }

    /// Takes in an event.
    pub fn step(&mut self, event: OuterEvent) -> (step: OuterStep)
        requires
            outer_accepts(old(self).phase, event),
        ensures
            *final(self) == (OuterTask {
                reference: old(self).reference,
                phase: outer_phase_for(outer_action(*old(self), event)),
            }),
            step.effects@ == outer_effects(*old(self), event),
            step.action == outer_action(*old(self), event),
    {
        match event {
            OuterEvent::Stop => {
                let running = matches!(self.phase, OuterPhase::Running);
                let effects = if running {
                    vec![OuterEffect::LedOff, OuterEffect::CloseLog]
                } else {
                    Vec::new()
                };
                self.phase = OuterPhase::Exited;
                OuterStep { effects, action: OuterAction::Exit }
            },
            OuterEvent::RunEnded(_) => {
                self.phase = OuterPhase::Idle;
                let effects = vec![
                    OuterEffect::LedOff,
                    OuterEffect::ForgetResume,
                    OuterEffect::ForgetPause,
                    OuterEffect::CloseLog,
                ];
                OuterStep { effects, action: OuterAction::AwaitCommand }
            },
            OuterEvent::Loaded(loaded) => if loaded {
                self.phase = OuterPhase::Running;
                OuterStep { effects: Vec::new(), action: OuterAction::Run(self.reference) }
            } else {
                self.phase = OuterPhase::Idle;
                OuterStep { effects: Vec::new(), action: OuterAction::AwaitCommand }
            },
            OuterEvent::Command { run } => if !run {
                self.phase = OuterPhase::Idle;
                OuterStep { effects: Vec::new(), action: OuterAction::AwaitCommand }
            } else if matches!(self.reference, Reference::SdCard) {
                self.phase = OuterPhase::Looking;
                OuterStep { effects: Vec::new(), action: OuterAction::LookUpTrajectory }
            } else {
                self.phase = OuterPhase::Running;
                OuterStep { effects: Vec::new(), action: OuterAction::Run(self.reference) }
            },
        }
    }
}

/// However a run ends, the LED goes off and the log file is closed; and the task exits exactly
/// when it is told to stop, whether it is running or idle.
pub proof fn law_outer_task_cleans_up(task: OuterTask, event: OuterEvent)
    requires
        outer_accepts(task.phase, event),
    ensures
        task.phase == OuterPhase::Running ==> {
            &&& outer_effects(task, event).contains(OuterEffect::LedOff)
            &&& outer_effects(task, event).contains(OuterEffect::CloseLog)
        },
        outer_action(task, event) == OuterAction::Exit <==> event is Stop,
        task.phase == OuterPhase::Idle || task.phase == OuterPhase::Running ==> outer_accepts(
            task.phase,
            OuterEvent::Stop,
        ),
{
    if task.phase == OuterPhase::Running {
        let effects = outer_effects(task, event);
        assert(effects[0] == OuterEffect::LedOff);
        assert(effects[effects.len() - 1] == OuterEffect::CloseLog);
    }
}

/// A signal to pause or to resume that a run did not take is forgotten before the next run, so
/// that it cannot pause or resume that one.
pub proof fn law_stale_pauses_are_forgotten(task: OuterTask, event: OuterEvent)
    requires
        outer_accepts(task.phase, event),
        task.phase == OuterPhase::Running,
        outer_action(task, event) != OuterAction::Exit,
    ensures
        outer_effects(task, event).contains(OuterEffect::ForgetPause),
        outer_effects(task, event).contains(OuterEffect::ForgetResume),
{
    let effects = outer_effects(task, event);
    assert(effects[1] == OuterEffect::ForgetResume);
    assert(effects[2] == OuterEffect::ForgetPause);
}

/// The time that a step compares to the trajectory's duration is the number of whole milliseconds
/// since the start, less all pauses; the setpoint of the step is found for the same time and for
/// no other; so a duration is over for the loop exactly when it has passed.
pub proof fn law_time_of_a_step(run: TrajectoryRun, now: u64, duration_ms: u64, t: u64)
    requires
        run.phase == RunPhase::TimeCheck,
        clock_ok(run, RunEvent::Clock { now }),
    ensures
        run_action(run, RunEvent::Clock { now }) matches RunAction::AskAtEnd { t_ms } && {
            let passed = now - run.start - run.pause_offset;
            &&& t_ms * 1000 <= passed < t_ms * 1000 + 1000
            &&& t_ms >= duration_ms <==> passed >= duration_ms * 1000
            &&& run_effects(run, RunEvent::Clock { now }).contains(
                RunEffect::FindSetpoint { t_ms: t },
            ) <==> t == t_ms
        },
{
    let effects = run_effects(run, RunEvent::Clock { now });
    assert(effects[0] is FindSetpoint);
    assert forall|i: int| 0 < i < effects.len() implies !(#[trigger] effects[i] is FindSetpoint) by {
    }
}

/// A tick that is not stopped makes one whole control step: predict, correct if there is a new
/// pose, publish the estimate, find and publish the setpoint, scale the gains if there is a
/// network, track, publish the command and the error. After it the loop is ready again, and the
/// run is what it was.
pub proof fn law_control_step(run: TrajectoryRun, fresh: bool, now: u64)
    requires
        run.phase == RunPhase::Ready,
        clock_ok(run, RunEvent::Clock { now }),
    ensures
        ({
            let ticked = run_after(run, RunEvent::Tick);
            let predicted = run_after(ticked, RunEvent::StopAll(false));
            let estimated = run_after(predicted, RunEvent::PoseFresh(fresh));
            let driven = run_after(estimated, RunEvent::Clock { now });
            let done = run_after(driven, RunEvent::AtEnd(false));
            let t_ms = ((now - run.start - run.pause_offset) / 1000) as u64;
            let effects = run_effects(run, RunEvent::Tick) + run_effects(
                ticked,
                RunEvent::StopAll(false),
            ) + run_effects(predicted, RunEvent::PoseFresh(fresh)) + run_effects(
                estimated,
                RunEvent::Clock { now },
            ) + run_effects(driven, RunEvent::AtEnd(false));
            &&& done == run
            &&& effects == seq![RunEffect::Predict] + (if fresh {
                seq![RunEffect::Correct]
            } else {
                seq![]
            }) + seq![
                RunEffect::PublishEstimate,
                RunEffect::FindSetpoint { t_ms },
                RunEffect::PublishSetpoint,
            ] + (if run.scaled {
                seq![RunEffect::ScaleGains]
            } else {
                seq![]
            }) + seq![
                RunEffect::Track,
                RunEffect::PublishWheelCommand,
                RunEffect::PublishTrackingError,
            ]
        }),
{
}

/// Whether an event is what an action waits for.
pub open spec fn run_answers(action: RunAction, event: RunEvent) -> bool {
    match event {
        RunEvent::Tick | RunEvent::Pause => action == RunAction::AwaitTick,
        RunEvent::Command { .. } => action == RunAction::AwaitTick || action
            == RunAction::AwaitResume,
        RunEvent::StopAll(_) => action == RunAction::AskStopAll,
        RunEvent::PoseFresh(_) => action == RunAction::AskPoseFresh,
        RunEvent::Clock { .. } => action == RunAction::AskClock,
        RunEvent::AtEnd(_) => action is AskAtEnd,
        RunEvent::PausedAt { .. } => action == RunAction::AskPauseStart,
        RunEvent::Resumed { .. } => action == RunAction::AwaitResume,
    }
}

/// The loop accepts exactly the events that its last action waits for; in particular it accepts
/// none after it has returned.
pub proof fn law_loop_waits_for_its_answer(run: TrajectoryRun, event: RunEvent, next: RunEvent)
    requires
        run_accepts(run.phase, event),
    ensures
        run_accepts(run_after(run, event).phase, next) <==> run_answers(
            run_action(run, event),
            next,
        ),
{
}

/// What each event leads to: a tick, or a command to go on, to the question whether everything is
/// to stop; a pause to a wait for its end; the end of a pause to the next tick.
pub proof fn law_loop_goes_on(run: TrajectoryRun, event: RunEvent)
    requires
        run_accepts(run.phase, event),
    ensures
        run_action(run, event) == RunAction::AskStopAll <==> run.phase == RunPhase::Ready && (
        event is Tick || event == (RunEvent::Command { run: true })),
        run_action(run, event) == RunAction::AskPoseFresh <==> event == RunEvent::StopAll(false),
        run_action(run, event) == RunAction::AskClock <==> event is PoseFresh,
        run_action(run, event) is AskAtEnd <==> event is Clock,
        run_action(run, event) == RunAction::AskPauseStart <==> event is Pause,
        run_action(run, event) == RunAction::AwaitResume <==> event is PausedAt,
        run_action(run, event) == RunAction::AwaitTick <==> event == RunEvent::AtEnd(false)
            || event is Resumed,
        run_action(run, event) == RunAction::Return(TrajectoryResult::Stopped) <==> {
            ||| event == (RunEvent::Command { run: false })
            ||| event is Command && run.phase is Paused
            ||| event == RunEvent::StopAll(true)
        },
{
}

/// A command to go on is nothing more than a tick.
pub proof fn law_go_is_a_tick(run: TrajectoryRun)
    requires
        run.phase == RunPhase::Ready,
    ensures
        run_after(run, RunEvent::Command { run: true }) == run_after(run, RunEvent::Tick),
        run_effects(run, RunEvent::Command { run: true }) == run_effects(run, RunEvent::Tick),
        run_effects(run, RunEvent::Tick).len() == 0,
{
}

/// A run keeps its start and its network, and time is taken off only when a pause ends, by the
/// length of the pause.
pub proof fn law_only_pauses_are_taken_off(run: TrajectoryRun, event: RunEvent)
    requires
        run_accepts(run.phase, event),
        clock_ok(run, event),
    ensures
        ({
            let after = run_after(run, event);
            &&& after.start == run.start
            &&& after.scaled == run.scaled
            &&& after.pause_offset - run.pause_offset == match event {
                RunEvent::Resumed { now } => now - run.phase->since,
                _ => 0,
            }
            &&& event matches RunEvent::PausedAt { now } ==> after.phase == (RunPhase::Paused {
                since: now,
            })
        }),
{
}

/// Wheels are commanded to stand still, gains are reset and the logging goes off exactly when a
/// run ends or is paused; the logging comes back exactly when a pause ends. A pause throws away
/// the commands that are waiting before it commands the wheels to stand still.
pub proof fn law_rest_and_logging(run: TrajectoryRun, event: RunEvent)
    requires
        run_accepts(run.phase, event),
    ensures
        ({
            let effects = run_effects(run, event);
            let resting = run_action(run, event) is Return || event is Pause;
            &&& effects.contains(RunEffect::ZeroWheels) <==> resting
            &&& effects.contains(RunEffect::ResetGainScales) <==> resting
            &&& effects.contains(RunEffect::SetLogging(false)) <==> resting
            &&& effects.contains(RunEffect::SetLogging(true)) <==> event is Resumed
            &&& effects.contains(RunEffect::ClearWheelCommands) <==> event is Pause
            &&& event is Pause ==> effects[0] == RunEffect::ClearWheelCommands
            &&& !effects.contains(RunEffect::OpenLog)
            &&& !effects.contains(RunEffect::StartEstimator)
        }),
{
    let effects = run_effects(run, event);
    if run_action(run, event) is Return || event is Pause {
        law_run_is_left_at_rest(run, event);
    }
    if event is Resumed {
        assert(effects[0] == RunEffect::SetLogging(true));
    }
    if event is Pause {
        assert(effects[0] == RunEffect::ClearWheelCommands);
    }
}

/// A run starts exactly on a command to start, along the task's reference; a trajectory from the
/// card is looked up first, and followed exactly if one is loaded.
pub proof fn law_run_starts_on_command(task: OuterTask, event: OuterEvent)
    requires
        outer_accepts(task.phase, event),
    ensures
        ({
            let action = outer_action(task, event);
            let start = event == (OuterEvent::Command { run: true });
            &&& action == OuterAction::LookUpTrajectory <==> start && task.reference
                == Reference::SdCard
            &&& action is Run <==> (start && task.reference != Reference::SdCard) || event
                == OuterEvent::Loaded(true)
            &&& action matches OuterAction::Run(reference) ==> reference == task.reference
            &&& action == OuterAction::AwaitCommand <==> {
                ||| event == (OuterEvent::Command { run: false })
                ||| event == OuterEvent::Loaded(false)
                ||| event is RunEnded
            }
        }),
{
}

/// Whether an event is what an action waits for.
pub open spec fn outer_answers(action: OuterAction, event: OuterEvent) -> bool {
    match event {
        OuterEvent::Command { .. } => action == OuterAction::AwaitCommand,
        OuterEvent::Stop => action == OuterAction::AwaitCommand || action is Run,
        OuterEvent::Loaded(_) => action == OuterAction::LookUpTrajectory,
        OuterEvent::RunEnded(_) => action is Run,
    }
}

/// The task accepts exactly the events that its last action waits for: it can be told to stop
/// while it waits for a command and during a run, and accepts nothing after it has exited.
pub proof fn law_outer_task_waits_for_its_answer(
    task: OuterTask,
    event: OuterEvent,
    next: OuterEvent,
)
    requires
        outer_accepts(task.phase, event),
    ensures
        outer_accepts(outer_phase_for(outer_action(task, event)), next) <==> outer_answers(
            outer_action(task, event),
            next,
        ),
{
}

/// The LED goes off and the log file is closed only after a run; stale signals are forgotten
/// exactly when a run has ended and the task goes on, before the file is closed.
pub proof fn law_outer_task_cleans_up_only_after_a_run(task: OuterTask, event: OuterEvent)
    requires
        outer_accepts(task.phase, event),
    ensures
        ({
            let effects = outer_effects(task, event);
            let ended = task.phase == OuterPhase::Running;
            &&& effects.contains(OuterEffect::LedOff) <==> ended
            &&& effects.contains(OuterEffect::CloseLog) <==> ended
            &&& effects.contains(OuterEffect::ForgetPause) <==> ended && event is RunEnded
            &&& effects.contains(OuterEffect::ForgetResume) <==> ended && event is RunEnded
            &&& ended ==> effects.last() == OuterEffect::CloseLog
        }),
{
    law_outer_task_cleans_up(task, event);
    if task.phase == OuterPhase::Running && event is RunEnded {
        law_stale_pauses_are_forgotten(task, event);
    }
}

/// A run begins with the logging on, a fresh estimator and unscaled gains; a log file is opened,
/// first of all, exactly if there is a logger without one.
pub proof fn law_run_begins_afresh(file_open: Option<bool>)
    ensures
        ({
            let effects = begin_effects(file_open);
            &&& effects.contains(RunEffect::OpenLog) <==> file_open == Some(false)
            &&& file_open == Some(false) ==> effects[0] == RunEffect::OpenLog
            &&& effects.contains(RunEffect::SetLogging(true))
            &&& effects.contains(RunEffect::StartEstimator)
            &&& effects.contains(RunEffect::ResetGainScales)
            &&& effects.len() == if file_open == Some(false) {
                4int
            } else {
                3int
            }
        }),
{
    let effects = begin_effects(file_open);
    let n = effects.len() as int;
    assert(effects[n - 3] == RunEffect::SetLogging(true));
    assert(effects[n - 2] == RunEffect::StartEstimator);
    assert(effects[n - 1] == RunEffect::ResetGainScales);
    if file_open == Some(false) {
        assert(effects[0] == RunEffect::OpenLog);
    }
}

} // verus!
