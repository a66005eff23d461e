//! Switching between modes: ending the tasks of the old mode, clearing what they left behind and
//! starting the tasks of the new one.

use vstd::prelude::*;

use crate::orchestrator_signal::{mode_number, Mode, OrchestratorMsg, StopSignal};

verus! {

/// Period of the odometry task in milliseconds.
pub const ODOM_PERIOD_MS: u64 = 10;

/// Period of the wheel speed loop in milliseconds.
pub const INNER_PERIOD_MS: u64 = 10;

/// Period of the log sending task in milliseconds, in the menu and in every other mode.
pub const LOG_PERIOD_MS: u64 = 50;

/// Pause between two attempts to start a task that is still winding down, in milliseconds.
pub const RETRY_PAUSE_MS: u64 = 50;

/// How often a stop signal is waited for when it is cleared.
pub const DRAIN_REPEATS: u8 = 2;

/// Tune for a switch to the mode the robot is in already.
pub const BEEP_SAME_MODE: u8 = 82;

/// The tasks that a mode consists of.
#[derive(Clone, Copy, Debug, PartialEq, Eq, Structural)]
pub enum Task {
    MenuUart,
    UartLog { period_ms: u64 },
    TeleopUart,
    ControlActionUart,
    TeleopMotor,
    MocapUart,
    MocapUpdate,
    Odometry { period_ms: u64 },
    WheelInner { period_ms: u64 },
    ReadImu,
    OuterSdCard,
    OuterOnboard,
    OuterOnboard2,
    SdLogging,
}

/// The signals that are forgotten on every switch.
#[derive(Clone, Copy, Debug, PartialEq, Eq, Structural)]
pub enum StaleSignal {
    TrajPause,
    TrajResume,
    TrajectoryControl,
    StopImu,
    StopPoseEst,
}

/// One step of a switch.
#[derive(Clone, Copy, Debug, PartialEq, Eq, Structural)]
pub enum Op {
    /// Raise a stop signal.
    Signal(StopSignal),
    /// Let time pass.
    WaitMs(u64),
    /// Set both motors to zero.
    StopMotors,
    /// Clear a stop signal that nobody took.
    Drain { signal: StopSignal, repeats: u8 },
    /// Close the log file.
    CloseLog,
    /// Throw away the bytes waiting on the serial line.
    DrainUartRx,
    /// Forget the state shared between tasks.
    ResetRobotState,
    /// Forget a signal.
    Reset(StaleSignal),
    /// Report the mode.
    SendMode(u8),
    /// Open a new log file.
    OpenLog,
    /// Start a task; `counted` if the mode is not complete without it.
    Spawn { task: Task, counted: bool },
    /// Find out where the robot is and publish that pose.
    ResolvePose,
    /// Play a tune.
    Beep(u8),
    /// Play a tune if every counted task has started.
    BeepIfStarted(u8),
    /// Start a task unless an earlier attempt has.
    TrySpawn(Task),
    /// Let time pass unless the task has started.
    PauseUnlessPlaced(u64),
}

/// How the steps so far went.
#[derive(Clone, Copy, Debug, PartialEq, Eq, Structural)]
pub struct Flags {
    /// Every counted task has started.
    pub started: bool,
    /// The task that is tried several times has started.
    pub placed: bool,
}

/// Ends the tasks of a mode.
pub open spec fn teardown_ops(mode: Mode) -> Seq<Op> {
    match mode {
        Mode::Menu => seq![
            Op::Signal(StopSignal::MenuUart),
            Op::Signal(StopSignal::LogSending),
            Op::WaitMs(2),
            Op::Drain { signal: StopSignal::MenuUart, repeats: DRAIN_REPEATS },
            Op::Drain { signal: StopSignal::LogSending, repeats: DRAIN_REPEATS },
        ],
        Mode::TeleOp | Mode::CtrlAction => seq![
            Op::Signal(StopSignal::TeleopUart),
            Op::Signal(StopSignal::MotorCtrl),
            Op::Signal(StopSignal::LogSending),
            Op::WaitMs(40),
            Op::StopMotors,
            Op::Drain { signal: StopSignal::TeleopUart, repeats: DRAIN_REPEATS },
            Op::Drain { signal: StopSignal::MotorCtrl, repeats: DRAIN_REPEATS },
            Op::Drain { signal: StopSignal::LogSending, repeats: DRAIN_REPEATS },
        ],
        Mode::TrajMocap | Mode::TrajOnboard | Mode::TrajOnboard2 => seq![
            Op::Signal(StopSignal::MocapUart),
            Op::Signal(StopSignal::MocapUpdate),
            Op::Signal(StopSignal::WheelInner),
            Op::Signal(StopSignal::TrajOuter),
            Op::Signal(StopSignal::Odom),
            Op::Signal(StopSignal::Imu),
            Op::Signal(StopSignal::LogSending),
            Op::Signal(StopSignal::PoseEst),
            Op::WaitMs(200),
            Op::StopMotors,
            Op::Drain { signal: StopSignal::MocapUart, repeats: DRAIN_REPEATS },
            Op::Drain { signal: StopSignal::MocapUpdate, repeats: DRAIN_REPEATS },
            Op::Drain { signal: StopSignal::WheelInner, repeats: DRAIN_REPEATS },
            Op::Drain { signal: StopSignal::TrajOuter, repeats: DRAIN_REPEATS },
            Op::Drain { signal: StopSignal::Odom, repeats: DRAIN_REPEATS },
            Op::Drain { signal: StopSignal::Imu, repeats: DRAIN_REPEATS },
            Op::Drain { signal: StopSignal::LogSending, repeats: DRAIN_REPEATS },
            Op::Drain { signal: StopSignal::PoseEst, repeats: DRAIN_REPEATS },
            Op::CloseLog,
        ],
    }
}

/// Clears what any mode may have left behind, so that the next one does not inherit it.
pub open spec fn handover_ops() -> Seq<Op> {
    seq![
        Op::DrainUartRx,
        Op::ResetRobotState,
        Op::Reset(StaleSignal::TrajPause),
        Op::Reset(StaleSignal::TrajResume),
        Op::Reset(StaleSignal::TrajectoryControl),
        Op::Reset(StaleSignal::StopImu),
        Op::Reset(StaleSignal::StopPoseEst),
    ]
}

/// Starts the tasks of a mode that follows a trajectory.
pub open spec fn trajectory_setup_ops(number: u8, outer: Task, tune: u8) -> Seq<Op> {
    seq![
        Op::SendMode(number),
        Op::OpenLog,
        Op::Spawn { task: Task::MocapUart, counted: true },
        Op::Spawn { task: Task::MocapUpdate, counted: true },
        Op::Spawn { task: Task::Odometry { period_ms: ODOM_PERIOD_MS }, counted: true },
        Op::Spawn { task: Task::WheelInner { period_ms: INNER_PERIOD_MS }, counted: true },
        Op::Spawn { task: Task::ReadImu, counted: true },
        Op::ResolvePose,
        Op::Spawn { task: outer, counted: true },
        Op::BeepIfStarted(tune),
        Op::Spawn { task: Task::UartLog { period_ms: LOG_PERIOD_MS }, counted: false },
        Op::Spawn { task: Task::SdLogging, counted: false },
    ]
}

/// Starts the tasks of a mode that drives the motors on command.
pub open spec fn command_setup_ops(number: u8, uart: Task, tune: u8) -> Seq<Op> {
    seq![
        Op::SendMode(number),
        Op::Spawn { task: uart, counted: true },
        Op::Spawn { task: Task::TeleopMotor, counted: true },
        Op::BeepIfStarted(tune),
        Op::Spawn { task: Task::UartLog { period_ms: LOG_PERIOD_MS }, counted: false },
    ]
}

/// Starts the tasks of the menu.
pub open spec fn menu_setup_ops() -> Seq<Op> {
    seq![
        Op::SendMode(0),
        Op::Spawn { task: Task::MenuUart, counted: true },
        Op::BeepIfStarted(113),
        Op::TrySpawn(Task::UartLog { period_ms: LOG_PERIOD_MS }),
        Op::PauseUnlessPlaced(RETRY_PAUSE_MS),
        Op::TrySpawn(Task::UartLog { period_ms: LOG_PERIOD_MS }),
        Op::PauseUnlessPlaced(RETRY_PAUSE_MS),
        Op::TrySpawn(Task::UartLog { period_ms: LOG_PERIOD_MS }),
        Op::PauseUnlessPlaced(RETRY_PAUSE_MS),
    ]
}

/// Starts the tasks of a mode.
pub open spec fn setup_ops(mode: Mode) -> Seq<Op> {
    match mode {
        Mode::Menu => menu_setup_ops(),
        Mode::TeleOp => command_setup_ops(1, Task::TeleopUart, 84),
        Mode::TrajMocap => trajectory_setup_ops(2, Task::OuterSdCard, 77),
        Mode::CtrlAction => command_setup_ops(4, Task::ControlActionUart, 65),
        Mode::TrajOnboard => trajectory_setup_ops(5, Task::OuterOnboard, 70),
        Mode::TrajOnboard2 => trajectory_setup_ops(6, Task::OuterOnboard2, 71),
    }
}

/// All steps of a switch. A switch to the present mode only plays a tune.
pub open spec fn switch_ops(from: Mode, to: Mode) -> Seq<Op> {
    if from == to {
        seq![Op::Beep(BEEP_SAME_MODE)]
    } else {
        teardown_ops(from) + handover_ops() + setup_ops(to)
    }
}

/// Whether a step is left out, given how the steps before it went.
pub open spec fn skipped(op: Op, flags: Flags) -> bool {
    match op {
        Op::BeepIfStarted(_) => !flags.started,
        Op::TrySpawn(_) => flags.placed,
        Op::PauseUnlessPlaced(_) => flags.placed,
        _ => false,
    }
}

/// What is known after a step; `ok` says whether the task of a step that starts one has started.
pub open spec fn flags_after(op: Op, ok: bool, flags: Flags) -> Flags {
    match op {
        Op::Spawn { counted, .. } if counted => Flags {
            started: flags.started && ok,
            placed: flags.placed,
        },
        Op::TrySpawn(_) => Flags { started: flags.started, placed: ok },
        _ => flags,
    }
}

/// The first step from `pc` on that is not left out; the number of steps if there is none.
pub open spec fn resume_at(ops: Seq<Op>, pc: int, flags: Flags) -> int
    decreases ops.len() - pc,
{
    if pc >= ops.len() {
        ops.len() as int
    } else if skipped(ops[pc], flags) {
        resume_at(ops, pc + 1, flags)
    } else {
        pc
    }
}

fn teardown(mode: Mode) -> (ops: Vec<Op>)
    ensures
        ops@ == teardown_ops(mode),
{
    match mode {
        Mode::Menu => vec![
            Op::Signal(StopSignal::MenuUart),
            Op::Signal(StopSignal::LogSending),
            Op::WaitMs(2),
            Op::Drain { signal: StopSignal::MenuUart, repeats: DRAIN_REPEATS },
            Op::Drain { signal: StopSignal::LogSending, repeats: DRAIN_REPEATS },
        ],
        Mode::TeleOp | Mode::CtrlAction => vec![
            Op::Signal(StopSignal::TeleopUart),
            Op::Signal(StopSignal::MotorCtrl),
            Op::Signal(StopSignal::LogSending),
            Op::WaitMs(40),
            Op::StopMotors,
            Op::Drain { signal: StopSignal::TeleopUart, repeats: DRAIN_REPEATS },
            Op::Drain { signal: StopSignal::MotorCtrl, repeats: DRAIN_REPEATS },
            Op::Drain { signal: StopSignal::LogSending, repeats: DRAIN_REPEATS },
        ],
        Mode::TrajMocap | Mode::TrajOnboard | Mode::TrajOnboard2 => vec![
            Op::Signal(StopSignal::MocapUart),
            Op::Signal(StopSignal::MocapUpdate),
            Op::Signal(StopSignal::WheelInner),
            Op::Signal(StopSignal::TrajOuter),
            Op::Signal(StopSignal::Odom),
            Op::Signal(StopSignal::Imu),
            Op::Signal(StopSignal::LogSending),
            Op::Signal(StopSignal::PoseEst),
            Op::WaitMs(200),
            Op::StopMotors,
            Op::Drain { signal: StopSignal::MocapUart, repeats: DRAIN_REPEATS },
            Op::Drain { signal: StopSignal::MocapUpdate, repeats: DRAIN_REPEATS },
            Op::Drain { signal: StopSignal::WheelInner, repeats: DRAIN_REPEATS },
            Op::Drain { signal: StopSignal::TrajOuter, repeats: DRAIN_REPEATS },
            Op::Drain { signal: StopSignal::Odom, repeats: DRAIN_REPEATS },
            Op::Drain { signal: StopSignal::Imu, repeats: DRAIN_REPEATS },
            Op::Drain { signal: StopSignal::LogSending, repeats: DRAIN_REPEATS },
            Op::Drain { signal: StopSignal::PoseEst, repeats: DRAIN_REPEATS },
            Op::CloseLog,
        ],
    }
}

fn handover() -> (ops: Vec<Op>)
    ensures
        ops@ == handover_ops(),
{
    vec![
        Op::DrainUartRx,
        Op::ResetRobotState,
        Op::Reset(StaleSignal::TrajPause),
        Op::Reset(StaleSignal::TrajResume),
        Op::Reset(StaleSignal::TrajectoryControl),
        Op::Reset(StaleSignal::StopImu),
        Op::Reset(StaleSignal::StopPoseEst),
    ]
}

fn trajectory_setup(number: u8, outer: Task, tune: u8) -> (ops: Vec<Op>)
    ensures
        ops@ == trajectory_setup_ops(number, outer, tune),
{
    vec![
        Op::SendMode(number),
        Op::OpenLog,
        Op::Spawn { task: Task::MocapUart, counted: true },
        Op::Spawn { task: Task::MocapUpdate, counted: true },
        Op::Spawn { task: Task::Odometry { period_ms: ODOM_PERIOD_MS }, counted: true },
        Op::Spawn { task: Task::WheelInner { period_ms: INNER_PERIOD_MS }, counted: true },
        Op::Spawn { task: Task::ReadImu, counted: true },
        Op::ResolvePose,
        Op::Spawn { task: outer, counted: true },
        Op::BeepIfStarted(tune),
        Op::Spawn { task: Task::UartLog { period_ms: LOG_PERIOD_MS }, counted: false },
        Op::Spawn { task: Task::SdLogging, counted: false },
    ]
}

fn command_setup(number: u8, uart: Task, tune: u8) -> (ops: Vec<Op>)
    ensures
        ops@ == command_setup_ops(number, uart, tune),
{
    vec![
        Op::SendMode(number),
        Op::Spawn { task: uart, counted: true },
        Op::Spawn { task: Task::TeleopMotor, counted: true },
        Op::BeepIfStarted(tune),
        Op::Spawn { task: Task::UartLog { period_ms: LOG_PERIOD_MS }, counted: false },
    ]
}

fn menu_setup() -> (ops: Vec<Op>)
    ensures
        ops@ == menu_setup_ops(),
{
    vec![
        Op::SendMode(0),
        Op::Spawn { task: Task::MenuUart, counted: true },
        Op::BeepIfStarted(113),
        Op::TrySpawn(Task::UartLog { period_ms: LOG_PERIOD_MS }),
        Op::PauseUnlessPlaced(RETRY_PAUSE_MS),
        Op::TrySpawn(Task::UartLog { period_ms: LOG_PERIOD_MS }),
        Op::PauseUnlessPlaced(RETRY_PAUSE_MS),
        Op::TrySpawn(Task::UartLog { period_ms: LOG_PERIOD_MS }),
        Op::PauseUnlessPlaced(RETRY_PAUSE_MS),
    ]
}

fn setup(mode: Mode) -> (ops: Vec<Op>)
    ensures
        ops@ == setup_ops(mode),
{
    match mode {
        Mode::Menu => menu_setup(),
        Mode::TeleOp => command_setup(1, Task::TeleopUart, 84),
        Mode::TrajMocap => trajectory_setup(2, Task::OuterSdCard, 77),
        Mode::CtrlAction => command_setup(4, Task::ControlActionUart, 65),
        Mode::TrajOnboard => trajectory_setup(5, Task::OuterOnboard, 70),
        Mode::TrajOnboard2 => trajectory_setup(6, Task::OuterOnboard2, 71),
    }
}

/// All steps of a switch.
pub fn switch_plan(from: Mode, to: Mode) -> (ops: Vec<Op>)
    ensures
        ops@ == switch_ops(from, to),
{
    if from == to {
        vec![Op::Beep(BEEP_SAME_MODE)]
    } else {
        let mut ops = teardown(from);
        let mut middle = handover();
        let mut end = setup(to);
        ops.append(&mut middle);
        ops.append(&mut end);
        ops
    }
}

/// What the orchestrator asks for.
#[derive(Clone, Copy, Debug, PartialEq, Eq, Structural)]
pub enum Action {
    /// Wait for the next message.
    AwaitMessage,
    /// Carry out a step and report how it went.
    Perform(Op),
}

/// The orchestrator: the present mode and the switch under way, if there is one.
pub struct Orchestrator {
    pub mode: Mode,
    pub target: Mode,
    pub ops: Vec<Op>,
    pub pc: usize,
    pub flags: Flags,
}

/// The action at a step.
pub open spec fn action_at(ops: Seq<Op>, pc: int) -> Action {
    if pc < ops.len() {
        Action::Perform(ops[pc])
    } else {
        Action::AwaitMessage
    }
}

impl Orchestrator {
    /// No switch is under way.
    pub open spec fn is_idle(&self) -> bool {
        self.pc == self.ops@.len()
    }

    /// A step is to be carried out.
    pub open spec fn is_switching(&self) -> bool {
        self.pc < self.ops@.len()
    }

    /// The robot starts in the menu.
    pub fn new() -> (orchestrator: Self)
        ensures
            orchestrator.mode == Mode::Menu,
            orchestrator.is_idle(),
    {
        Orchestrator {
            mode: Mode::Menu,
            target: Mode::Menu,
            ops: Vec::new(),
            pc: 0,
            flags: Flags { started: true, placed: false },
        }
    }

    /// Goes on to the next step that is not left out; behind the last one the switch is done.
    fn settle(&mut self) -> (action: Action)
        requires
            old(self).pc <= old(self).ops@.len(),
        ensures
            final(self).pc == resume_at(old(self).ops@, old(self).pc as int, old(self).flags),
            final(self).pc <= final(self).ops@.len(),
            final(self).ops == old(self).ops,
            final(self).flags == old(self).flags,
            final(self).target == old(self).target,
            final(self).mode == if final(self).is_idle() {
                old(self).target
            } else {
                old(self).mode
            },
            action == action_at(old(self).ops@, final(self).pc as int),
    {
        while self.pc < self.ops.len()
            invariant
                self.pc <= self.ops@.len(),
                self.ops == old(self).ops,
                self.flags == old(self).flags,
                self.target == old(self).target,
                self.mode == old(self).mode,
                resume_at(self.ops@, self.pc as int, self.flags) == resume_at(
                    old(self).ops@,
                    old(self).pc as int,
                    old(self).flags,
                ),
            decreases self.ops@.len() - self.pc,
        {
            let op = self.ops[self.pc];
            let skip = match op {
                Op::BeepIfStarted(_) => !self.flags.started,
                Op::TrySpawn(_) => self.flags.placed,
                Op::PauseUnlessPlaced(_) => self.flags.placed,
                _ => false,
            };
            if !skip {
                return Action::Perform(op);
            }
            self.pc = self.pc + 1;
        }
        self.mode = self.target;
        Action::AwaitMessage
    }

    /// Takes in a message: begins the switch.
    pub fn on_message(&mut self, message: OrchestratorMsg) -> (action: Action)
        requires
            old(self).is_idle(),
        ensures
            message matches OrchestratorMsg::SwitchTo(to) ==> {
                &&& final(self).target == to
                &&& final(self).ops@ == switch_ops(old(self).mode, to)
                &&& final(self).pc == 0
                &&& final(self).flags == (Flags { started: true, placed: false })
                &&& final(self).mode == old(self).mode
                &&& action == Action::Perform(switch_ops(old(self).mode, to)[0])
            },
            final(self).is_switching(),
    {
        let OrchestratorMsg::SwitchTo(to) = message;
        self.target = to;
        self.ops = switch_plan(self.mode, to);
        self.pc = 0;
        self.flags = Flags { started: true, placed: false };
        assert(self.ops@.len() > 0);
        assert(!skipped(self.ops@[0], self.flags));
        self.settle()
    }

    /// Takes in that the present step was carried out; `ok` says whether the task of a step that
    /// starts one has started.
    pub fn on_performed(&mut self, ok: bool) -> (action: Action)
        requires
            old(self).is_switching(),
        ensures
            final(self).ops == old(self).ops,
            final(self).target == old(self).target,
            final(self).flags == flags_after(old(self).ops@[old(self).pc as int], ok, old(self).flags),
            final(self).pc == resume_at(old(self).ops@, old(self).pc + 1, final(self).flags),
            old(self).pc < final(self).pc <= final(self).ops@.len(),
            final(self).mode == if final(self).is_idle() {
                old(self).target
            } else {
                old(self).mode
            },
            action == action_at(old(self).ops@, final(self).pc as int),
    {
        match self.ops[self.pc] {
            Op::Spawn { counted, .. } => {
                if counted && !ok {
                    self.flags.started = false;
                }
            },
            Op::TrySpawn(_) => {
                self.flags.placed = ok;
            },
            _ => {},
        }
        assert(self.pc < self.ops.len());
        self.pc = self.pc + 1;
        proof {
            lemma_resume_not_before(self.ops@, self.pc as int, self.flags);
        }
        self.settle()
    }
}

proof fn lemma_resume_not_before(ops: Seq<Op>, pc: int, flags: Flags)
    requires
        pc <= ops.len(),
    ensures
        pc <= resume_at(ops, pc, flags) <= ops.len(),
    decreases ops.len() - pc,
{
    if pc < ops.len() && skipped(ops[pc], flags) {
        lemma_resume_not_before(ops, pc + 1, flags);
    }
}

/// Whether a step starts a task.
pub open spec fn starts_task(op: Op) -> bool {
    op is Spawn || op is TrySpawn
}

/// Whether a mode follows a trajectory.
pub open spec fn follows_trajectory(mode: Mode) -> bool {
    mode == Mode::TrajMocap || mode == Mode::TrajOnboard || mode == Mode::TrajOnboard2
}

/// Switching to the present mode plays a tune and does nothing else.
pub proof fn law_same_mode_only_beeps(mode: Mode)
    ensures
        switch_ops(mode, mode) == seq![Op::Beep(BEEP_SAME_MODE)],
{
}

/// A stop signal that a switch raises is cleared later in the same switch, after a wait, so that
/// it cannot end a task of the new mode.
pub proof fn law_stop_signals_are_cleared(from: Mode, to: Mode, i: int)
    requires
        0 <= i < switch_ops(from, to).len(),
        switch_ops(from, to)[i] is Signal,
    ensures
        exists|wait: int, clear: int|
            i < wait < clear < switch_ops(from, to).len() && #[trigger] switch_ops(
                from,
                to,
            )[wait] is WaitMs && #[trigger] switch_ops(from, to)[clear] == (Op::Drain {
                signal: switch_ops(from, to)[i]->Signal_0,
                repeats: DRAIN_REPEATS,
            }),
{
    let ops = switch_ops(from, to);
    assert(from != to);
    lemma_signals_stand_in_front(from, to, i);
    match from {
        Mode::Menu => {
            assert(ops[2] is WaitMs);
            assert(ops[i + 3] is Drain);
        },
        Mode::TeleOp | Mode::CtrlAction => {
            assert(ops[3] is WaitMs);
            assert(ops[i + 5] is Drain);
        },
        _ => {
            assert(ops[8] is WaitMs);
            assert(ops[i + 10] is Drain);
        },
    }
}

/// How many stop signals end the tasks of a mode.
pub open spec fn signal_count(mode: Mode) -> int {
    match mode {
        Mode::Menu => 2,
        Mode::TeleOp | Mode::CtrlAction => 3,
        _ => 8,
    }
}

proof fn lemma_signals_stand_in_front(from: Mode, to: Mode, i: int)
    requires
        from != to,
        0 <= i < switch_ops(from, to).len(),
        switch_ops(from, to)[i] is Signal,
    ensures
        i < signal_count(from),
{
    let down = teardown_ops(from);
    let middle = handover_ops();
    let up = setup_ops(to);
    let ops = switch_ops(from, to);
    if i >= down.len() + middle.len() {
        assert(ops[i] == up[i - down.len() - middle.len()]);
    } else if i >= down.len() {
        assert(ops[i] == middle[i - down.len()]);
    } else {
        assert(ops[i] == down[i]);
    }
}

/// No task of the new mode starts before the old mode is torn down and what it left behind is
/// cleared.
pub proof fn law_tasks_start_last(from: Mode, to: Mode, i: int)
    requires
        from != to,
        0 <= i < switch_ops(from, to).len(),
        starts_task(switch_ops(from, to)[i]),
    ensures
        i >= teardown_ops(from).len() + handover_ops().len(),
{
    let down = teardown_ops(from);
    let middle = handover_ops();
    let ops = switch_ops(from, to);
    if i < down.len() {
        assert(ops[i] == down[i]);
    } else if i < down.len() + middle.len() {
        assert(ops[i] == middle[i - down.len()]);
    }
}

/// Whatever a mode may have left behind is cleared before any task of the next mode starts: the
/// bytes on the serial line, the shared state, and every signal that could mislead a new task.
pub proof fn law_stale_data_is_cleared_first(from: Mode, to: Mode, signal: StaleSignal, i: int)
    requires
        from != to,
        0 <= i < switch_ops(from, to).len(),
        starts_task(switch_ops(from, to)[i]),
    ensures
        switch_ops(from, to).take(i).contains(Op::DrainUartRx),
        switch_ops(from, to).take(i).contains(Op::ResetRobotState),
        switch_ops(from, to).take(i).contains(Op::Reset(signal)),
{
    law_tasks_start_last(from, to, i);
    let n = teardown_ops(from).len() as int;
    let before = switch_ops(from, to).take(i);
    assert(before[n] == Op::DrainUartRx);
    assert(before[n + 1] == Op::ResetRobotState);
    let at: int = match signal {
        StaleSignal::TrajPause => 2,
        StaleSignal::TrajResume => 3,
        StaleSignal::TrajectoryControl => 4,
        StaleSignal::StopImu => 5,
        StaleSignal::StopPoseEst => 6,
    };
    assert(before[n + at] == Op::Reset(signal));
}

/// Whether a task follows a trajectory.
pub open spec fn is_outer_task(task: Task) -> bool {
    task == Task::OuterSdCard || task == Task::OuterOnboard || task == Task::OuterOnboard2
}

/// A task that follows a trajectory starts only after the pose of the robot was found and
/// published, and the log file opened.
pub proof fn law_outer_task_starts_at_a_known_pose(from: Mode, to: Mode, i: int)
    requires
        from != to,
        0 <= i < switch_ops(from, to).len(),
        switch_ops(from, to)[i] matches Op::Spawn { task, .. } && is_outer_task(task),
    ensures
        switch_ops(from, to).take(i).contains(Op::ResolvePose),
        switch_ops(from, to).take(i).contains(Op::OpenLog),
{
    law_tasks_start_last(from, to, i);
    let n = (teardown_ops(from).len() + handover_ops().len()) as int;
    let before = switch_ops(from, to).take(i);
    assert(switch_ops(from, to)[i] == setup_ops(to)[i - n]);
    assert(before[n + 7] == Op::ResolvePose);
    assert(before[n + 1] == Op::OpenLog);
}

/// Leaving a mode that drives the motors sets them to zero, after its tasks were told to stop and
/// had time to, and before any other task starts.
pub proof fn law_motors_stop(from: Mode, to: Mode)
    requires
        from != to,
        from != Mode::Menu,
    ensures
        ({
            let ops = switch_ops(from, to);
            let n = signal_count(from);
            &&& forall|i: int| 0 <= i < n ==> #[trigger] ops[i] is Signal
            &&& ops[n] is WaitMs
            &&& ops[n + 1] == Op::StopMotors
            &&& forall|i: int| 0 <= i < ops.len() && starts_task(#[trigger] ops[i]) ==> n + 1 < i
        }),
{
    let ops = switch_ops(from, to);
    let n = signal_count(from);
    assert forall|i: int| 0 <= i < ops.len() && starts_task(#[trigger] ops[i]) implies n + 1
        < i by {
        law_tasks_start_last(from, to, i);
    }
}

/// A log file is opened exactly when the new mode follows a trajectory, and closed exactly when
/// the old one does.
pub proof fn law_log_file_follows_the_mode(from: Mode, to: Mode)
    requires
        from != to,
    ensures
        switch_ops(from, to).contains(Op::OpenLog) <==> follows_trajectory(to),
        switch_ops(from, to).contains(Op::CloseLog) <==> follows_trajectory(from),
{
    let down = teardown_ops(from);
    let middle = handover_ops();
    let up = setup_ops(to);
    let ops = switch_ops(from, to);
    assert forall|i: int| 0 <= i < ops.len() implies (#[trigger] ops[i] == Op::OpenLog ==> i
        == down.len() + middle.len() + 1 && follows_trajectory(to)) && (ops[i] == Op::CloseLog ==> i
        == down.len() - 1 && follows_trajectory(from)) by {
        if i >= down.len() + middle.len() {
            assert(ops[i] == up[i - down.len() - middle.len()]);
        } else if i >= down.len() {
            assert(ops[i] == middle[i - down.len()]);
        } else {
            assert(ops[i] == down[i]);
        }
    }
    if follows_trajectory(to) {
        assert(ops[(down.len() + middle.len()) as int + 1] == Op::OpenLog);
    }
    if follows_trajectory(from) {
        assert(ops[down.len() - 1] == Op::CloseLog);
    }
}

/// A switch reports a mode exactly once, as the first step of starting the new mode; it is the new
/// one, under the number that selects it.
pub proof fn law_new_mode_is_reported(from: Mode, to: Mode, i: int)
    requires
        from != to,
        0 <= i < switch_ops(from, to).len(),
    ensures
        ({
            let at = (teardown_ops(from).len() + handover_ops().len()) as int;
            &&& switch_ops(from, to)[i] is SendMode <==> i == at
            &&& 0 <= at < switch_ops(from, to).len()
            &&& switch_ops(from, to)[at] == Op::SendMode(mode_number(to))
        }),
{
    let down = teardown_ops(from);
    let middle = handover_ops();
    let up = setup_ops(to);
    let ops = switch_ops(from, to);
    if i >= down.len() + middle.len() {
        assert(ops[i] == up[i - down.len() - middle.len()]);
    } else if i >= down.len() {
        assert(ops[i] == middle[i - down.len()]);
    } else {
        assert(ops[i] == down[i]);
    }
    assert(ops[(down.len() + middle.len()) as int] == up[0]);
}

/// What is known before step `n` of a switch, where `outcomes` says of each step how it goes.
pub open spec fn flags_before(ops: Seq<Op>, outcomes: Seq<bool>, n: int) -> Flags
    decreases n,
{
    if n <= 0 {
        Flags { started: true, placed: false }
    } else {
        let flags = flags_before(ops, outcomes, n - 1);
        if skipped(ops[n - 1], flags) {
            flags
        } else {
            flags_after(ops[n - 1], outcomes[n - 1], flags)
        }
    }
}

/// The orchestrator knows at every step what the steps before it amount to: if it does before a
/// step, it does at the step it goes on to, and every step in between is left out.
pub proof fn law_flags_follow_the_run(ops: Seq<Op>, outcomes: Seq<bool>, pc: int)
    requires
        0 <= pc < ops.len(),
        ops.len() == outcomes.len(),
        !skipped(ops[pc], flags_before(ops, outcomes, pc)),
    ensures
        ({
            let flags = flags_after(ops[pc], outcomes[pc], flags_before(ops, outcomes, pc));
            let next = resume_at(ops, pc + 1, flags);
            &&& pc < next <= ops.len()
            &&& flags_before(ops, outcomes, next) == flags
            &&& forall|i: int| pc < i < next ==> skipped(#[trigger] ops[i], flags)
            &&& next < ops.len() ==> !skipped(ops[next], flags)
        }),
{
    let flags = flags_after(ops[pc], outcomes[pc], flags_before(ops, outcomes, pc));
    assert(flags_before(ops, outcomes, pc + 1) == flags);
    lemma_flags_kept(ops, outcomes, pc + 1, flags);
}

proof fn lemma_flags_kept(ops: Seq<Op>, outcomes: Seq<bool>, pc: int, flags: Flags)
    requires
        0 <= pc <= ops.len(),
        flags_before(ops, outcomes, pc) == flags,
    ensures
        ({
            let next = resume_at(ops, pc, flags);
            &&& pc <= next <= ops.len()
            &&& flags_before(ops, outcomes, next) == flags
            &&& forall|i: int| pc <= i < next ==> skipped(#[trigger] ops[i], flags)
            &&& next < ops.len() ==> !skipped(ops[next], flags)
        }),
    decreases ops.len() - pc,
{
    if pc < ops.len() && skipped(ops[pc], flags) {
        assert(flags_before(ops, outcomes, pc + 1) == flags);
        lemma_flags_kept(ops, outcomes, pc + 1, flags);
    }
}

/// A mode's tune is played if and only if every counted task before it has started.
pub proof fn law_tune_means_all_started(ops: Seq<Op>, outcomes: Seq<bool>, n: int)
    requires
        0 <= n < ops.len(),
        ops.len() == outcomes.len(),
        ops[n] is BeepIfStarted,
    ensures
        !skipped(ops[n], flags_before(ops, outcomes, n)) <==> forall|i: int|
            0 <= i < n && (#[trigger] ops[i] matches Op::Spawn { counted, .. } && counted)
                ==> outcomes[i],
{
    lemma_started(ops, outcomes, n);
}

proof fn lemma_started(ops: Seq<Op>, outcomes: Seq<bool>, n: int)
    requires
        0 <= n <= ops.len(),
        ops.len() == outcomes.len(),
    ensures
        flags_before(ops, outcomes, n).started <==> forall|i: int|
            0 <= i < n && (#[trigger] ops[i] matches Op::Spawn { counted, .. } && counted)
                ==> outcomes[i],
    decreases n,
{
    if n > 0 {
        lemma_started(ops, outcomes, n - 1);
    }
}

/// The steps that are carried out from step `pc` on.
pub open spec fn performed(ops: Seq<Op>, outcomes: Seq<bool>, pc: int) -> Seq<Op>
    decreases ops.len() - pc,
{
    if pc >= ops.len() {
        Seq::empty()
    } else {
        let rest = performed(ops, outcomes, pc + 1);
        if skipped(ops[pc], flags_before(ops, outcomes, pc)) {
            rest
        } else {
            seq![ops[pc]] + rest
        }
    }
}

/// Starting the log sender in the menu is tried until it succeeds, three times at most, with a
/// pause after every failure.
pub proof fn law_menu_log_is_retried(outcomes: Seq<bool>)
    requires
        outcomes.len() == menu_setup_ops().len(),
    ensures
        ({
            let attempt = Op::TrySpawn(Task::UartLog { period_ms: LOG_PERIOD_MS });
            let pause = Op::PauseUnlessPlaced(RETRY_PAUSE_MS);
            performed(menu_setup_ops(), outcomes, 3) == if outcomes[3] {
                seq![attempt]
            } else if outcomes[5] {
                seq![attempt, pause, attempt]
            } else if outcomes[7] {
                seq![attempt, pause, attempt, pause, attempt]
            } else {
                seq![attempt, pause, attempt, pause, attempt, pause]
            }
        }),
{
    reveal_with_fuel(flags_before, 10);
    reveal_with_fuel(performed, 8);
    let ops = menu_setup_ops();
    assert(performed(ops, outcomes, 9) == Seq::<Op>::empty());
}

/// The task that a step starts, if it starts one.
pub open spec fn task_started(op: Op) -> Option<Task> {
    match op {
        Op::Spawn { task, .. } => Some(task),
        Op::TrySpawn(task) => Some(task),
        _ => None,
    }
}

/// The signal that a task waits for to stop.
pub open spec fn stop_signal_of(task: Task) -> StopSignal {
    match task {
        Task::MenuUart => StopSignal::MenuUart,
        Task::UartLog { .. } | Task::SdLogging => StopSignal::LogSending,
        Task::TeleopUart | Task::ControlActionUart => StopSignal::TeleopUart,
        Task::TeleopMotor => StopSignal::MotorCtrl,
        Task::MocapUart => StopSignal::MocapUart,
        Task::MocapUpdate => StopSignal::MocapUpdate,
        Task::Odometry { .. } => StopSignal::Odom,
        Task::WheelInner { .. } => StopSignal::WheelInner,
        Task::ReadImu => StopSignal::Imu,
        Task::OuterSdCard | Task::OuterOnboard | Task::OuterOnboard2 => StopSignal::TrajOuter,
    }
}

/// The tasks that a mode consists of.
pub open spec fn consists_of(mode: Mode, task: Task) -> bool {
    match task {
        Task::MenuUart => mode == Mode::Menu,
        Task::TeleopUart => mode == Mode::TeleOp,
        Task::ControlActionUart => mode == Mode::CtrlAction,
        Task::TeleopMotor => mode == Mode::TeleOp || mode == Mode::CtrlAction,
        Task::OuterSdCard => mode == Mode::TrajMocap,
        Task::OuterOnboard => mode == Mode::TrajOnboard,
        Task::OuterOnboard2 => mode == Mode::TrajOnboard2,
        Task::UartLog { period_ms } => period_ms == 50,
        Task::Odometry { period_ms } | Task::WheelInner { period_ms } => follows_trajectory(mode)
            && period_ms == 10,
        _ => follows_trajectory(mode),
    }
}

/// Where a step of a switch comes from.
proof fn lemma_switch_at(from: Mode, to: Mode, i: int)
    requires
        from != to,
        0 <= i < switch_ops(from, to).len(),
    ensures
        ({
            let n = teardown_ops(from).len() as int;
            switch_ops(from, to)[i] == if i < n {
                teardown_ops(from)[i]
            } else if i < n + 7 {
                handover_ops()[i - n]
            } else {
                setup_ops(to)[i - n - 7]
            }
        }),
        handover_ops().len() == 7,
        switch_ops(from, to).len() == teardown_ops(from).len() + 7 + setup_ops(to).len(),
{
}

/// Where the start of a task stands in the setup of its mode.
spec fn setup_index(mode: Mode, task: Task) -> int {
    match task {
        Task::MenuUart | Task::TeleopUart | Task::ControlActionUart => 1,
        Task::TeleopMotor | Task::MocapUart => 2,
        Task::MocapUpdate => 3,
        Task::UartLog { .. } => match mode {
            Mode::Menu => 3,
            Mode::TeleOp | Mode::CtrlAction => 4,
            _ => 10,
        },
        Task::Odometry { .. } => 4,
        Task::WheelInner { .. } => 5,
        Task::ReadImu => 6,
        Task::OuterSdCard | Task::OuterOnboard | Task::OuterOnboard2 => 8,
        Task::SdLogging => 11,
    }
}

/// A switch starts exactly the tasks that the new mode consists of.
pub proof fn law_mode_starts_its_tasks(from: Mode, to: Mode, task: Task)
    requires
        from != to,
    ensures
        (exists|i: int|
            0 <= i < switch_ops(from, to).len() && task_started(#[trigger] switch_ops(from, to)[i])
                == Some(task)) <==> consists_of(to, task),
{
    let ops = switch_ops(from, to);
    let n = teardown_ops(from).len() as int;
    assert forall|i: int|
        0 <= i < ops.len() && task_started(#[trigger] ops[i]) == Some(task) implies consists_of(
        to,
        task,
    ) by {
        lemma_switch_at(from, to, i);
    }
    if consists_of(to, task) {
        let i = n + 7 + setup_index(to, task);
        lemma_switch_at(from, to, i);
        assert(task_started(ops[i]) == Some(task));
    }
}

/// Where a signal stands among those that end the tasks of a mode.
spec fn signal_index(mode: Mode, signal: StopSignal) -> int {
    match signal {
        StopSignal::MenuUart | StopSignal::TeleopUart | StopSignal::MocapUart => 0,
        StopSignal::MotorCtrl | StopSignal::MocapUpdate => 1,
        StopSignal::LogSending => match mode {
            Mode::Menu => 1,
            Mode::TeleOp | Mode::CtrlAction => 2,
            _ => 6,
        },
        StopSignal::WheelInner => 2,
        StopSignal::TrajOuter => 3,
        StopSignal::Odom => 4,
        StopSignal::Imu => 5,
        StopSignal::PoseEst => 7,
    }
}

/// Leaving a mode tells every task of the mode to stop, before the wait that gives them time to.
pub proof fn law_every_task_is_told_to_stop(mode: Mode, to: Mode, task: Task, wait: int)
    requires
        mode != to,
        consists_of(mode, task),
        0 <= wait < switch_ops(mode, to).len(),
        switch_ops(mode, to)[wait] is WaitMs,
    ensures
        switch_ops(mode, to).take(wait).contains(Op::Signal(stop_signal_of(task))),
{
    let ops = switch_ops(mode, to);
    lemma_switch_at(mode, to, wait);
    let i = signal_index(mode, stop_signal_of(task));
    lemma_switch_at(mode, to, i);
    assert(ops.take(wait)[i] == Op::Signal(stop_signal_of(task)));
}

/// A stop signal is raised only for a task of the mode that is left; only the pose estimator's is
/// raised besides, on leaving a mode that follows a trajectory.
pub proof fn law_no_other_task_is_told_to_stop(from: Mode, to: Mode, signal: StopSignal)
    requires
        from != to,
        switch_ops(from, to).contains(Op::Signal(signal)),
    ensures
        ({
            ||| signal == StopSignal::PoseEst && follows_trajectory(from)
            ||| exists|task: Task|
                consists_of(from, task) && #[trigger] stop_signal_of(task) == signal
        }),
{
    let ops = switch_ops(from, to);
    let i = choose|i: int| 0 <= i < ops.len() && ops[i] == Op::Signal(signal);
    lemma_switch_at(from, to, i);
    let task = match signal {
        StopSignal::MenuUart => Task::MenuUart,
        StopSignal::LogSending => Task::UartLog { period_ms: 50 },
        StopSignal::TeleopUart => if from == Mode::TeleOp {
            Task::TeleopUart
        } else {
            Task::ControlActionUart
        },
        StopSignal::MotorCtrl => Task::TeleopMotor,
        StopSignal::MocapUart => Task::MocapUart,
        StopSignal::MocapUpdate => Task::MocapUpdate,
        StopSignal::WheelInner => Task::WheelInner { period_ms: 10 },
        StopSignal::TrajOuter => if from == Mode::TrajMocap {
            Task::OuterSdCard
        } else if from == Mode::TrajOnboard {
            Task::OuterOnboard
        } else {
            Task::OuterOnboard2
        },
        StopSignal::Odom => Task::Odometry { period_ms: 10 },
        StopSignal::Imu => Task::ReadImu,
        StopSignal::PoseEst => Task::ReadImu,
    };
    assert(signal != StopSignal::PoseEst ==> stop_signal_of(task) == signal);
}

/// There is one wait, behind all stop signals: two milliseconds for the menu's tasks, two periods
/// of fifty hertz for those that drive on command, two tenths of a second for those that follow a
/// trajectory.
pub proof fn law_tasks_are_given_time_to_stop(from: Mode, to: Mode, i: int, j: int)
    requires
        from != to,
        0 <= i < switch_ops(from, to).len(),
        0 <= j < switch_ops(from, to).len(),
        switch_ops(from, to)[i] is WaitMs,
    ensures
        switch_ops(from, to)[i] == Op::WaitMs(
            if from == Mode::Menu {
                2
            } else if follows_trajectory(from) {
                200
            } else {
                40
            },
        ),
        switch_ops(from, to)[j] is WaitMs ==> i == j,
        switch_ops(from, to)[j] is Signal ==> j < i,
        switch_ops(from, to)[j] is Drain || switch_ops(from, to)[j] == Op::StopMotors ==> i < j,
{
    lemma_switch_at(from, to, i);
    lemma_switch_at(from, to, j);
}

/// Every switch to another mode waits; the motors are stopped on the way exactly if the old mode
/// is not the menu; the pose is found exactly if the new mode follows a trajectory; and no tune is
/// played unconditionally.
pub proof fn law_switch_waits_and_stops(from: Mode, to: Mode)
    requires
        from != to,
    ensures
        exists|i: int| 0 <= i < switch_ops(from, to).len() && #[trigger] switch_ops(from, to)[i]
            is WaitMs,
        switch_ops(from, to).contains(Op::StopMotors) <==> from != Mode::Menu,
        switch_ops(from, to).contains(Op::ResolvePose) <==> follows_trajectory(to),
        forall|i: int|
            0 <= i < switch_ops(from, to).len() ==> !(#[trigger] switch_ops(from, to)[i] is Beep),
{
    let ops = switch_ops(from, to);
    let n = teardown_ops(from).len() as int;
    let w = signal_count(from);
    lemma_switch_at(from, to, w);
    assert(ops[w] is WaitMs);
    assert forall|i: int| 0 <= i < ops.len() implies !(#[trigger] ops[i] is Beep) && (ops[i]
        == Op::StopMotors ==> from != Mode::Menu) && (ops[i] == Op::ResolvePose
        ==> follows_trajectory(to)) by {
        lemma_switch_at(from, to, i);
    }
    if from != Mode::Menu {
        lemma_switch_at(from, to, w + 1);
        assert(ops[w + 1] == Op::StopMotors);
    }
    if follows_trajectory(to) {
        lemma_switch_at(from, to, n + 14);
        assert(ops[n + 14] == Op::ResolvePose);
    }
}

/// Only signals that were raised in the same switch are cleared, each by at most two waits.
pub proof fn law_only_raised_signals_are_cleared(from: Mode, to: Mode, i: int)
    requires
        from != to,
        0 <= i < switch_ops(from, to).len(),
        switch_ops(from, to)[i] is Drain,
    ensures
        switch_ops(from, to).take(i).contains(Op::Signal(switch_ops(from, to)[i]->signal)),
        switch_ops(from, to)[i]->repeats == 2,
{
    let ops = switch_ops(from, to);
    lemma_switch_at(from, to, i);
    let signal = ops[i]->signal;
    let s = signal_index(from, signal);
    lemma_switch_at(from, to, s);
    assert(ops.take(i)[s] == Op::Signal(signal));
}

/// The tune of a mode: the initial of what it is for, as the robot's users know it.
pub open spec fn tune_of(mode: Mode) -> char {
    match mode {
        Mode::Menu => 'q',
        Mode::TeleOp => 'T',
        Mode::TrajMocap => 'M',
        Mode::CtrlAction => 'A',
        Mode::TrajOnboard => 'F',
        Mode::TrajOnboard2 => 'G',
    }
}

/// The new mode's tune, and no other, can be played; it comes behind every task that the mode is
/// not complete without, and these are all its tasks but those that send or write the log.
pub proof fn law_tune_belongs_to_the_mode(from: Mode, to: Mode, i: int, j: int)
    requires
        from != to,
        0 <= i < switch_ops(from, to).len(),
        0 <= j < switch_ops(from, to).len(),
        switch_ops(from, to)[i] is BeepIfStarted,
    ensures
        switch_ops(from, to)[i]->BeepIfStarted_0 as int == tune_of(to) as int,
        switch_ops(from, to)[j] is BeepIfStarted ==> i == j,
        switch_ops(from, to)[j] matches Op::Spawn { task, counted } ==> {
            &&& counted <==> !(task is UartLog || task is SdLogging)
            &&& counted ==> j < i
        },
        switch_ops(from, to)[j] is TrySpawn ==> to == Mode::Menu && i < j,
{
    lemma_switch_at(from, to, i);
    lemma_switch_at(from, to, j);
}

/// Every mode has a tune.
pub proof fn law_every_mode_has_a_tune(from: Mode, to: Mode)
    requires
        from != to,
    ensures
        exists|i: int| 0 <= i < switch_ops(from, to).len() && #[trigger] switch_ops(from, to)[i]
            is BeepIfStarted,
{
    let n = teardown_ops(from).len() as int;
    let i = n + 7 + if follows_trajectory(to) {
        9int
    } else if to == Mode::Menu {
        2
    } else {
        3
    };
    lemma_switch_at(from, to, i);
    assert(switch_ops(from, to)[i] is BeepIfStarted);
}

/// A step is left out only if it is conditional: a tune because a counted task has not started, an
/// attempt to start a task, or the pause behind it, because the task has started already.
pub proof fn law_only_conditional_steps_are_left_out(op: Op, flags: Flags)
    ensures
        skipped(op, flags) <==> {
            ||| op is BeepIfStarted && !flags.started
            ||| op is TrySpawn && flags.placed
            ||| op is PauseUnlessPlaced && flags.placed
        },
{
}

/// What is known changes only by starting tasks: a counted task that fails spoils the tune for
/// good, and an attempt tells whether its task has started.
pub proof fn law_only_starting_tasks_changes_the_flags(op: Op, ok: bool, flags: Flags)
    ensures
        ({
            let after = flags_after(op, ok, flags);
            let failed = !ok && (op matches Op::Spawn { counted, .. } && counted);
            &&& after.started <==> flags.started && !failed
            &&& after.placed <==> if op is TrySpawn {
                ok
            } else {
                flags.placed
            }
        }),
{
}

} // verus!
