//! The robot's modes, the messages that select them and the signals that end their tasks.

use vstd::prelude::*;

verus! {

/// What the robot is doing.
#[derive(Clone, Copy, Debug, PartialEq, Eq, Structural)]
pub enum Mode {
    Menu,
    TeleOp,
    TrajMocap,
    CtrlAction,
    TrajOnboard,
    TrajOnboard2,
}

/// A message to the orchestrator.
#[derive(Clone, Copy, Debug, PartialEq, Eq, Structural)]
pub enum OrchestratorMsg {
    SwitchTo(Mode),
}

/// The signals that tell tasks to stop.
#[derive(Clone, Copy, Debug, PartialEq, Eq, Structural)]
pub enum StopSignal {
    MenuUart,
    LogSending,
    TeleopUart,
    MotorCtrl,
    MocapUart,
    MocapUpdate,
    WheelInner,
    TrajOuter,
    Odom,
    Imu,
    PoseEst,
}

/// The number under which a mode is selected and reported.
pub open spec fn mode_number(mode: Mode) -> u8 {
    match mode {
        Mode::Menu => 0,
        Mode::TeleOp => 1,
        Mode::TrajMocap => 2,
        Mode::CtrlAction => 4,
        Mode::TrajOnboard => 5,
        Mode::TrajOnboard2 => 6,
    }
}

/// The mode that a command selects; `None` if it selects none.
pub open spec fn mode_selected(command: u8) -> Option<Mode> {
    if command == 0 {
        Some(Mode::Menu)
    } else if command == 1 {
        Some(Mode::TeleOp)
    } else if command == 2 {
        Some(Mode::TrajMocap)
    } else if command == 4 {
        Some(Mode::CtrlAction)
    } else if command == 5 {
        Some(Mode::TrajOnboard)
    } else if command == 6 {
        Some(Mode::TrajOnboard2)
    } else {
        None
    }
}

/// The mode that a command selects; `None` if it selects none.
pub fn mode_for_command(command: u8) -> (mode: Option<Mode>)
    ensures
        mode == mode_selected(command),
{
    match command {
        0 => Some(Mode::Menu),
        1 => Some(Mode::TeleOp),
        2 => Some(Mode::TrajMocap),
        4 => Some(Mode::CtrlAction),
        5 => Some(Mode::TrajOnboard),
        6 => Some(Mode::TrajOnboard2),
        _ => None,
    }
}

/// A mode is selected by the number under which it is reported, and by no other.
pub proof fn law_modes_are_selected_by_number(command: u8, mode: Mode)
    ensures
        mode_selected(command) == Some(mode) <==> command == mode_number(mode),
{
}

/// Length of a packet that writes a parameter.
pub const PARAMETER_WRITE_LEN: usize = 8;

/// What happened to the task that listens for commands in the menu.
#[derive(Clone, Copy, Debug, PartialEq, Eq, Structural)]
pub enum MenuEvent {
    /// The task is told to stop.
    Stop,
    /// A packet has arrived.
    Packet { len: usize },
    /// The packet was read as a selection; a foreign or broken one holds no command.
    Selection { command: Option<u8> },
    /// The packet was read as a parameter write, if it was one.
    Parameter { valid: bool },
    /// What was asked for is done.
    Done,
}

/// What the task that listens for commands in the menu asks for.
#[derive(Clone, Copy, Debug, PartialEq, Eq, Structural)]
pub enum MenuAction {
    Receive,
    ReadSelection,
    ReadParameter,
    Send(OrchestratorMsg),
    WriteParameter,
    Exit,
}

/// Packets are told apart by length; a selection that names a mode is passed on, a valid
/// parameter write is carried out, and everything else is ignored.
pub open spec fn menu_next(select_len: usize, event: MenuEvent) -> MenuAction {
    match event {
        MenuEvent::Stop => MenuAction::Exit,
        MenuEvent::Packet { len } => if len == select_len {
            MenuAction::ReadSelection
        } else if len == PARAMETER_WRITE_LEN {
            MenuAction::ReadParameter
        } else {
            MenuAction::Receive
        },
        MenuEvent::Selection { command: Some(number) } => match mode_selected(number) {
            Some(mode) => MenuAction::Send(OrchestratorMsg::SwitchTo(mode)),
            None => MenuAction::Receive,
        },
        MenuEvent::Parameter { valid: true } => MenuAction::WriteParameter,
        _ => MenuAction::Receive,
    }
}

/// What listening for commands in the menu does next; `select_len` is the length of a selection
/// packet.
pub fn menu_action(select_len: usize, event: MenuEvent) -> (action: MenuAction)
    ensures
        action == menu_next(select_len, event),
{
    match event {
        MenuEvent::Stop => MenuAction::Exit,
        MenuEvent::Packet { len } => if len == select_len {
            MenuAction::ReadSelection
        } else if len == PARAMETER_WRITE_LEN {
            MenuAction::ReadParameter
        } else {
            MenuAction::Receive
        },
        MenuEvent::Selection { command } => match command {
            Some(number) => match mode_for_command(number) {
                Some(mode) => MenuAction::Send(OrchestratorMsg::SwitchTo(mode)),
                None => MenuAction::Receive,
            },
            None => MenuAction::Receive,
        },
        MenuEvent::Parameter { valid } => if valid {
            MenuAction::WriteParameter
        } else {
            MenuAction::Receive
        },
        MenuEvent::Done => MenuAction::Receive,
    }
}

/// How many waits are left after one of `left`: none once the signal did not come.
pub open spec fn drain_left(left: nat, came: bool) -> nat {
    if came && left > 0 {
        (left - 1) as nat
    } else {
        0
    }
}

/// Clearing a signal that may have been raised several times.
#[derive(Clone, Copy, Debug, PartialEq, Eq, Structural)]
pub struct DrainSignal {
    /// How often the signal may still be waited for.
    pub left: u8,
}

impl DrainSignal {
    /// Waits for the signal `repeats` times at most.
    pub fn new(repeats: u8) -> (drain: Self)
        ensures
            drain.left == repeats,
    {
        DrainSignal { left: repeats }
    }

    /// Whether to wait for the signal once more.
    pub fn wants_wait(&self) -> (wait: bool)
        ensures
            wait == (self.left > 0),
    {
        self.left > 0
    }

    /// Takes in one wait: the signal came, or it did not come in time and there is nothing left
    /// to clear.
    pub fn waited(&mut self, came: bool)
        requires
            old(self).left > 0,
        ensures
            final(self).left == drain_left(old(self).left as nat, came),
    {
        if came {
            self.left = self.left - 1;
        } else {
            self.left = 0;
        }
    }
}

/// How many waits clearing a signal takes that is raised `raised` times, and how many raises they
/// clear.
pub open spec fn drain_run(left: nat, raised: nat) -> (nat, nat)
    decreases left,
{
    if left == 0 {
        (0, 0)
    } else {
        let came = raised > 0;
        let (waits, cleared) = drain_run(
            drain_left(left, came),
            (raised - if came {
                1int
            } else {
                0int
            }) as nat,
        );
        (waits + 1, cleared + if came {
            1nat
        } else {
            0nat
        })
    }
}

/// Clearing a signal takes no more waits than allowed, and clears every raise it has waits for.
pub proof fn law_drain_is_bounded(repeats: nat, raised: nat)
    ensures
        drain_run(repeats, raised).0 <= repeats,
        drain_run(repeats, raised).1 == if raised < repeats {
            raised
        } else {
            repeats
        },
    decreases repeats,
{
    if repeats > 0 && raised == 0 {
        assert(drain_run(0, 0) == (0nat, 0nat));
    } else if repeats > 0 {
        law_drain_is_bounded((repeats - 1) as nat, (raised - 1) as nat);
    }
}

/// A selection is passed on exactly if it names a mode, and as that mode; one that is no mode's
/// number, or holds no command, is ignored.
pub proof fn law_selection_is_passed_on(select_len: usize, command: u8, mode: Mode)
    ensures
        menu_next(select_len, MenuEvent::Selection { command: Some(command) }) == MenuAction::Send(
            OrchestratorMsg::SwitchTo(mode),
        ) <==> command == mode_number(mode),
        menu_next(select_len, MenuEvent::Selection { command: Some(command) })
            == MenuAction::Receive <==> forall|m: Mode| command != #[trigger] mode_number(m),
        menu_next(select_len, MenuEvent::Selection { command: None }) == MenuAction::Receive,
{
    assert(mode_number(Mode::Menu) == 0);
    assert(mode_number(Mode::TeleOp) == 1);
    assert(mode_number(Mode::TrajMocap) == 2);
    assert(mode_number(Mode::CtrlAction) == 4);
    assert(mode_number(Mode::TrajOnboard) == 5);
    assert(mode_number(Mode::TrajOnboard2) == 6);
}

/// A packet is read as a selection exactly if it is as long as one, and otherwise as a parameter
/// write exactly if it has eight bytes. A parameter is written exactly if the write is valid, and
/// the task exits exactly if it is told to; nothing else ends it or sends a message.
pub proof fn law_packets_are_told_apart(select_len: usize, event: MenuEvent)
    ensures
        ({
            let action = menu_next(select_len, event);
            &&& action == MenuAction::ReadSelection <==> event == (MenuEvent::Packet {
                len: select_len,
            })
            &&& action == MenuAction::ReadParameter <==> event == (MenuEvent::Packet { len: 8 })
                && select_len != 8
            &&& action == MenuAction::WriteParameter <==> event == (MenuEvent::Parameter {
                valid: true,
            })
            &&& action == MenuAction::Exit <==> event == MenuEvent::Stop
            &&& action is Send ==> event is Selection
        }),
{
}

/// Clearing a signal takes one wait for every raise, and one more to find that there is none left
/// if that is allowed.
pub proof fn law_drain_waits_once_per_raise(repeats: nat, raised: nat)
    ensures
        drain_run(repeats, raised).0 == if raised < repeats {
            raised + 1
        } else {
            repeats
        },
    decreases repeats,
{
    if repeats > 0 && raised == 0 {
        assert(drain_run(0, 0) == (0nat, 0nat));
    } else if repeats > 0 {
        law_drain_waits_once_per_raise((repeats - 1) as nat, (raised - 1) as nat);
    }
}

} // verus!
