//! What happens once, before the first mode switch.

use vstd::prelude::*;

verus! {

/// The robot's number if the card does not give one.
pub const DEFAULT_ROBOT_ID: u8 = 7;

/// A step of starting up.
#[derive(Clone, Copy, Debug, PartialEq, Eq, Structural)]
pub enum BootOp {
    ShareLed,
    ShareLogger,
    StartEncoders,
    /// Start a task that the robot cannot do without.
    StartUart,
    StartBuzzer,
    StartMenu,
    /// Make the configuration known, or the default one if the card gives none.
    ShareConfig,
}

/// The steps of starting up.
pub open spec fn boot_ops(has_led: bool, has_logger: bool) -> Seq<BootOp> {
    (if has_led {
        seq![BootOp::ShareLed]
    } else {
        seq![]
    }) + (if has_logger {
        seq![BootOp::ShareLogger]
    } else {
        seq![]
    }) + seq![
        BootOp::StartEncoders,
        BootOp::StartUart,
        BootOp::StartBuzzer,
        BootOp::StartMenu,
        BootOp::ShareConfig,
    ]
}

/// The steps of starting up, on a robot with or without an LED and a logger.
pub fn boot_plan(has_led: bool, has_logger: bool) -> (ops: Vec<BootOp>)
    ensures
        ops@ == boot_ops(has_led, has_logger),
{
    let mut ops: Vec<BootOp> = Vec::new();
    if has_led {
        ops.push(BootOp::ShareLed);
    }
    if has_logger {
        ops.push(BootOp::ShareLogger);
    }
    ops.push(BootOp::StartEncoders);
    ops.push(BootOp::StartUart);
    ops.push(BootOp::StartBuzzer);
    ops.push(BootOp::StartMenu);
    ops.push(BootOp::ShareConfig);
    ops
}

/// The robot's number: the configured one if there is one.
pub open spec fn robot_number(configured: Option<u8>) -> u8 {
    match configured {
        Some(given) => given,
        None => DEFAULT_ROBOT_ID,
    }
}

/// The robot's number: the configured one if there is one.
pub fn robot_id(configured: Option<u8>) -> (id: u8)
    ensures
        id == robot_number(configured),
{
    match configured {
        Some(given) => given,
        None => DEFAULT_ROBOT_ID,
    }
}

/// An LED and a logger are shared exactly if they are there, before anything starts. Everything
/// else happens on every robot: the encoders, then the serial line, the buzzer and the menu, and
/// the configuration last.
pub proof fn law_boot_shares_what_is_there(has_led: bool, has_logger: bool)
    ensures
        ({
            let ops = boot_ops(has_led, has_logger);
            let shared = ops.len() - 5;
            &&& ops.contains(BootOp::ShareLed) <==> has_led
            &&& ops.contains(BootOp::ShareLogger) <==> has_logger
            &&& has_led ==> ops[0] == BootOp::ShareLed
            &&& shared == (if has_led {
                1int
            } else {
                0int
            }) + (if has_logger {
                1int
            } else {
                0int
            })
            &&& ops[shared] == BootOp::StartEncoders
            &&& ops[shared + 1] == BootOp::StartUart
            &&& ops[shared + 2] == BootOp::StartBuzzer
            &&& ops[shared + 3] == BootOp::StartMenu
            &&& ops[shared + 4] == BootOp::ShareConfig
        }),
{
    let ops = boot_ops(has_led, has_logger);
    let shared = ops.len() - 5;
    if has_led {
        assert(ops[0] == BootOp::ShareLed);
    }
    if has_logger {
        assert(ops[shared - 1] == BootOp::ShareLogger);
    }
}

/// A configured number is kept, whatever it is; a robot without one is number seven.
pub proof fn law_configured_number_is_kept(number: u8)
    ensures
        robot_number(Some(number)) == number,
        robot_number(None) == 7,
{
}

} // verus!
