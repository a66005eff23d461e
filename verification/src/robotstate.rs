//! Shared robot data as it travels between tasks.
//!
//! Measured quantities are single precision numbers. The library never computes
//! with them: it carries, tests and stores their IEEE 754 words.

use vstd::prelude::*;

verus! {

/// Sign bit of a single precision word.
pub const SIGN_BIT: u32 = 0x8000_0000;

/// The word of a single precision number that compares equal to zero: `+0.0` and `-0.0`.
pub open spec fn is_zero_word(word: u32) -> bool {
    word == 0 || word == SIGN_BIT
}

/// Whether the number behind `word` compares equal to zero.
pub fn word_is_zero(word: u32) -> (zero: bool)
    ensures
        zero == is_zero_word(word),
{
    word == 0 || word == SIGN_BIT
}

/// Full pose: position and attitude.
#[derive(Clone, Copy, Debug, PartialEq, Eq, Structural)]
pub struct RobotPose {
    pub x: u32,
    pub y: u32,
    pub z: u32,
    pub roll: u32,
    pub pitch: u32,
    pub yaw: u32,
}

/// Desired pose with the feed-forward twist.
#[derive(Clone, Copy, Debug, PartialEq, Eq, Structural)]
pub struct Setpoint {
    pub x_des: u32,
    pub y_des: u32,
    pub yaw_des: u32,
    pub v_ff: u32,
    pub w_ff: u32,
}

/// A pair of wheel rates, commanded or measured.
#[derive(Clone, Copy, Debug, PartialEq, Eq, Structural)]
pub struct WheelRates {
    pub omega_l: u32,
    pub omega_r: u32,
}

/// Tracking error in the body frame.
#[derive(Clone, Copy, Debug, PartialEq, Eq, Structural)]
pub struct TrackingError {
    pub x_err: u32,
    pub y_err: u32,
    pub yaw_err: u32,
}

/// Motor duty cycles.
#[derive(Clone, Copy, Debug, PartialEq, Eq, Structural)]
pub struct MotorDuty {
    pub left: u32,
    pub right: u32,
}

/// Body twist measured by the wheels.
#[derive(Clone, Copy, Debug, PartialEq, Eq, Structural)]
pub struct OdomTwist {
    pub v: u32,
    pub w: u32,
}

/// One inertial sample.
#[derive(Clone, Copy, Debug, PartialEq, Eq, Structural)]
pub struct ImuSample {
    pub acc_x: u32,
    pub acc_y: u32,
    pub acc_z: u32,
    pub gyro_x: u32,
    pub gyro_y: u32,
    pub gyro_z: u32,
}

/// What can be logged to the SD card.
#[derive(Clone, Copy, Debug, PartialEq, Eq, Structural)]
pub enum LogEvent {
    EkfState(RobotPose),
    Setpoint(Setpoint),
    WheelCmd(WheelRates),
    TrackingError(TrackingError),
    Motor(MotorDuty),
    Encoder(WheelRates),
    Mocap(RobotPose),
    Odom(OdomTwist),
    Imu(ImuSample),
}

/// Planar pose the estimator starts from.
#[derive(Clone, Copy, Debug, PartialEq, Eq, Structural)]
pub struct EkfInitMsg {
    pub x: u32,
    pub y: u32,
    pub yaw: u32,
}

} // verus!
