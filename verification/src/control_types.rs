//! Types shared by the controllers.

use vstd::prelude::*;

verus! {

/// How following a trajectory ended.
#[derive(Clone, Copy, Debug, PartialEq, Eq, Structural)]
pub enum TrajectoryResult {
    Completed,
    Stopped,
}

} // verus!
