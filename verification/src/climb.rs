//! The climb action as the character motor sees it.
//!
//! The motor hands the action its context once per tick and gets back what
//! to do. What the action decides is here; the vector arithmetic on the
//! body's velocity is done by the caller, on the motor's own numbers.

use vstd::prelude::*;
use crate::controls::ClimbRequest;

verus! {

/// Name under which the motor knows the climb action.
pub const LADDER_ACTION_NAME: &'static str = "Ladder";

/// The climb action opts out of the grace period after leaving the ground:
/// leaving a ladder counts at once.
pub const VIOLATES_COYOTE_TIME: bool = true;

/// The climb action, as it is fed to the motor.
#[derive(Clone, Copy, Debug, PartialEq, Eq)]
pub struct LadderAction {
    /// Upward speed to reach, or `None` to end the climb.
    pub target_speed: Option<u32>,
}

/// Whether the motor may begin an action.
#[derive(Clone, Copy, Debug, PartialEq, Eq, Structural)]
pub enum Initiation {
    Reject,
    Delay,
    Allow,
}

/// What the action reports to the motor after a tick.
#[derive(Clone, Copy, Debug, PartialEq, Eq, Structural)]
pub enum Lifecycle {
    StillActive,
    Finished,
}

/// What the motor has to do for the climb in one tick.
#[derive(Clone, Copy, Debug, PartialEq, Eq)]
pub enum ClimbStep {
    /// The action is over: the motor is left untouched, so that walking and
    /// jumping decide this tick.
    Yield,
    /// Take the motor's linear term off the up axis and set its
    /// acceleration to `boost / frame_duration`, where `boost` is
    /// `up * target_speed` minus the body's velocity without its part along
    /// `up`.
    Drive { target_speed: u32 },
}

/// The step that an action with the given target speed asks for.
pub open spec fn step_for(target_speed: Option<u32>) -> ClimbStep {
    match target_speed {
        None => ClimbStep::Yield,
        Some(speed) => ClimbStep::Drive { target_speed: speed },
    }
}

/// What an action reports after the given step.
pub open spec fn lifecycle_after(step: ClimbStep) -> Lifecycle {
    match step {
        ClimbStep::Yield => Lifecycle::Finished,
        ClimbStep::Drive { .. } => Lifecycle::StillActive,
    }
}

impl LadderAction {
    /// The action for a climb request of the controller.
    pub fn from_request(request: ClimbRequest) -> (action: LadderAction)
        ensures
            action.target_speed == request.target_speed,
    {
        LadderAction { target_speed: request.target_speed }
    }

    /// Decides what the motor does in this tick.
    pub fn apply(&self) -> (step: ClimbStep)
        ensures
            step == step_for(self.target_speed),
    {
        match self.target_speed {
            None => ClimbStep::Yield,
            Some(speed) => ClimbStep::Drive { target_speed: speed },
        }
    }

    /// The report to the motor that goes with [`LadderAction::apply`]:
    /// finished exactly when the action has no target speed.
    pub fn lifecycle(&self) -> (report: Lifecycle)
        ensures
            report == lifecycle_after(step_for(self.target_speed)),
            report == Lifecycle::Finished <==> self.target_speed is None,
    {
        match self.target_speed {
            None => Lifecycle::Finished,
            Some(_) => Lifecycle::StillActive,
        }
    }

    /// The climb may begin whenever it is requested, on the ground or off it.
    pub fn initiation_decision(&self) -> (decision: Initiation)
        ensures
            decision == Initiation::Allow,
    {
        Initiation::Allow
    }
}

} // verus!
