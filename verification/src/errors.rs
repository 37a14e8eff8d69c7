//! The error taxonomy of the engine.

use vstd::prelude::*;

verus! {

#[derive(Clone, Copy, Debug, PartialEq, Eq, Structural)]
pub enum PhysicsError {
    /// A motor operation was aimed at a joint that is not revolute.
    InvalidJointKind,
    /// A link query used an out-of-range index or a stale body handle.
    LinkNotFound,
    /// A non-positive timestep was rejected; the prior timestep is kept.
    InvalidTimestep,
}

impl PhysicsError {
    /// A short description, for hosts that want to report the failure.
    pub fn describe(&self) -> (r: &'static str)
    {
        match self {
            PhysicsError::InvalidJointKind => "motor operation on a non-revolute joint",
            PhysicsError::LinkNotFound => "link index out of range or stale body handle",
            PhysicsError::InvalidTimestep => "timestep must be positive",
        }
    }
}

} // verus!
