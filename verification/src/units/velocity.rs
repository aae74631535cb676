use vstd::prelude::*;

use super::scalar::Scalar;

verus! {

/// Velocity in metres per second.
#[derive(Clone, Copy, Debug, PartialEq, Eq, Structural)]
pub struct Velocity {
    pub value: Scalar,
}

impl Velocity {
    /// Makes a velocity of `value` metres per second.
    pub fn mps(value: Scalar) -> (r: Velocity)
        ensures
            r.value == value,
    {
        Velocity { value }
    }

    /// The velocity in metres per second.
    pub fn as_mps(self) -> (r: Scalar)
        ensures
            r == self.value,
    {
        self.value
    }
}

} // verus!
