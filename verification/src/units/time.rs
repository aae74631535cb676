use vstd::prelude::*;

use super::scalar::Scalar;

verus! {

/// Duration in seconds.
#[derive(Clone, Copy, Debug, PartialEq, Eq, Structural)]
pub struct Time {
    pub value: Scalar,
}

impl Time {
    /// Makes a duration of `value` seconds.
    pub fn seconds(value: Scalar) -> (r: Time)
        ensures
            r.value == value,
    {
        Time { value }
    }

    /// The duration in seconds.
    pub fn as_seconds(self) -> (r: Scalar)
        ensures
            r == self.value,
    {
        self.value
    }
}

} // verus!
