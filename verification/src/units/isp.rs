use vstd::prelude::*;

use super::scalar::Scalar;

verus! {

/// Specific impulse in seconds.
#[derive(Clone, Copy, Debug, PartialEq, Eq, Structural)]
pub struct Isp {
    pub value: Scalar,
}

impl Isp {
    /// Makes a specific impulse of `value` seconds.
    pub fn seconds(value: Scalar) -> (r: Isp)
        ensures
            r.value == value,
    {
        Isp { value }
    }

    /// The specific impulse in seconds.
    pub fn as_seconds(self) -> (r: Scalar)
        ensures
            r == self.value,
    {
        self.value
    }
}

} // verus!
