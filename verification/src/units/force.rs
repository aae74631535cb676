use vstd::prelude::*;

use super::scalar::Scalar;

verus! {

/// Force in newtons.
#[derive(Clone, Copy, Debug, PartialEq, Eq, Structural)]
pub struct Force {
    pub value: Scalar,
}

impl Force {
    /// Makes a force of `value` newtons.
    pub fn newtons(value: Scalar) -> (r: Force)
        ensures
            r.value == value,
    {
        Force { value }
    }

    /// The force in newtons.
    pub fn as_newtons(self) -> (r: Scalar)
        ensures
            r == self.value,
    {
        self.value
    }
}

} // verus!
