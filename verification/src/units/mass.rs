use vstd::prelude::*;

use super::scalar::Scalar;

verus! {

/// Mass in kilograms.
#[derive(Clone, Copy, Debug, PartialEq, Eq, Structural)]
pub struct Mass {
    pub value: Scalar,
}

impl Mass {
    /// Makes a mass of `value` kilograms.
    pub fn kg(value: Scalar) -> (r: Mass)
        ensures
            r.value == value,
    {
        Mass { value }
    }

    /// The mass in kilograms.
    pub fn as_kg(self) -> (r: Scalar)
        ensures
            r == self.value,
    {
        self.value
    }
}

} // verus!
