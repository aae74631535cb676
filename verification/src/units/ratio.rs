use vstd::prelude::*;

use super::scalar::Scalar;

verus! {

/// Dimensionless ratio, such as a mass ratio or a thrust-to-weight ratio.
#[derive(Clone, Copy, Debug, PartialEq, Eq, Structural)]
pub struct Ratio {
    pub value: Scalar,
}

impl Ratio {
    /// Makes the ratio `value`.
    pub fn new(value: Scalar) -> (r: Ratio)
        ensures
            r.value == value,
    {
        Ratio { value }
    }

    /// The ratio as a plain scalar.
    pub fn as_f64(self) -> (r: Scalar)
        ensures
            r == self.value,
    {
        self.value
    }
}

} // verus!
