//! Exact physical values.
//!
//! Decoded telemetry values are quotients of small integers (every decode
//! formula is `raw * scale + offset` with rational constants), so a value is
//! kept as an exact fraction `num / den` rather than as an approximation.

use vstd::prelude::*;

verus! {

/// An exact physical value, the fraction `num / den`.
///
/// Values produced by the decode pipeline keep the denominator of the
/// formula that made them; no reduction is performed.
#[derive(Clone, Copy, Debug, PartialEq, Eq, Structural)]
pub struct PhysValue {
    /// Numerator.
    pub num: i128,
    /// Denominator; positive for any well-formed value.
    pub den: i128,
}

impl PhysValue {
    /// A well-formed value has a positive denominator.
    pub open spec fn wf(self) -> bool {
        self.den > 0
    }

    /// Builds the fraction `num / den`.
    pub fn new(num: i128, den: i128) -> (r: PhysValue)
        requires
            den > 0,
        ensures
            r.wf(),
            r.num == num,
            r.den == den,
    {
        PhysValue { num, den }
    }
}

} // verus!
