use vstd::prelude::*;

verus! {

/// A playback quantity in thousandths of a unit (milliunits).
///
/// The host deals in rates, timestamps, durations and volumes, but the
/// heuristics read nothing of those values beyond their ordering, their sign
/// and a few exact quotients, all of which milliunit fixed point carries as
/// plain integers. `Undefined` stands for a host reading that no comparison
/// orders (a missing or ill-formed value): every ordering test against it is
/// false, so each boolean heuristic fails closed on such an input.
#[derive(Clone, Copy, Debug, PartialEq, Eq, Structural)]
pub enum Scalar {
    /// No usable value: every ordering test against it is false.
    Undefined,
    /// A definite value, counted in thousandths of a unit.
    Milli(i64),
}

impl Scalar {
    /// Strictly below: false whenever either side is `Undefined`.
    pub open spec fn spec_lt(self, rhs: Scalar) -> bool {
        match (self, rhs) {
            (Scalar::Milli(a), Scalar::Milli(b)) => a < b,
            _ => false,
        }
    }

    /// Strictly above: false whenever either side is `Undefined`.
    pub open spec fn spec_gt(self, rhs: Scalar) -> bool {
        rhs.spec_lt(self)
    }

    /// The smaller operand, preferring a definite value over `Undefined`.
    pub open spec fn spec_min(self, rhs: Scalar) -> Scalar {
        match (self, rhs) {
            (Scalar::Milli(a), Scalar::Milli(b)) => if a <= b {
                self
            } else {
                rhs
            },
            (Scalar::Undefined, _) => rhs,
            (_, Scalar::Undefined) => self,
        }
    }

    /// The larger operand, preferring a definite value over `Undefined`.
    pub open spec fn spec_max(self, rhs: Scalar) -> Scalar {
        match (self, rhs) {
            (Scalar::Milli(a), Scalar::Milli(b)) => if a >= b {
                self
            } else {
                rhs
            },
            (Scalar::Undefined, _) => rhs,
            (_, Scalar::Undefined) => self,
        }
    }

    /// Whether this scalar is strictly below `rhs`.
    pub fn is_below(self, rhs: Scalar) -> (r: bool)
        ensures
            r == self.spec_lt(rhs),
    {
        match (self, rhs) {
            (Scalar::Milli(a), Scalar::Milli(b)) => a < b,
            _ => false,
        }
    }

    /// Whether this scalar is strictly above `rhs`.
    pub fn is_above(self, rhs: Scalar) -> (r: bool)
        ensures
            r == self.spec_gt(rhs),
    {
        rhs.is_below(self)
    }

    /// The smaller operand, preferring a definite value over `Undefined`.
    pub fn defined_min(self, rhs: Scalar) -> (r: Scalar)
        ensures
            r == self.spec_min(rhs),
    {
        match (self, rhs) {
            (Scalar::Milli(a), Scalar::Milli(b)) => if a <= b {
                self
            } else {
                rhs
            },
            (Scalar::Undefined, _) => rhs,
            (_, Scalar::Undefined) => self,
        }
    }

    /// The larger operand, preferring a definite value over `Undefined`.
    pub fn defined_max(self, rhs: Scalar) -> (r: Scalar)
        ensures
            r == self.spec_max(rhs),
    {
        match (self, rhs) {
            (Scalar::Milli(a), Scalar::Milli(b)) => if a >= b {
                self
            } else {
                rhs
            },
            (Scalar::Undefined, _) => rhs,
            (_, Scalar::Undefined) => self,
        }
    }
}

} // verus!
