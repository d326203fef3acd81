use vstd::prelude::*;

verus! {

/// Bounds and base increment of one controllable axis.
#[derive(Clone, Copy, Debug, PartialEq, Eq, Structural)]
pub struct ControlConfig {
    pub min: i32,
    pub max: i32,
    pub step: i32,
}

impl ControlConfig {
    /// Bounds are ordered and the increment is positive.
    pub open spec fn wf(&self) -> bool {
        self.min <= self.max && self.step > 0
    }

    /// `v` restricted to `[min, max]`.
    pub open spec fn clamp_spec(&self, v: int) -> int {
        if v < self.min as int {
            self.min as int
        } else if v > self.max as int {
            self.max as int
        } else {
            v
        }
    }

    /// Restricts `value` to the inclusive range `[min, max]`.
    pub fn clamp(&self, value: i64) -> (r: i32)
        requires
            self.min <= self.max,
        ensures
            r as int == self.clamp_spec(value as int),
            self.min <= r <= self.max,
    {
        if value < self.min as i64 {
            self.min
        } else if value > self.max as i64 {
            self.max
        } else {
            value as i32
        }
    }
}

} // verus!
