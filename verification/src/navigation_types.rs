//! Validated wrappers for navigation values, in milli-units.

use vstd::prelude::*;

verus! {

/// Course direction, in milli-units of the continuous range [1.0, 9.0):
/// 1000 here is course 1.  The nine integer headings are the eight compass
/// directions (heading 9 closes the circle back onto heading 1, so course
/// 9 itself is no heading); a fractional course interpolates between the
/// two bracketing headings.
#[derive(Debug, Clone, Copy, PartialEq, Eq, Structural)]
pub struct Course {
    pub milli: i64,
}


impl Course {
    /// Accept a course in milli-units of [1.0, 9.0).
    pub fn new(value: i64) -> (r: Result<Course, &'static str>)
        ensures
            1000 <= value < 9000 <==> r is Ok,
            r matches Ok(c) ==> c.milli == value,
    {
        if 1000 <= value && value < 9000 {
            Ok(Course { milli: value })
        } else {
            Err("Course must be at least 1.0 and below 9.0")
        }
    }

    /// The course value in milli-units.
    pub open spec fn spec_value(self) -> i64 {
        self.milli
    }

    /// The course value in milli-units.
    pub fn value(&self) -> (r: i64)
        ensures
            r == self.spec_value(),
    {
        self.milli
    }
}

/// Warp factor, in milli-units of the continuous range [0.0, 8.0]:
/// 1000 here is warp 1.  Sub-warp speeds (below warp 1) advance no time on
/// an intra-quadrant move.
#[derive(Debug, Clone, Copy, PartialEq, Eq, Structural)]
pub struct WarpFactor {
    pub milli: i64,
}

impl WarpFactor {
    /// Accept a warp factor in milli-units of [0.0, 8.0].
    pub fn new(value: i64) -> (r: Result<WarpFactor, &'static str>)
        ensures
            0 <= value <= 8000 <==> r is Ok,
            r matches Ok(w) ==> w.milli == value,
    {
        if 0 <= value && value <= 8000 {
            Ok(WarpFactor { milli: value })
        } else {
            Err("Warp factor must be between 0.0 and 8.0")
        }
    }

    /// The warp factor in milli-units.
    pub open spec fn spec_value(self) -> i64 {
        self.milli
    }

    /// The warp factor in milli-units.
    pub fn value(&self) -> (r: i64)
        ensures
            r == self.spec_value(),
    {
        self.milli
    }

    /// Check if this is sub-warp speed (below warp 1).
    pub fn is_subwarp(&self) -> (r: bool)
        ensures
            r == (self.spec_value() < 1000),
    {
        self.milli < 1000
    }

    /// Check if this is full warp speed (warp 1 or above).
    pub fn is_warp(&self) -> (r: bool)
        ensures
            r == (self.spec_value() >= 1000),
    {
        self.milli >= 1000
    }
}

} // verus!
