//! Linear gradients along one axis.
use vstd::prelude::*;
use crate::distance::{abs_diff, spec_abs_diff};
use crate::interpolation::{lerp, spec_lerp};

verus! {

/// A linear gradient from `value_start` at `start` to `value_end` at `start + length`.
#[derive(Copy, Clone, Debug, PartialEq, Eq, Structural)]
pub struct Gradient {
    pub value_start: u8,
    pub value_end: u8,
    pub start: u32,
    pub length: u32,
}

impl Gradient {
    /// `value_start` up to `start`, then the line towards `value_end`, reached after `length`.
    pub open spec fn spec_generate(self, input: u32) -> u8 {
        if input <= self.start {
            self.value_start
        } else {
            spec_lerp(self.value_start, self.value_end, (input - self.start) as nat, self.length as nat)
        }
    }

    /// `value_start` at `start`, falling off symmetrically on both sides towards `value_end`,
    /// reached at the distance `length`.
    pub open spec fn spec_generate_absolute(self, input: u32) -> u8 {
        spec_lerp(
            self.value_start,
            self.value_end,
            spec_abs_diff(self.start as int, input as int),
            self.length as nat,
        )
    }

    /// Creates a gradient.
    pub fn new(value_start: u8, value_end: u8, start: u32, length: u32) -> (r: Gradient)
        ensures
            r == (Gradient { value_start, value_end, start, length }),
    {
        Gradient { value_start, value_end, start, length }
    }

    /// Generates the gradient.
    pub fn generate(&self, input: u32) -> (r: u8)
        ensures
            r == self.spec_generate(input),
    {
        if input <= self.start {
            return self.value_start;
        }
        lerp(self.value_start, self.value_end, input - self.start, self.length)
    }

    /// Generates the absolute gradient.
    pub fn generate_absolute(&self, input: u32) -> (r: u8)
        ensures
            r == self.spec_generate_absolute(input),
    {
        lerp(self.value_start, self.value_end, abs_diff(self.start, input), self.length)
    }
}

/// The value of a linear gradient that starts at `start` and reaches its end after
/// `max_distance`, for a coordinate `c`.
pub open spec fn spec_linear_gradient(
    value_start: u8,
    value_end: u8,
    start: u32,
    max_distance: u32,
    c: u32,
) -> u8 {
    if c < start {
        value_start
    } else {
        spec_lerp(value_start, value_end, (c - start) as nat, max_distance as nat)
    }
}

/// A linear gradient along the x-axis.
#[derive(Copy, Clone, Debug, PartialEq, Eq, Structural)]
pub struct LinearGradientX {
    pub value_start: u8,
    pub value_end: u8,
    pub start: u32,
    pub max_distance: u32,
}

impl LinearGradientX {
    /// Creates a gradient along the x-axis.
    pub fn new(value_start: u8, value_end: u8, start: u32, max_distance: u32) -> (r: LinearGradientX)
        ensures
            r == (LinearGradientX { value_start, value_end, start, max_distance }),
    {
        LinearGradientX { value_start, value_end, start, max_distance }
    }

    /// Generates the value for the point `(x, y)`, which depends on `x` only.
    pub fn generate(&self, x: u32, y: u32) -> (r: u8)
        ensures
            r == spec_linear_gradient(
                self.value_start,
                self.value_end,
                self.start,
                self.max_distance,
                x,
            ),
    {
        if x < self.start {
            return self.value_start;
        }
        lerp(self.value_start, self.value_end, x - self.start, self.max_distance)
    }
}

/// A linear gradient along the y-axis.
#[derive(Copy, Clone, Debug, PartialEq, Eq, Structural)]
pub struct LinearGradientY {
    pub value_start: u8,
    pub value_end: u8,
    pub start: u32,
    pub max_distance: u32,
}

impl LinearGradientY {
    /// Creates a gradient along the y-axis.
    pub fn new(value_start: u8, value_end: u8, start: u32, max_distance: u32) -> (r: LinearGradientY)
        ensures
            r == (LinearGradientY { value_start, value_end, start, max_distance }),
    {
        LinearGradientY { value_start, value_end, start, max_distance }
    }

    /// Generates the value for the point `(x, y)`, which depends on `y` only.
    pub fn generate(&self, x: u32, y: u32) -> (r: u8)
        ensures
            r == spec_linear_gradient(
                self.value_start,
                self.value_end,
                self.start,
                self.max_distance,
                y,
            ),
    {
        if y < self.start {
            return self.value_start;
        }
        lerp(self.value_start, self.value_end, y - self.start, self.max_distance)
    }
}

} // verus!
