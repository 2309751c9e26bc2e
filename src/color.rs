//! Colors, and interpolation of values that a selector can pick.
use vstd::prelude::*;
use crate::interpolation::{lerp, spec_lerp};

verus! {

/// A value that can be interpolated linearly with a factor `numerator / denominator`,
/// limited to `[0, 1]`.
pub trait Interpolate: Sized + Copy {
    /// The value at the fraction `numerator / denominator` of the way from `self` to `other`.
    spec fn spec_interpolate(self, other: Self, numerator: nat, denominator: nat) -> Self;

    /// Interpolates between `self` and `other`.
    fn interpolate(&self, other: &Self, numerator: u32, denominator: u32) -> (r: Self)
        ensures
            r == self.spec_interpolate(*other, numerator as nat, denominator as nat),
    ;
}

impl Interpolate for u8 {
    open spec fn spec_interpolate(self, other: u8, numerator: nat, denominator: nat) -> u8 {
        spec_lerp(self, other, numerator, denominator)
    }

    fn interpolate(&self, other: &u8, numerator: u32, denominator: u32) -> (r: u8) {
        lerp(*self, *other, numerator, denominator)
    }
}

/// A color with red, green and blue channels.
#[derive(Clone, Copy, Debug, PartialEq, Eq, Structural)]
pub struct Color {
    pub r: u8,
    pub g: u8,
    pub b: u8,
}

impl Color {
    /// Creates a color.
    pub fn new(r: u8, g: u8, b: u8) -> (c: Color)
        ensures
            c == (Color { r, g, b }),
    {
        Color { r, g, b }
    }

    /// Creates a gray with the same value in all channels.
    pub fn gray(value: u8) -> (c: Color)
        ensures
            c == (Color { r: value, g: value, b: value }),
    {
        Color { r: value, g: value, b: value }
    }

    /// Returns the red channel.
    pub fn r(&self) -> (v: u8)
        ensures
            v == self.r,
    {
        self.r
    }

    /// Returns the green channel.
    pub fn g(&self) -> (v: u8)
        ensures
            v == self.g,
    {
        self.g
    }

    /// Returns the blue channel.
    pub fn b(&self) -> (v: u8)
        ensures
            v == self.b,
    {
        self.b
    }

    /// Returns the channels as `[r, g, b]`.
    pub fn to_array(&self) -> (a: [u8; 3])
        ensures
            a@ == seq![self.r, self.g, self.b],
    {
        let a = [self.r, self.g, self.b];
        assert(a@ =~= seq![self.r, self.g, self.b]);
        a
    }
}

impl Interpolate for Color {
    /// Each channel is interpolated on its own.
    open spec fn spec_interpolate(self, other: Color, numerator: nat, denominator: nat) -> Color {
        Color {
            r: spec_lerp(self.r, other.r, numerator, denominator),
            g: spec_lerp(self.g, other.g, numerator, denominator),
            b: spec_lerp(self.b, other.b, numerator, denominator),
        }
    }

    fn interpolate(&self, other: &Color, numerator: u32, denominator: u32) -> (r: Color) {
        Color {
            r: lerp(self.r, other.r, numerator, denominator),
            g: lerp(self.g, other.g, numerator, denominator),
            b: lerp(self.b, other.b, numerator, denominator),
        }
    }
}

} // verus!
