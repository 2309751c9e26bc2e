//! The size of a 2d grid and the conversion between points and indices.
use vstd::prelude::*;

verus! {

/// The size of something (e.g. a map) in 2 dimensions.
///
/// Cells are numbered row by row: the cell at `(x, y)` has the index `y * width + x`.
#[derive(Copy, Clone, Debug, PartialEq, Eq, Structural)]
pub struct Size2d {
    pub width: u32,
    pub height: u32,
}

impl Size2d {
    /// The number of cells covered by this size.
    pub open spec fn spec_area(self) -> nat {
        (self.width * self.height) as nat
    }

    /// The index of the point `(x, y)`.
    pub open spec fn spec_index(self, x: int, y: int) -> int {
        y * self.width + x
    }

    /// The index of the point `(x, y)` after limiting it to the last column and row.
    pub open spec fn spec_saturating_index(self, x: int, y: int) -> int {
        let cx = if x < self.width - 1 { x } else { self.width - 1 };
        let cy = if y < self.height - 1 { y } else { self.height - 1 };
        self.spec_index(cx, cy)
    }

    /// Creates a new size.
    pub fn new(width: u32, height: u32) -> (r: Size2d)
        ensures
            r.width == width,
            r.height == height,
    {
        Size2d { width, height }
    }

    /// Returns the area covered by this size.
    pub fn get_area(&self) -> (r: usize)
        requires
            self.spec_area() <= usize::MAX,
        ensures
            r == self.spec_area(),
    {
        (self.width as usize) * (self.height as usize)
    }

    /// Returns the size along the x-axis.
    pub fn width(&self) -> (r: u32)
        ensures
            r == self.width,
    {
        self.width
    }

    /// Returns the size along the y-axis.
    pub fn height(&self) -> (r: u32)
        ensures
            r == self.height,
    {
        self.height
    }

    /// Converts an index to the x-coordinate of the equivalent point.
    pub fn to_x(&self, index: usize) -> (r: u32)
        requires
            self.width > 0,
            index < self.spec_area(),
        ensures
            r == index as int % (self.width as int),
    {
        (index % (self.width as usize)) as u32
    }

    /// Converts an index to the y-coordinate of the equivalent point.
    pub fn to_y(&self, index: usize) -> (r: u32)
        requires
            self.width > 0,
            index < self.spec_area(),
        ensures
            r == index as int / (self.width as int),
    {
        proof {
            vstd::arithmetic::div_mod::lemma_div_is_ordered(
                index as int,
                self.spec_area() as int,
                self.width as int,
            );
            vstd::arithmetic::div_mod::lemma_div_by_multiple(
                self.height as int,
                self.width as int,
            );
            vstd::arithmetic::mul::lemma_mul_is_commutative(
                self.width as int,
                self.height as int,
            );
        }
        (index / (self.width as usize)) as u32
    }

    /// Converts an index to the equivalent point `[x, y]`.
    pub fn to_x_and_y(&self, index: usize) -> (r: [u32; 2])
        requires
            self.width > 0,
            index < self.spec_area(),
        ensures
            r[0] == index as int % (self.width as int),
            r[1] == index as int / (self.width as int),
    {
        [self.to_x(index), self.to_y(index)]
    }

    /// Converts a point inside the size to the equivalent index.
    pub fn to_index(&self, x: u32, y: u32) -> (r: usize)
        requires
            x < self.width,
            y < self.height,
            self.spec_area() <= usize::MAX,
        ensures
            r == self.spec_index(x as int, y as int),
            r < self.spec_area(),
    {
        proof {
            vstd::arithmetic::mul::lemma_mul_inequality(
                y as int + 1,
                self.height as int,
                self.width as int,
            );
            vstd::arithmetic::mul::lemma_mul_is_distributive_add_other_way(
                self.width as int,
                y as int,
                1,
            );
            vstd::arithmetic::mul::lemma_mul_is_commutative(
                self.width as int,
                self.height as int,
            );
            vstd::arithmetic::mul::lemma_mul_is_commutative(self.width as int, y as int);
        }
        (y as usize) * (self.width as usize) + (x as usize)
    }

    /// Converts a point to the equivalent index.
    /// Coordinates outside the size are limited to the last column and row.
    pub fn saturating_to_index(&self, x: u32, y: u32) -> (r: usize)
        requires
            self.width > 0,
            self.height > 0,
            self.spec_area() <= usize::MAX,
        ensures
            r == self.spec_saturating_index(x as int, y as int),
            r < self.spec_area(),
    {
        let cx = if x < self.width - 1 { x } else { self.width - 1 };
        let cy = if y < self.height - 1 { y } else { self.height - 1 };
        self.to_index(cx, cy)
    }
}

} // verus!
