//! Steps that shift the values of an attribute.
use vstd::prelude::*;
use crate::generator1d::Generator1d;
use crate::generator2d::Generator2d;
use crate::map::{Map2d, MapView};
use crate::noise::NoiseSource;
use crate::size2d::Size2d;
use crate::steps::{cell_x, cell_y, lemma_cell};

verus! {

/// Shifts the rows or the columns of an attribute by the output of a [`Generator1d`].
pub struct Distortion1d {
    pub attribute_id: usize,
    pub generator: Generator1d,
}

/// The value after shifting the row of the cell `i` to the right by the generator's output for
/// the row: the row's first value fills the cells that the shift leaves empty.
pub open spec fn spec_distorted_x(size: Size2d, old: Seq<u8>, shift: u8, i: int) -> u8 {
    let x = cell_x(size, i);
    let y = cell_y(size, i);
    if x < shift {
        old[y * size.width]
    } else {
        old[i - shift]
    }
}

/// The value after shifting the column of the cell `i` down by the generator's output for the
/// column: the column's first value fills the cells that the shift leaves empty.
pub open spec fn spec_distorted_y(size: Size2d, old: Seq<u8>, shift: u8, i: int) -> u8 {
    let x = cell_x(size, i);
    let y = cell_y(size, i);
    if y < shift {
        old[x as int]
    } else {
        old[i - shift * size.width]
    }
}

impl Distortion1d {
    /// Creates the step.
    pub fn new(attribute_id: usize, generator: Generator1d) -> (r: Distortion1d)
        ensures
            r.attribute_id == attribute_id,
            r.generator == generator,
    {
        Distortion1d { attribute_id, generator }
    }

    /// Whether the step can run on a map with `count` attributes.
    pub open spec fn valid_for(&self, count: nat) -> bool {
        self.attribute_id < count && self.generator.wf()
    }

    /// The values after shifting each row.
    pub open spec fn spec_along_x<N: NoiseSource>(&self, m: MapView, noise: &N) -> Seq<u8> {
        let old = m.values[self.attribute_id as int];
        Seq::new(
            old.len(),
            |i: int|
                spec_distorted_x(
                    m.size,
                    old,
                    self.generator.spec_generate(cell_y(m.size, i), noise),
                    i,
                ),
        )
    }

    /// The values after shifting each column.
    pub open spec fn spec_along_y<N: NoiseSource>(&self, m: MapView, noise: &N) -> Seq<u8> {
        let old = m.values[self.attribute_id as int];
        Seq::new(
            old.len(),
            |i: int|
                spec_distorted_y(
                    m.size,
                    old,
                    self.generator.spec_generate(cell_x(m.size, i), noise),
                    i,
                ),
        )
    }

    fn distort_map<N: NoiseSource>(&self, map: &Map2d, noise: &N, along_x: bool) -> (r: Vec<u8>)
        requires
            map.wf(),
            self.valid_for(map@.names.len()),
        ensures
            along_x ==> r@ == self.spec_along_x(map@, noise),
            !along_x ==> r@ == self.spec_along_y(map@, noise),
    {
        proof {
            map.lemma_view_wf();
        }
        let size = map.get_size();
        let area = size.get_area();
        let attribute = map.get_attribute(self.attribute_id);
        let ghost old = map@.values[self.attribute_id as int];
        assert(attribute.spec_values() == old);
        let mut values: Vec<u8> = Vec::with_capacity(area);
        let mut i: usize = 0;
        while i < area
            invariant
                area == size.spec_area(),
                size == map@.size,
                old.len() == area,
                attribute.spec_values() == old,
                old == map@.values[self.attribute_id as int],
                self.generator.wf(),
                0 <= i <= area,
                values@.len() == i,
                forall|j: int|
                    0 <= j < i ==> #[trigger] values@[j] == if along_x {
                        spec_distorted_x(
                            size,
                            old,
                            self.generator.spec_generate(cell_y(size, j), noise),
                            j,
                        )
                    } else {
                        spec_distorted_y(
                            size,
                            old,
                            self.generator.spec_generate(cell_x(size, j), noise),
                            j,
                        )
                    },
            decreases area - i,
        {
            proof {
                lemma_cell(size, i as int);
            }
            let x = size.to_x(i);
            let y = size.to_y(i);
            let value = if along_x {
                let shift = self.generator.generate(y, noise);
                if x < shift as u32 {
                    attribute.get(size.to_index(0, y))
                } else {
                    attribute.get(i - shift as usize)
                }
            } else {
                let shift = self.generator.generate(x, noise);
                if y < shift as u32 {
                    attribute.get(size.to_index(x, 0))
                } else {
                    let index = size.to_index(x, y - shift as u32);
                    proof {
                        assert((y - shift) * size.width == y * size.width - shift * size.width)
                            by (nonlinear_arith);
                    }
                    attribute.get(index)
                }
            };
            values.push(value);
            i = i + 1;
        }
        if along_x {
            assert(values@ =~= self.spec_along_x(map@, noise));
        } else {
            assert(values@ =~= self.spec_along_y(map@, noise));
        }
        values
    }

    /// Shifts each row of the attribute to the right by the generator's output for the row.
    pub fn distort_along_x<N: NoiseSource>(&self, map: &mut Map2d, noise: &N)
        requires
            old(map).wf(),
            self.valid_for(old(map)@.names.len()),
        ensures
            final(map).wf(),
            final(map)@ == old(map)@.spec_replace(
                self.attribute_id as int,
                self.spec_along_x(old(map)@, noise),
            ),
    {
        let values = self.distort_map(map, noise, true);
        proof {
            map.lemma_view_wf();
        }
        map.replace_values(self.attribute_id, values);
    }

    /// Shifts each column of the attribute down by the generator's output for the column.
    pub fn distort_along_y<N: NoiseSource>(&self, map: &mut Map2d, noise: &N)
        requires
            old(map).wf(),
            self.valid_for(old(map)@.names.len()),
        ensures
            final(map).wf(),
            final(map)@ == old(map)@.spec_replace(
                self.attribute_id as int,
                self.spec_along_y(old(map)@, noise),
            ),
    {
        let values = self.distort_map(map, noise, false);
        proof {
            map.lemma_view_wf();
        }
        map.replace_values(self.attribute_id, values);
    }
}

/// Moves the values of an attribute by the outputs of 2 [`Generator2d`], one per axis.
pub struct Distortion2d {
    pub attribute_id: usize,
    pub generator_x: Generator2d,
    pub generator_y: Generator2d,
}

impl Distortion2d {
    /// Creates the step.
    pub fn new(attribute_id: usize, generator_x: Generator2d, generator_y: Generator2d) -> (r: Distortion2d)
        ensures
            r.attribute_id == attribute_id,
            r.generator_x == generator_x,
            r.generator_y == generator_y,
    {
        Distortion2d { attribute_id, generator_x, generator_y }
    }

    /// Whether the step can run on a map with `count` attributes.
    pub open spec fn valid_for(&self, count: nat) -> bool {
        self.attribute_id < count && self.generator_x.wf() && self.generator_y.wf()
    }

    /// The values after the distortion: each cell `(x, y)` takes the value at
    /// `(x + dx, y + dy)`, limited to the last column and row.
    pub open spec fn spec_distorted<N: NoiseSource>(&self, m: MapView, noise: &N) -> Seq<u8> {
        let old = m.values[self.attribute_id as int];
        Seq::new(
            old.len(),
            |i: int|
                {
                    let x = cell_x(m.size, i);
                    let y = cell_y(m.size, i);
                    let dx = self.generator_x.spec_generate(x, y, noise);
                    let dy = self.generator_y.spec_generate(x, y, noise);
                    old[m.size.spec_saturating_index(x + dx, y + dy)]
                },
        )
    }

    fn distort_map<N: NoiseSource>(&self, map: &Map2d, noise: &N) -> (r: Vec<u8>)
        requires
            map.wf(),
            self.valid_for(map@.names.len()),
        ensures
            r@ == self.spec_distorted(map@, noise),
    {
        proof {
            map.lemma_view_wf();
        }
        let size = map.get_size();
        let area = size.get_area();
        let attribute = map.get_attribute(self.attribute_id);
        let ghost old = map@.values[self.attribute_id as int];
        assert(attribute.spec_values() == old);
        let mut values: Vec<u8> = Vec::with_capacity(area);
        let mut i: usize = 0;
        while i < area
            invariant
                area == size.spec_area(),
                size == map@.size,
                old.len() == area,
                attribute.spec_values() == old,
                old == map@.values[self.attribute_id as int],
                self.generator_x.wf(),
                self.generator_y.wf(),
                0 <= i <= area,
                values@.len() == i,
                forall|j: int|
                    0 <= j < i ==> #[trigger] values@[j] == old[size.spec_saturating_index(
                        cell_x(size, j) + self.generator_x.spec_generate(cell_x(size, j), cell_y(size, j), noise),
                        cell_y(size, j) + self.generator_y.spec_generate(cell_x(size, j), cell_y(size, j), noise),
                    )],
            decreases area - i,
        {
            proof {
                lemma_cell(size, i as int);
            }
            let x = size.to_x(i);
            let y = size.to_y(i);
            let shift_x = self.generator_x.generate(x, y, noise);
            let shift_y = self.generator_y.generate(x, y, noise);
            let distorted_x = if x as u64 + shift_x as u64 > u32::MAX as u64 {
                u32::MAX
            } else {
                x + shift_x as u32
            };
            let distorted_y = if y as u64 + shift_y as u64 > u32::MAX as u64 {
                u32::MAX
            } else {
                y + shift_y as u32
            };
            let index = size.saturating_to_index(distorted_x, distorted_y);
            values.push(attribute.get(index));
            i = i + 1;
        }
        assert(values@ =~= self.spec_distorted(map@, noise));
        values
    }

    /// Runs the step.
    pub fn run<N: NoiseSource>(&self, map: &mut Map2d, noise: &N)
        requires
            old(map).wf(),
            self.valid_for(old(map)@.names.len()),
        ensures
            final(map).wf(),
            final(map)@ == old(map)@.spec_replace(
                self.attribute_id as int,
                self.spec_distorted(old(map)@, noise),
            ),
    {
        let values = self.distort_map(map, noise);
        proof {
            map.lemma_view_wf();
        }
        map.replace_values(self.attribute_id, values);
    }
}

} // verus!
