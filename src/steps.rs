//! The operations that change a map during its generation.
//!
//! Every step reads its sources in full, computes a complete new set of values, and only then
//! replaces the target attribute's values, so a step whose source is its target sees none of
//! its own writes.
use vstd::prelude::*;
use crate::generator2d::Generator2d;
use crate::map::{Map2d, MapView};
use crate::noise::NoiseSource;
use crate::size2d::Size2d;
use crate::transformer2d::Transformer2d;

verus! {

/// Where the cell with the index `i` lies: inside the size, at column `i % width` and row
/// `i / width`.
pub proof fn lemma_cell(size: Size2d, i: int)
    requires
        0 <= i < size.spec_area(),
    ensures
        size.width > 0,
        size.height > 0,
        0 <= i % (size.width as int) < size.width,
        0 <= i / (size.width as int) < size.height,
        (i / (size.width as int)) * size.width + i % (size.width as int) == i,
{
    let w = size.width as int;
    let h = size.height as int;
    assert(w > 0 && h > 0) by (nonlinear_arith)
        requires
            0 <= i < w * h,
            w >= 0,
            h >= 0,
    ;
    vstd::arithmetic::div_mod::lemma_fundamental_div_mod(i, w);
    vstd::arithmetic::div_mod::lemma_mod_bound(i, w);
    vstd::arithmetic::div_mod::lemma_div_pos_is_pos(i, w);
    assert(i / w < h) by (nonlinear_arith)
        requires
            i == w * (i / w) + i % w,
            0 <= i % w,
            i < w * h,
            w > 0,
    ;
}

/// The byte sum, limited to 255.
pub open spec fn spec_saturating_add(a: u8, b: u8) -> u8 {
    if a + b > 255 {
        255
    } else {
        (a + b) as u8
    }
}

/// The byte difference, limited to 0.
pub open spec fn spec_saturating_sub(a: u8, b: u8) -> u8 {
    if a < b {
        0
    } else {
        (a - b) as u8
    }
}

/// The column of the cell with the index `i`.
pub open spec fn cell_x(size: Size2d, i: int) -> u32 {
    (i % (size.width as int)) as u32
}

/// The row of the cell with the index `i`.
pub open spec fn cell_y(size: Size2d, i: int) -> u32 {
    (i / (size.width as int)) as u32
}

/// Adds a new attribute filled with a default value.
pub struct CreateAttribute {
    pub name: String,
    pub default: u8,
}

impl CreateAttribute {
    /// Creates the step.
    pub fn new(name: String, default: u8) -> (r: CreateAttribute)
        ensures
            r.name == name,
            r.default == default,
    {
        CreateAttribute { name, default }
    }

    /// Returns the name of the attribute to create.
    pub fn get_attribute(&self) -> (r: &str)
        ensures
            r@ == self.name@,
    {
        self.name.as_str()
    }

    /// Runs the step. A map that already holds the name stays unchanged.
    pub fn run(&self, map: &mut Map2d)
        requires
            old(map).wf(),
        ensures
            final(map).wf(),
            final(map)@ == old(map)@.spec_create(self.name@, self.default),
    {
        let _ = map.create_attribute(self.name.clone(), self.default);
    }
}

/// Adds the output of a generator to an attribute, or subtracts it.
pub struct GeneratorStep {
    pub attribute_id: usize,
    pub generator: Generator2d,
}

impl GeneratorStep {
    /// The values after adding the generator's output to each cell, limited to 255.
    pub open spec fn spec_added<N: NoiseSource>(&self, m: MapView, noise: &N) -> Seq<u8> {
        let old = m.values[self.attribute_id as int];
        Seq::new(
            old.len(),
            |i: int|
                spec_saturating_add(
                    old[i],
                    self.generator.spec_generate(cell_x(m.size, i), cell_y(m.size, i), noise),
                ),
        )
    }

    /// The values after subtracting the generator's output from each cell, limited to 0.
    pub open spec fn spec_subtracted<N: NoiseSource>(&self, m: MapView, noise: &N) -> Seq<u8> {
        let old = m.values[self.attribute_id as int];
        Seq::new(
            old.len(),
            |i: int|
                spec_saturating_sub(
                    old[i],
                    self.generator.spec_generate(cell_x(m.size, i), cell_y(m.size, i), noise),
                ),
        )
    }

    /// Whether the step can run on a map with `count` attributes.
    pub open spec fn valid_for(&self, count: nat) -> bool {
        self.attribute_id < count && self.generator.wf()
    }

    fn calculate<N: NoiseSource>(&self, map: &Map2d, noise: &N, add: bool) -> (r: Vec<u8>)
        requires
            map.wf(),
            self.valid_for(map@.names.len()),
        ensures
            add ==> r@ == self.spec_added(map@, noise),
            !add ==> r@ == self.spec_subtracted(map@, noise),
    {
        proof {
            map.lemma_view_wf();
        }
        let size = map.get_size();
        let area = size.get_area();
        let attribute = map.get_attribute(self.attribute_id);
        let ghost old = map@.values[self.attribute_id as int];
        assert(attribute.spec_values() == old);
        let mut values: Vec<u8> = Vec::with_capacity(area);
        let mut i: usize = 0;
        while i < area
            invariant
                area == size.spec_area(),
                size == map@.size,
                old.len() == area,
                attribute.spec_values() == old,
                old == map@.values[self.attribute_id as int],
                self.generator.wf(),
                0 <= i <= area,
                values@.len() == i,
                forall|j: int|
                    0 <= j < i ==> #[trigger] values@[j] == if add {
                        spec_saturating_add(
                            old[j],
                            self.generator.spec_generate(cell_x(size, j), cell_y(size, j), noise),
                        )
                    } else {
                        spec_saturating_sub(
                            old[j],
                            self.generator.spec_generate(cell_x(size, j), cell_y(size, j), noise),
                        )
                    },
            decreases area - i,
        {
            proof {
                lemma_cell(size, i as int);
            }
            let x = size.to_x(i);
            let y = size.to_y(i);
            let value = attribute.get(i);
            let generated = self.generator.generate(x, y, noise);
            let result = if add {
                if value as u16 + generated as u16 > 255 {
                    255
                } else {
                    value + generated
                }
            } else {
                if value < generated {
                    0
                } else {
                    value - generated
                }
            };
            values.push(result);
            i = i + 1;
        }
        if add {
            assert(values@ =~= self.spec_added(map@, noise));
        } else {
            assert(values@ =~= self.spec_subtracted(map@, noise));
        }
        values
    }

    /// Adds the generator's output to each cell of the attribute, limited to 255.
    pub fn add<N: NoiseSource>(&self, map: &mut Map2d, noise: &N)
        requires
            old(map).wf(),
            self.valid_for(old(map)@.names.len()),
        ensures
            final(map).wf(),
            final(map)@ == old(map)@.spec_replace(
                self.attribute_id as int,
                self.spec_added(old(map)@, noise),
            ),
    {
        let values = self.calculate(map, noise, true);
        proof {
            map.lemma_view_wf();
        }
        map.replace_values(self.attribute_id, values);
    }

    /// Subtracts the generator's output from each cell of the attribute, limited to 0.
    pub fn sub<N: NoiseSource>(&self, map: &mut Map2d, noise: &N)
        requires
            old(map).wf(),
            self.valid_for(old(map)@.names.len()),
        ensures
            final(map).wf(),
            final(map)@ == old(map)@.spec_replace(
                self.attribute_id as int,
                self.spec_subtracted(old(map)@, noise),
            ),
    {
        let values = self.calculate(map, noise, false);
        proof {
            map.lemma_view_wf();
        }
        map.replace_values(self.attribute_id, values);
    }
}

/// The target value after adding the source's part above `minimum`, scaled by
/// `percentage / 100 * 255 / (255 - minimum)` so that a source of 255 adds the full
/// percentage of 255. The sum is rounded down and limited to `[0, 255]`.
pub open spec fn spec_modified(source: u8, target: u8, percentage: i32, minimum: u8) -> u8 {
    if minimum == 255 {
        target
    } else {
        let above = if source > minimum { source - minimum } else { 0 };
        let denominator = 100 * (255 - minimum);
        let numerator = target * denominator + above * percentage * 255;
        if numerator <= 0 {
            0
        } else if numerator / denominator > 255 {
            255
        } else {
            (numerator / denominator) as u8
        }
    }
}

/// Computes [`spec_modified`].
fn modify_value(source: u8, target: u8, percentage: i32, minimum: u8) -> (r: u8)
    ensures
        r == spec_modified(source, target, percentage, minimum),
{
    if minimum == 255 {
        return target;
    }
    let above: i64 = if source > minimum { (source - minimum) as i64 } else { 0 };
    let denominator: i64 = 100 * (255 - minimum as i64);
    proof {
        assert(above * percentage * 255 <= 255 * 0x8000_0000 * 255) by (nonlinear_arith)
            requires
                0 <= above <= 255,
                percentage < 0x8000_0000,
        ;
        assert(above * percentage * 255 >= -(255 * 0x8000_0000 * 255)) by (nonlinear_arith)
            requires
                0 <= above <= 255,
                percentage >= -0x8000_0000,
        ;
        assert(target * denominator <= 255 * 25500) by (nonlinear_arith)
            requires
                target <= 255,
                0 < denominator <= 25500,
        ;
        assert(above * percentage * 255 == (above * percentage as int) * 255);
    }
    let numerator: i64 = target as i64 * denominator + above * (percentage as i64) * 255;
    if numerator <= 0 {
        0
    } else if numerator / denominator > 255 {
        255
    } else {
        (numerator / denominator) as u8
    }
}

/// Adds the values of a source attribute above a minimum, scaled, to a target attribute.
pub struct ModifyWithAttribute {
    pub source_id: usize,
    pub target_id: usize,
    pub percentage: i32,
    pub minimum: u8,
}

impl ModifyWithAttribute {
    /// Creates the step: `percentage` is the share of 255 added for a source of 255.
    pub fn new(source_id: usize, target_id: usize, percentage: i32, minimum: u8) -> (r: ModifyWithAttribute)
        ensures
            r == (ModifyWithAttribute { source_id, target_id, percentage, minimum }),
    {
        ModifyWithAttribute { source_id, target_id, percentage, minimum }
    }

    /// Whether the step can run on a map with `count` attributes.
    pub open spec fn valid_for(&self, count: nat) -> bool {
        self.source_id < count && self.target_id < count
    }

    /// The target's values after the step.
    pub open spec fn spec_values(&self, m: MapView) -> Seq<u8> {
        let source = m.values[self.source_id as int];
        let target = m.values[self.target_id as int];
        Seq::new(
            target.len(),
            |i: int| spec_modified(source[i], target[i], self.percentage, self.minimum),
        )
    }

    fn calculate_values(&self, map: &Map2d) -> (r: Vec<u8>)
        requires
            map.wf(),
            self.valid_for(map@.names.len()),
        ensures
            r@ == self.spec_values(map@),
    {
        proof {
            map.lemma_view_wf();
        }
        let area = map.get_size().get_area();
        let source = map.get_attribute(self.source_id);
        let target = map.get_attribute(self.target_id);
        let ghost s = map@.values[self.source_id as int];
        let ghost t = map@.values[self.target_id as int];
        assert(source.spec_values() == s);
        assert(target.spec_values() == t);
        let mut values: Vec<u8> = Vec::with_capacity(area);
        let mut i: usize = 0;
        while i < area
            invariant
                area == map@.size.spec_area(),
                s.len() == area,
                t.len() == area,
                source.spec_values() == s,
                target.spec_values() == t,
                0 <= i <= area,
                values@.len() == i,
                forall|j: int|
                    0 <= j < i ==> #[trigger] values@[j] == spec_modified(
                        s[j],
                        t[j],
                        self.percentage,
                        self.minimum,
                    ),
            decreases area - i,
        {
            values.push(modify_value(source.get(i), target.get(i), self.percentage, self.minimum));
            i = i + 1;
        }
        assert(values@ =~= self.spec_values(map@));
        values
    }

    /// Runs the step.
    pub fn run(&self, map: &mut Map2d)
        requires
            old(map).wf(),
            self.valid_for(old(map)@.names.len()),
        ensures
            final(map).wf(),
            final(map)@ == old(map)@.spec_replace(self.target_id as int, self.spec_values(old(map)@)),
    {
        let values = self.calculate_values(map);
        proof {
            map.lemma_view_wf();
        }
        map.replace_values(self.target_id, values);
    }
}

/// Combines 2 source attributes into a target attribute with a [`Transformer2d`].
pub struct TransformAttribute2d {
    pub name: String,
    pub source_id0: usize,
    pub source_id1: usize,
    pub target_id: usize,
    pub transformer: Transformer2d,
}

impl TransformAttribute2d {
    /// Creates the step.
    pub fn new(
        name: String,
        source_id0: usize,
        source_id1: usize,
        target_id: usize,
        transformer: Transformer2d,
    ) -> (r: TransformAttribute2d)
        ensures
            r == (TransformAttribute2d { name, source_id0, source_id1, target_id, transformer }),
    {
        TransformAttribute2d { name, source_id0, source_id1, target_id, transformer }
    }

    /// Whether the step can run on a map with `count` attributes.
    pub open spec fn valid_for(&self, count: nat) -> bool {
        self.source_id0 < count && self.source_id1 < count && self.target_id < count
    }

    /// The target's values after the step.
    pub open spec fn spec_values(&self, m: MapView) -> Seq<u8> {
        let source0 = m.values[self.source_id0 as int];
        let source1 = m.values[self.source_id1 as int];
        Seq::new(source0.len(), |i: int| self.transformer.spec_transform(source0[i], source1[i]))
    }

    fn transform(&self, map: &Map2d) -> (r: Vec<u8>)
        requires
            map.wf(),
            self.valid_for(map@.names.len()),
        ensures
            r@ == self.spec_values(map@),
    {
        proof {
            map.lemma_view_wf();
        }
        let area = map.get_size().get_area();
        let source0 = map.get_attribute(self.source_id0);
        let source1 = map.get_attribute(self.source_id1);
        let ghost s0 = map@.values[self.source_id0 as int];
        let ghost s1 = map@.values[self.source_id1 as int];
        assert(source0.spec_values() == s0);
        assert(source1.spec_values() == s1);
        let mut values: Vec<u8> = Vec::with_capacity(area);
        let mut i: usize = 0;
        while i < area
            invariant
                area == map@.size.spec_area(),
                s0.len() == area,
                s1.len() == area,
                source0.spec_values() == s0,
                source1.spec_values() == s1,
                0 <= i <= area,
                values@.len() == i,
                forall|j: int|
                    0 <= j < i ==> #[trigger] values@[j] == self.transformer.spec_transform(s0[j], s1[j]),
            decreases area - i,
        {
            values.push(self.transformer.transform(source0.get(i), source1.get(i)));
            i = i + 1;
        }
        assert(values@ =~= self.spec_values(map@));
        values
    }

    /// Runs the step.
    pub fn run(&self, map: &mut Map2d)
        requires
            old(map).wf(),
            self.valid_for(old(map)@.names.len()),
        ensures
            final(map).wf(),
            final(map)@ == old(map)@.spec_replace(self.target_id as int, self.spec_values(old(map)@)),
    {
        let values = self.transform(map);
        proof {
            map.lemma_view_wf();
        }
        map.replace_values(self.target_id, values);
    }
}

} // verus!
