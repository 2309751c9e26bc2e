//! A named grid of bytes, one per cell of a map.
use vstd::prelude::*;
use crate::size2d::Size2d;

verus! {

/// A value with a specific meaning for each cell of a map, e.g. elevation, rainfall or
/// temperature.
///
/// It holds exactly one value per cell of its size, for its whole lifetime.
#[derive(Debug)]
pub struct Attribute {
    name: String,
    size: Size2d,
    values: Vec<u8>,
}

impl Attribute {
    /// The name.
    pub closed spec fn spec_name(&self) -> Seq<char> {
        self.name@
    }

    /// The size of the map.
    pub closed spec fn spec_size(&self) -> Size2d {
        self.size
    }

    /// The values, cell by cell.
    pub closed spec fn spec_values(&self) -> Seq<u8> {
        self.values@
    }

    /// One value for each cell.
    pub open spec fn wf(&self) -> bool {
        self.spec_values().len() == self.spec_size().spec_area()
    }

    /// Returns an attribute filled with a default value.
    pub fn default_value(name: String, size: Size2d, default: u8) -> (r: Attribute)
        requires
            size.spec_area() <= usize::MAX,
        ensures
            r.wf(),
            r.spec_name() == name@,
            r.spec_size() == size,
            r.spec_values() == Seq::new(size.spec_area(), |i: int| default),
    {
        let area = size.get_area();
        let values = vec![default; area];
        assert(values@ =~= Seq::new(size.spec_area(), |i: int| default));
        Attribute { name, size, values }
    }

    /// Returns an attribute with the given values, one per cell.
    pub fn new(name: String, size: Size2d, values: Vec<u8>) -> (r: Attribute)
        requires
            values@.len() == size.spec_area(),
        ensures
            r.wf(),
            r.spec_name() == name@,
            r.spec_size() == size,
            r.spec_values() == values@,
    {
        Attribute { name, size, values }
    }

    /// Returns the name of the attribute.
    pub fn get_name(&self) -> (r: &str)
        ensures
            r@ == self.spec_name(),
    {
        self.name.as_str()
    }

    /// Returns the size of the map.
    pub fn get_size(&self) -> (r: &Size2d)
        ensures
            *r == self.spec_size(),
    {
        &self.size
    }

    /// Returns the value at the index.
    pub fn get(&self, index: usize) -> (r: u8)
        requires
            index < self.spec_values().len(),
        ensures
            r == self.spec_values()[index as int],
    {
        self.values[index]
    }

    /// Returns the mutable value at the index.
    pub fn get_mut(&mut self, index: usize) -> (r: &mut u8)
        requires
            index < old(self).spec_values().len(),
        ensures
            *r == old(self).spec_values()[index as int],
            final(self).spec_name() == old(self).spec_name(),
            final(self).spec_size() == old(self).spec_size(),
            final(self).spec_values() == old(self).spec_values().update(index as int, *final(r)),
            old(self).wf() ==> final(self).wf(),
    {
        &mut self.values[index]
    }

    /// Returns a reference to the values.
    pub fn get_all(&self) -> (r: &Vec<u8>)
        ensures
            r@ == self.spec_values(),
    {
        &self.values
    }

    /// Replaces the attribute's values. There must be as many new values as old ones.
    pub fn replace_values(&mut self, values: Vec<u8>)
        requires
            values@.len() == old(self).spec_values().len(),
        ensures
            final(self).spec_name() == old(self).spec_name(),
            final(self).spec_size() == old(self).spec_size(),
            final(self).spec_values() == values@,
            old(self).wf() ==> final(self).wf(),
    {
        self.values = values;
    }
}

} // verus!
