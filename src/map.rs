//! A named 2d map: a grid of cells holding uniquely named attributes.
use vstd::prelude::*;
use crate::attribute::Attribute;
use crate::size2d::Size2d;

verus! {

/// Represents a 2d region or world map.
///
/// Attributes are only ever appended; their names are unique and each has the map's size.
pub struct Map2d {
    name: String,
    size: Size2d,
    attributes: Vec<Attribute>,
}

/// The contents of a map: its name, its size, and the names and values of its attributes in
/// the order they were created.
pub struct MapView {
    pub name: Seq<char>,
    pub size: Size2d,
    pub names: Seq<Seq<char>>,
    pub values: Seq<Seq<u8>>,
}

impl MapView {
    /// A map without attributes.
    pub open spec fn empty(name: Seq<char>, size: Size2d) -> MapView {
        MapView { name, size, names: Seq::empty(), values: Seq::empty() }
    }

    /// The map after creating an attribute filled with `default`; unchanged if the name is taken.
    pub open spec fn spec_create(self, name: Seq<char>, default: u8) -> MapView {
        if self.names.contains(name) {
            self
        } else {
            MapView {
                names: self.names.push(name),
                values: self.values.push(Seq::new(self.size.spec_area(), |i: int| default)),
                ..self
            }
        }
    }

    /// The map after replacing the values of the attribute `id`.
    pub open spec fn spec_replace(self, id: int, values: Seq<u8>) -> MapView {
        MapView { values: self.values.update(id, values), ..self }
    }

    /// Whether the contents can be those of a map: one value per cell, unique names.
    pub open spec fn wf(self) -> bool {
        &&& self.size.spec_area() <= usize::MAX
        &&& self.values.len() == self.names.len()
        &&& forall|i: int| 0 <= i < self.values.len() ==> (#[trigger] self.values[i]).len() == self.size.spec_area()
        &&& names_unique(self.names)
    }
}

/// The index of the first name in `names` equal to `name`, if any.
pub open spec fn spec_find(names: Seq<Seq<char>>, name: Seq<char>) -> Option<int>
    decreases names.len(),
{
    if names.len() == 0 {
        None
    } else {
        match spec_find(names.drop_last(), name) {
            Some(i) => Some(i),
            None => if names.last() == name {
                Some(names.len() - 1)
            } else {
                None
            },
        }
    }
}

/// What [`spec_find`] returns: the first index holding the name.
pub proof fn lemma_find(names: Seq<Seq<char>>, name: Seq<char>)
    ensures
        spec_find(names, name) matches Some(i) ==> 0 <= i < names.len() && names[i] == name && (
        forall|j: int| 0 <= j < i ==> names[j] != name),
        spec_find(names, name) is None <==> (forall|j: int| 0 <= j < names.len() ==> names[j] != name),
    decreases names.len(),
{
    if names.len() > 0 {
        lemma_find(names.drop_last(), name);
        assert forall|j: int| 0 <= j < names.len() - 1 implies names.drop_last()[j] == names[j] by {}
    }
}

/// Whether no name appears twice.
pub open spec fn names_unique(names: Seq<Seq<char>>) -> bool {
    forall|i: int, j: int| 0 <= i < names.len() && 0 <= j < names.len() && i != j ==> names[i] != names[j]
}

impl View for Map2d {
    type V = MapView;

    open spec fn view(&self) -> MapView {
        MapView {
            name: self.spec_name(),
            size: self.spec_size(),
            names: self.spec_names(),
            values: self.spec_attributes().map_values(|a: Attribute| a.spec_values()),
        }
    }
}

impl Map2d {
    /// The name.
    pub closed spec fn spec_name(&self) -> Seq<char> {
        self.name@
    }

    /// The size.
    pub closed spec fn spec_size(&self) -> Size2d {
        self.size
    }

    /// The attributes, in the order they were created.
    pub closed spec fn spec_attributes(&self) -> Seq<Attribute> {
        self.attributes@
    }

    /// The names of the attributes, in the order they were created.
    pub open spec fn spec_names(&self) -> Seq<Seq<char>> {
        self.spec_attributes().map_values(|a: Attribute| a.spec_name())
    }

    /// The values of the attribute with the id.
    pub open spec fn spec_values(&self, id: int) -> Seq<u8> {
        self.spec_attributes()[id].spec_values()
    }

    /// The map's invariant: every attribute has one value per cell of the map, and the names
    /// are unique.
    pub open spec fn wf(&self) -> bool {
        &&& self.spec_size().spec_area() <= usize::MAX
        &&& forall|i: int|
            0 <= i < self.spec_attributes().len() ==> (#[trigger] self.spec_attributes()[i]).wf()
                && self.spec_attributes()[i].spec_size() == self.spec_size()
        &&& names_unique(self.spec_names())
    }

    /// The contents of a well-formed map are well-formed: every attribute holds exactly one
    /// value per cell of the map's size, and the names are unique.
    pub proof fn lemma_view_wf(&self)
        requires
            self.wf(),
        ensures
            self@.wf(),
    {
        assert forall|i: int| 0 <= i < self@.values.len() implies (#[trigger] self@.values[i]).len()
            == self@.size.spec_area() by {
            assert(self.spec_attributes()[i].wf());
        }
    }

    /// Whether this map is `old` with the values of the attribute `id` replaced by `values`.
    pub open spec fn values_replaced(&self, old: Map2d, id: int, values: Seq<u8>) -> bool {
        &&& self.wf()
        &&& self.spec_name() == old.spec_name()
        &&& self.spec_size() == old.spec_size()
        &&& self.spec_attributes().len() == old.spec_attributes().len()
        &&& self.spec_names() == old.spec_names()
        &&& forall|j: int|
            0 <= j < old.spec_attributes().len() && j != id ==> #[trigger] self.spec_attributes()[j]
                == old.spec_attributes()[j]
        &&& self.spec_attributes()[id].spec_size() == old.spec_attributes()[id].spec_size()
        &&& self.spec_values(id) == values
    }

    /// Returns a new map named "test".
    pub fn new(size: Size2d) -> (r: Map2d)
        requires
            size.spec_area() <= usize::MAX,
        ensures
            r.wf(),
            r.spec_name() == "test"@,
            r.spec_size() == size,
            r.spec_attributes().len() == 0,
    {
        Map2d::with_name("test".to_string(), size)
    }

    /// Returns a map with a name and no attributes.
    pub fn with_name(name: String, size: Size2d) -> (r: Map2d)
        requires
            size.spec_area() <= usize::MAX,
        ensures
            r.wf(),
            r.spec_name() == name@,
            r.spec_size() == size,
            r.spec_attributes().len() == 0,
    {
        Map2d { name, size, attributes: Vec::new() }
    }

    /// Returns the name of the map.
    pub fn get_name(&self) -> (r: &str)
        ensures
            r@ == self.spec_name(),
    {
        self.name.as_str()
    }

    /// Returns the size of the map.
    pub fn get_size(&self) -> (r: Size2d)
        ensures
            r == self.spec_size(),
    {
        self.size
    }

    /// Returns the number of attributes.
    pub fn len(&self) -> (r: usize)
        ensures
            r == self.spec_attributes().len(),
    {
        self.attributes.len()
    }

    /// Adds a new attribute filled with a default value, and returns its id.
    /// Fails if the map already holds an attribute with the same name.
    pub fn create_attribute(&mut self, name: String, default: u8) -> (r: Option<usize>)
        requires
            old(self).wf(),
        ensures
            final(self).wf(),
            final(self).spec_name() == old(self).spec_name(),
            final(self).spec_size() == old(self).spec_size(),
            final(self)@ == old(self)@.spec_create(name@, default),
            old(self).spec_names().contains(name@) ==> r is None && *final(self) == *old(self),
            !old(self).spec_names().contains(name@) ==> r == Some(
                old(self).spec_attributes().len() as usize,
            ) && final(self).spec_attributes().len() == old(self).spec_attributes().len() + 1
                && final(self).spec_attributes().drop_last() == old(self).spec_attributes()
                && final(self).spec_attributes().last().spec_name() == name@
                && final(self).spec_attributes().last().spec_values() == Seq::new(
                old(self).spec_size().spec_area(),
                |i: int| default,
            ),
    {
        let attribute = Attribute::default_value(name, self.size, default);
        let r = self.add_attribute(attribute);
        proof {
            if r is Some {
                assert(self@.names =~= old(self)@.names.push(name@));
                assert(self@.values =~= old(self)@.values.push(
                    Seq::new(self.spec_size().spec_area(), |i: int| default),
                ));
            }
        }
        r
    }

    /// Adds a new attribute with the given values, one per cell, and returns its id.
    /// Fails if the map already holds an attribute with the same name.
    pub fn create_attribute_from(&mut self, name: String, values: Vec<u8>) -> (r: Option<usize>)
        requires
            old(self).wf(),
            values@.len() == old(self).spec_size().spec_area(),
        ensures
            final(self).wf(),
            final(self).spec_name() == old(self).spec_name(),
            final(self).spec_size() == old(self).spec_size(),
            old(self).spec_names().contains(name@) ==> r is None && *final(self) == *old(self),
            !old(self).spec_names().contains(name@) ==> r == Some(
                old(self).spec_attributes().len() as usize,
            ) && final(self).spec_attributes().len() == old(self).spec_attributes().len() + 1
                && final(self).spec_attributes().drop_last() == old(self).spec_attributes()
                && final(self).spec_attributes().last().spec_name() == name@
                && final(self).spec_attributes().last().spec_values() == values@,
    {
        let attribute = Attribute::new(name, self.size, values);
        self.add_attribute(attribute)
    }

    fn add_attribute(&mut self, attribute: Attribute) -> (r: Option<usize>)
        requires
            old(self).wf(),
            attribute.wf(),
            attribute.spec_size() == old(self).spec_size(),
        ensures
            final(self).wf(),
            final(self).spec_name() == old(self).spec_name(),
            final(self).spec_size() == old(self).spec_size(),
            old(self).spec_names().contains(attribute.spec_name()) ==> r is None && *final(self)
                == *old(self),
            !old(self).spec_names().contains(attribute.spec_name()) ==> r == Some(
                old(self).spec_attributes().len() as usize,
            ) && final(self).spec_attributes() == old(self).spec_attributes().push(attribute),
    {
        let id = self.attributes.len();
        if self.get_attribute_id(attribute.get_name()).is_some() {
            return None;
        }
        proof {
            lemma_find(self.spec_names(), attribute.spec_name());
        }
        self.attributes.push(attribute);
        proof {
            assert(self.spec_names() =~= old(self).spec_names().push(attribute.spec_name()));
        }
        Some(id)
    }

    /// Returns the id of the attribute with the matching name.
    pub fn get_attribute_id(&self, name: &str) -> (r: Option<usize>)
        ensures
            r matches Some(i) ==> i < self.spec_attributes().len() && self.spec_names()[i as int] == name@,
            r is None <==> !self.spec_names().contains(name@),
            r matches Some(i) ==> spec_find(self.spec_names(), name@) == Some(i as int),
    {
        proof {
            lemma_find(self.spec_names(), name@);
        }
        let mut i: usize = 0;
        while i < self.attributes.len()
            invariant
                0 <= i <= self.spec_attributes().len(),
                forall|j: int| 0 <= j < i ==> self.spec_names()[j] != name@,
            decreases self.spec_attributes().len() - i,
        {
            if str_equal(self.attributes[i].get_name(), name) {
                proof {
                    assert(self.spec_names()[i as int] == name@);
                    lemma_find(self.spec_names(), name@);
                    assert(spec_find(self.spec_names(), name@) is Some);
                    let k = spec_find(self.spec_names(), name@)->Some_0;
                    if k < i {
                        assert(self.spec_names()[k] != name@);
                    } else if k > i {
                        assert(self.spec_names()[i as int] != name@);
                    }
                }
                return Some(i);
            }
            i = i + 1;
        }
        proof {
            assert(!self.spec_names().contains(name@));
        }
        None
    }

    /// Returns the attribute with the matching id.
    pub fn get_attribute(&self, id: usize) -> (r: &Attribute)
        requires
            id < self.spec_attributes().len(),
        ensures
            *r == self.spec_attributes()[id as int],
    {
        &self.attributes[id]
    }

    /// Returns the attribute with the matching id, to change its values.
    pub fn get_attribute_mut(&mut self, id: usize) -> (r: &mut Attribute)
        requires
            id < old(self).spec_attributes().len(),
        ensures
            *r == old(self).spec_attributes()[id as int],
            final(self).spec_name() == old(self).spec_name(),
            final(self).spec_size() == old(self).spec_size(),
            final(self).spec_attributes() == old(self).spec_attributes().update(id as int, *final(r)),
    {
        &mut self.attributes[id]
    }

    /// Replaces the values of the attribute with the matching id, one per cell.
    pub fn replace_values(&mut self, id: usize, values: Vec<u8>)
        requires
            old(self).wf(),
            id < old(self).spec_attributes().len(),
            values@.len() == old(self).spec_size().spec_area(),
        ensures
            final(self).values_replaced(*old(self), id as int, values@),
            final(self)@ == old(self)@.spec_replace(id as int, values@),
    {
        let ghost values_view = values@;
        self.attributes[id].replace_values(values);
        proof {
            assert(self.spec_names() =~= old(self).spec_names());
            assert(self@.values =~= old(self)@.values.update(id as int, values_view));
            assert forall|i: int| 0 <= i < self.spec_attributes().len() implies (#[trigger] self.spec_attributes()[i]).wf()
                && self.spec_attributes()[i].spec_size() == self.spec_size() by {
                if i != id {
                    assert(self.spec_attributes()[i] == old(self).spec_attributes()[i]);
                }
            }
        }
    }
}

/// Whether 2 strings hold the same characters.
pub(crate) fn str_equal(a: &str, b: &str) -> (r: bool)
    ensures
        r == (a@ == b@),
{
    let n = a.unicode_len();
    if n != b.unicode_len() {
        return false;
    }
    let mut i: usize = 0;
    while i < n
        invariant
            n == a@.len(),
            n == b@.len(),
            0 <= i <= n,
            forall|j: int| 0 <= j < i ==> a@[j] == b@[j],
        decreases n - i,
    {
        if a.get_char(i) != b.get_char(i) {
            return false;
        }
        i = i + 1;
    }
    assert(a@ =~= b@);
    true
}

} // verus!
