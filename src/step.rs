//! A closed set of generation steps, and their portable form that names attributes.
use vstd::prelude::*;
use crate::distortion::{Distortion1d, Distortion2d};
use crate::generator1d::{Generator1dData, Generator1dError};
use crate::generator2d::{Generator2dData, Generator2dError};
use crate::map::{spec_find, lemma_find, str_equal, Map2d, MapView};
use crate::noise::NoiseSource;
use crate::steps::{CreateAttribute, GeneratorStep, ModifyWithAttribute, TransformAttribute2d};
use crate::transformer2d::{Transformer2dData, Transformer2dError};

verus! {

/// The names held by a list of strings.
pub open spec fn names_of(v: Seq<String>) -> Seq<Seq<char>> {
    v.map_values(|s: String| s@)
}

/// The names after declaring `name`: appended, unless it is already there.
pub open spec fn declare(names: Seq<Seq<char>>, name: Seq<char>) -> Seq<Seq<char>> {
    if names.contains(name) {
        names
    } else {
        names.push(name)
    }
}

/// The id that a known name resolves to: the index of its first occurrence.
pub open spec fn id_of(names: Seq<Seq<char>>, name: Seq<char>) -> int {
    spec_find(names, name)->Some_0
}

/// Why a portable step cannot be resolved.
#[derive(Debug, PartialEq, Eq)]
pub enum GenerationStepError {
    /// The step references an attribute that no earlier step creates.
    AttributeUnknown(String),
    Generator1d(Generator1dError),
    Generator2d(Generator2dError),
    Transformer2d(Transformer2dError),
}

/// A step of the generation of a map, with its attributes referenced by id.
pub enum GenerationStep {
    CreateAttribute(CreateAttribute),
    DistortAlongX(Distortion1d),
    DistortAlongY(Distortion1d),
    Distortion2d(Distortion2d),
    GeneratorAdd(GeneratorStep),
    GeneratorSub(GeneratorStep),
    ModifyWithAttribute(ModifyWithAttribute),
    TransformAttribute2d(TransformAttribute2d),
}

/// The portable form of a [`Distortion1d`].
pub struct Distortion1dData {
    pub attribute: String,
    pub generator: Generator1dData,
}

/// The portable form of a [`Distortion2d`].
pub struct Distortion2dData {
    pub attribute: String,
    pub generator_x: Generator2dData,
    pub generator_y: Generator2dData,
}

/// The portable form of a [`GeneratorStep`].
pub struct GeneratorStepData {
    pub attribute: String,
    pub generator: Generator2dData,
}

/// The portable form of a [`ModifyWithAttribute`].
pub struct ModifyWithAttributeData {
    pub source: String,
    pub target: String,
    pub percentage: i32,
    pub minimum: u8,
}

/// The portable form of a [`TransformAttribute2d`].
pub struct TransformAttribute2dData {
    pub name: String,
    pub source0: String,
    pub source1: String,
    pub target: String,
    pub transformer: Transformer2dData,
}

/// The portable form of a [`GenerationStep`], with its attributes referenced by name.
pub enum GenerationStepData {
    CreateAttribute(CreateAttribute),
    DistortAlongX(Distortion1dData),
    DistortAlongY(Distortion1dData),
    Distortion2d(Distortion2dData),
    GeneratorAdd(GeneratorStepData),
    GeneratorSub(GeneratorStepData),
    ModifyWithAttribute(ModifyWithAttributeData),
    TransformAttribute2d(TransformAttribute2dData),
}

impl GenerationStep {
    /// The attribute names after this step, given those before it.
    pub open spec fn names_after(&self, names: Seq<Seq<char>>) -> Seq<Seq<char>> {
        match self {
            GenerationStep::CreateAttribute(c) => declare(names, c.name@),
            _ => names,
        }
    }

    /// Whether the step can run on a map with `count` attributes.
    pub open spec fn valid_for(&self, count: nat) -> bool {
        match self {
            GenerationStep::CreateAttribute(_) => true,
            GenerationStep::DistortAlongX(s) => s.valid_for(count),
            GenerationStep::DistortAlongY(s) => s.valid_for(count),
            GenerationStep::Distortion2d(s) => s.valid_for(count),
            GenerationStep::GeneratorAdd(s) => s.valid_for(count),
            GenerationStep::GeneratorSub(s) => s.valid_for(count),
            GenerationStep::ModifyWithAttribute(s) => s.valid_for(count),
            GenerationStep::TransformAttribute2d(s) => s.valid_for(count),
        }
    }

    /// The contents of a map after the step.
    pub open spec fn spec_run<N: NoiseSource>(&self, m: MapView, noise: &N) -> MapView {
        match self {
            GenerationStep::CreateAttribute(c) => m.spec_create(c.name@, c.default),
            GenerationStep::DistortAlongX(s) => m.spec_replace(
                s.attribute_id as int,
                s.spec_along_x(m, noise),
            ),
            GenerationStep::DistortAlongY(s) => m.spec_replace(
                s.attribute_id as int,
                s.spec_along_y(m, noise),
            ),
            GenerationStep::Distortion2d(s) => m.spec_replace(
                s.attribute_id as int,
                s.spec_distorted(m, noise),
            ),
            GenerationStep::GeneratorAdd(s) => m.spec_replace(
                s.attribute_id as int,
                s.spec_added(m, noise),
            ),
            GenerationStep::GeneratorSub(s) => m.spec_replace(
                s.attribute_id as int,
                s.spec_subtracted(m, noise),
            ),
            GenerationStep::ModifyWithAttribute(s) => m.spec_replace(
                s.target_id as int,
                s.spec_values(m),
            ),
            GenerationStep::TransformAttribute2d(s) => m.spec_replace(
                s.target_id as int,
                s.spec_values(m),
            ),
        }
    }

    /// Runs the step on the map.
    pub fn run<N: NoiseSource>(&self, map: &mut Map2d, noise: &N)
        requires
            old(map).wf(),
            self.valid_for(old(map)@.names.len()),
        ensures
            final(map).wf(),
            final(map)@ == self.spec_run(old(map)@, noise),
            final(map)@.names == self.names_after(old(map)@.names),
    {
        match self {
            GenerationStep::CreateAttribute(step) => step.run(map),
            GenerationStep::DistortAlongX(step) => step.distort_along_x(map, noise),
            GenerationStep::DistortAlongY(step) => step.distort_along_y(map, noise),
            GenerationStep::Distortion2d(step) => step.run(map, noise),
            GenerationStep::GeneratorAdd(step) => step.add(map, noise),
            GenerationStep::GeneratorSub(step) => step.sub(map, noise),
            GenerationStep::ModifyWithAttribute(step) => step.run(map),
            GenerationStep::TransformAttribute2d(step) => step.run(map),
        }
    }
}

/// Returns the id of the attribute with the name: the index of its first occurrence.
pub fn get_attribute_id(attribute: &str, attributes: &Vec<String>) -> (r: Result<usize, GenerationStepError>)
    ensures
        spec_find(names_of(attributes@), attribute@) matches Some(i) ==> r == Ok::<
            usize,
            GenerationStepError,
        >(i as usize),
        spec_find(names_of(attributes@), attribute@) is None ==> (r matches Err(
            GenerationStepError::AttributeUnknown(n),
        ) && n@ == attribute@),
        r matches Ok(i) ==> i == id_of(names_of(attributes@), attribute@) && i < attributes@.len()
            && names_of(attributes@).contains(attribute@),
        r is Err ==> !names_of(attributes@).contains(attribute@),
{
    let ghost names = names_of(attributes@);
    proof {
        lemma_find_all(names);
    }
    let mut i: usize = 0;
    while i < attributes.len()
        invariant
            names == names_of(attributes@),
            0 <= i <= attributes@.len(),
            forall|j: int| 0 <= j < i ==> names[j] != attribute@,
        decreases attributes@.len() - i,
    {
        let current = attributes[i].as_str();
        assert(names[i as int] == attributes@[i as int]@);
        if str_equal(current, attribute) {
            proof {
                lemma_find(names, attribute@);
                lemma_find_all(names);
                assert(names[i as int] == attribute@);
                assert(spec_find(names, attribute@) is Some);
                let k = spec_find(names, attribute@)->Some_0;
                if k < i {
                    assert(names[k] != attribute@);
                } else if k > i {
                    assert(names[i as int] != attribute@);
                }
            }
            return Ok(i);
        }
        i = i + 1;
    }
    proof {
        lemma_find_all(names);
        lemma_find(names, attribute@);
    }
    Err(GenerationStepError::AttributeUnknown(attribute.to_owned()))
}

impl GenerationStepData {
    /// The names of the attributes that the step references, in the order they are resolved.
    pub open spec fn spec_refs(&self) -> Seq<Seq<char>> {
        match self {
            GenerationStepData::CreateAttribute(_) => seq![],
            GenerationStepData::DistortAlongX(d) => seq![d.attribute@],
            GenerationStepData::DistortAlongY(d) => seq![d.attribute@],
            GenerationStepData::Distortion2d(d) => seq![d.attribute@],
            GenerationStepData::GeneratorAdd(d) => seq![d.attribute@],
            GenerationStepData::GeneratorSub(d) => seq![d.attribute@],
            GenerationStepData::ModifyWithAttribute(d) => seq![d.source@, d.target@],
            GenerationStepData::TransformAttribute2d(d) => seq![d.source0@, d.source1@, d.target@],
        }
    }

    /// Whether every referenced attribute is among `names`.
    pub open spec fn refs_known(&self, names: Seq<Seq<char>>) -> bool {
        forall|k: int| 0 <= k < self.spec_refs().len() ==> names.contains(#[trigger] self.spec_refs()[k])
    }

    /// Whether the generators and transformers of the step are valid.
    pub open spec fn configs_valid(&self) -> bool {
        match self {
            GenerationStepData::CreateAttribute(_) => true,
            GenerationStepData::DistortAlongX(d) => d.generator.valid(),
            GenerationStepData::DistortAlongY(d) => d.generator.valid(),
            GenerationStepData::Distortion2d(d) => d.generator_x.valid() && d.generator_y.valid(),
            GenerationStepData::GeneratorAdd(d) => d.generator.valid(),
            GenerationStepData::GeneratorSub(d) => d.generator.valid(),
            GenerationStepData::ModifyWithAttribute(_) => true,
            GenerationStepData::TransformAttribute2d(d) => d.transformer.valid(),
        }
    }

    /// The declared attribute names after this step, given those before it.
    pub open spec fn names_after(&self, names: Seq<Seq<char>>) -> Seq<Seq<char>> {
        match self {
            GenerationStepData::CreateAttribute(c) => declare(names, c.name@),
            _ => names,
        }
    }

    /// Whether `e` is the error of resolving this step against `names`: the first unknown
    /// attribute, or else the invalid configuration.
    pub open spec fn is_error_for(&self, names: Seq<Seq<char>>, e: GenerationStepError) -> bool {
        if !self.refs_known(names) {
            e matches GenerationStepError::AttributeUnknown(n) && exists|k: int|
                0 <= k < self.spec_refs().len() && #[trigger] self.spec_refs()[k] == n@
                    && !names.contains(n@) && forall|j: int| 0 <= j < k ==> names.contains(
                    self.spec_refs()[j],
                )
        } else {
            match self {
                GenerationStepData::DistortAlongX(d) => e == GenerationStepError::Generator1d(
                    d.generator.spec_error(),
                ),
                GenerationStepData::DistortAlongY(d) => e == GenerationStepError::Generator1d(
                    d.generator.spec_error(),
                ),
                GenerationStepData::Distortion2d(d) => e == GenerationStepError::Generator2d(
                    if !d.generator_x.valid() {
                        d.generator_x.spec_error()
                    } else {
                        d.generator_y.spec_error()
                    },
                ),
                GenerationStepData::GeneratorAdd(d) => e == GenerationStepError::Generator2d(
                    d.generator.spec_error(),
                ),
                GenerationStepData::GeneratorSub(d) => e == GenerationStepError::Generator2d(
                    d.generator.spec_error(),
                ),
                GenerationStepData::TransformAttribute2d(d) => d.transformer matches Transformer2dData::Clusterer(c)
                    && e == GenerationStepError::Transformer2d(
                    Transformer2dError::Clusterer(c.spec_error()),
                ),
                _ => false,
            }
        }
    }

    /// Whether `s` is this step with its attribute names resolved against `names`.
    pub open spec fn resolves_to(&self, names: Seq<Seq<char>>, s: GenerationStep) -> bool {
        match self {
            GenerationStepData::CreateAttribute(c) => s == GenerationStep::CreateAttribute(*c),
            GenerationStepData::DistortAlongX(d) => s matches GenerationStep::DistortAlongX(t)
                && t.attribute_id == id_of(names, d.attribute@) && t.generator
                == d.generator.spec_to_generator(),
            GenerationStepData::DistortAlongY(d) => s matches GenerationStep::DistortAlongY(t)
                && t.attribute_id == id_of(names, d.attribute@) && t.generator
                == d.generator.spec_to_generator(),
            GenerationStepData::Distortion2d(d) => s matches GenerationStep::Distortion2d(t)
                && t.attribute_id == id_of(names, d.attribute@) && t.generator_x
                == d.generator_x.spec_to_generator() && t.generator_y
                == d.generator_y.spec_to_generator(),
            GenerationStepData::GeneratorAdd(d) => s matches GenerationStep::GeneratorAdd(t)
                && t.attribute_id == id_of(names, d.attribute@) && t.generator
                == d.generator.spec_to_generator(),
            GenerationStepData::GeneratorSub(d) => s matches GenerationStep::GeneratorSub(t)
                && t.attribute_id == id_of(names, d.attribute@) && t.generator
                == d.generator.spec_to_generator(),
            GenerationStepData::ModifyWithAttribute(d) => s matches GenerationStep::ModifyWithAttribute(
                t,
            ) && t.source_id == id_of(names, d.source@) && t.target_id == id_of(names, d.target@)
                && t.percentage == d.percentage && t.minimum == d.minimum,
            GenerationStepData::TransformAttribute2d(d) => s matches GenerationStep::TransformAttribute2d(
                t,
            ) && t.name == d.name && t.source_id0 == id_of(names, d.source0@) && t.source_id1
                == id_of(names, d.source1@) && t.target_id == id_of(names, d.target@)
                && t.transformer.describes(d.transformer),
        }
    }

    /// Whether both describe the same step: equal, with names compared by their characters.
    pub open spec fn equivalent(&self, other: GenerationStepData) -> bool {
        match (self, other) {
            (GenerationStepData::CreateAttribute(a), GenerationStepData::CreateAttribute(b)) => a.name@
                == b.name@ && a.default == b.default,
            (GenerationStepData::DistortAlongX(a), GenerationStepData::DistortAlongX(b)) => a.attribute@
                == b.attribute@ && a.generator == b.generator,
            (GenerationStepData::DistortAlongY(a), GenerationStepData::DistortAlongY(b)) => a.attribute@
                == b.attribute@ && a.generator == b.generator,
            (GenerationStepData::Distortion2d(a), GenerationStepData::Distortion2d(b)) => a.attribute@
                == b.attribute@ && a.generator_x == b.generator_x && a.generator_y == b.generator_y,
            (GenerationStepData::GeneratorAdd(a), GenerationStepData::GeneratorAdd(b)) => a.attribute@
                == b.attribute@ && a.generator == b.generator,
            (GenerationStepData::GeneratorSub(a), GenerationStepData::GeneratorSub(b)) => a.attribute@
                == b.attribute@ && a.generator == b.generator,
            (
                GenerationStepData::ModifyWithAttribute(a),
                GenerationStepData::ModifyWithAttribute(b),
            ) => a.source@ == b.source@ && a.target@ == b.target@ && a.percentage == b.percentage
                && a.minimum == b.minimum,
            (
                GenerationStepData::TransformAttribute2d(a),
                GenerationStepData::TransformAttribute2d(b),
            ) => a.name@ == b.name@ && a.source0@ == b.source0@ && a.source1@ == b.source1@
                && a.target@ == b.target@ && a.transformer == b.transformer,
            _ => false,
        }
    }

    /// Resolves the step's attribute names against the attributes declared so far, and
    /// declares the attribute that the step creates, if any.
    pub fn try_convert(self, attributes: &mut Vec<String>) -> (r: Result<GenerationStep, GenerationStepError>)
        ensures
            r is Ok <==> self.refs_known(names_of(old(attributes)@)) && self.configs_valid(),
            r matches Ok(s) ==> self.resolves_to(names_of(old(attributes)@), s) && s.valid_for(
                names_of(old(attributes)@).len(),
            ) && names_of(final(attributes)@) == self.names_after(names_of(old(attributes)@)),
            r matches Err(e) ==> self.is_error_for(names_of(old(attributes)@), e)
                && final(attributes)@ == old(attributes)@,
    {
        let ghost names = names_of(attributes@);
        proof {
            lemma_find_all(names);
        }
        match self {
            GenerationStepData::CreateAttribute(step) => {
                if get_attribute_id(step.name.as_str(), attributes).is_err() {
                    attributes.push(step.name.clone());
                    proof {
                        assert(names_of(attributes@) =~= names.push(step.name@));
                    }
                }
                Ok(GenerationStep::CreateAttribute(step))
            },
            GenerationStepData::DistortAlongX(d) => {
                let id = match get_attribute_id(d.attribute.as_str(), attributes) {
                    Ok(id) => id,
                    Err(e) => {
                        proof {
                            assert(self.spec_refs()[0] == d.attribute@);
                        }
                        return Err(e);
                    },
                };
                match d.generator.try_convert() {
                    Ok(generator) => Ok(
                        GenerationStep::DistortAlongX(Distortion1d { attribute_id: id, generator }),
                    ),
                    Err(e) => Err(GenerationStepError::Generator1d(e)),
                }
            },
            GenerationStepData::DistortAlongY(d) => {
                let id = match get_attribute_id(d.attribute.as_str(), attributes) {
                    Ok(id) => id,
                    Err(e) => {
                        proof {
                            assert(self.spec_refs()[0] == d.attribute@);
                        }
                        return Err(e);
                    },
                };
                match d.generator.try_convert() {
                    Ok(generator) => Ok(
                        GenerationStep::DistortAlongY(Distortion1d { attribute_id: id, generator }),
                    ),
                    Err(e) => Err(GenerationStepError::Generator1d(e)),
                }
            },
            GenerationStepData::Distortion2d(d) => {
                let id = match get_attribute_id(d.attribute.as_str(), attributes) {
                    Ok(id) => id,
                    Err(e) => {
                        proof {
                            assert(self.spec_refs()[0] == d.attribute@);
                        }
                        return Err(e);
                    },
                };
                let generator_x = match d.generator_x.try_convert() {
                    Ok(g) => g,
                    Err(e) => return Err(GenerationStepError::Generator2d(e)),
                };
                let generator_y = match d.generator_y.try_convert() {
                    Ok(g) => g,
                    Err(e) => return Err(GenerationStepError::Generator2d(e)),
                };
                Ok(
                    GenerationStep::Distortion2d(
                        Distortion2d { attribute_id: id, generator_x, generator_y },
                    ),
                )
            },
            GenerationStepData::GeneratorAdd(d) => {
                let id = match get_attribute_id(d.attribute.as_str(), attributes) {
                    Ok(id) => id,
                    Err(e) => {
                        proof {
                            assert(self.spec_refs()[0] == d.attribute@);
                        }
                        return Err(e);
                    },
                };
                match d.generator.try_convert() {
                    Ok(generator) => Ok(
                        GenerationStep::GeneratorAdd(GeneratorStep { attribute_id: id, generator }),
                    ),
                    Err(e) => Err(GenerationStepError::Generator2d(e)),
                }
            },
            GenerationStepData::GeneratorSub(d) => {
                let id = match get_attribute_id(d.attribute.as_str(), attributes) {
                    Ok(id) => id,
                    Err(e) => {
                        proof {
                            assert(self.spec_refs()[0] == d.attribute@);
                        }
                        return Err(e);
                    },
                };
                match d.generator.try_convert() {
                    Ok(generator) => Ok(
                        GenerationStep::GeneratorSub(GeneratorStep { attribute_id: id, generator }),
                    ),
                    Err(e) => Err(GenerationStepError::Generator2d(e)),
                }
            },
            GenerationStepData::ModifyWithAttribute(d) => {
                let source_id = match get_attribute_id(d.source.as_str(), attributes) {
                    Ok(id) => id,
                    Err(e) => {
                        proof {
                            assert(self.spec_refs()[0] == d.source@);
                        }
                        return Err(e);
                    },
                };
                let target_id = match get_attribute_id(d.target.as_str(), attributes) {
                    Ok(id) => id,
                    Err(e) => {
                        proof {
                            assert(self.spec_refs()[0] == d.source@);
                            assert(self.spec_refs()[1] == d.target@);
                        }
                        return Err(e);
                    },
                };
                Ok(
                    GenerationStep::ModifyWithAttribute(
                        ModifyWithAttribute {
                            source_id,
                            target_id,
                            percentage: d.percentage,
                            minimum: d.minimum,
                        },
                    ),
                )
            },
            GenerationStepData::TransformAttribute2d(d) => {
                let source_id0 = match get_attribute_id(d.source0.as_str(), attributes) {
                    Ok(id) => id,
                    Err(e) => {
                        proof {
                            assert(self.spec_refs()[0] == d.source0@);
                        }
                        return Err(e);
                    },
                };
                let source_id1 = match get_attribute_id(d.source1.as_str(), attributes) {
                    Ok(id) => id,
                    Err(e) => {
                        proof {
                            assert(self.spec_refs()[0] == d.source0@);
                            assert(self.spec_refs()[1] == d.source1@);
                        }
                        return Err(e);
                    },
                };
                let target_id = match get_attribute_id(d.target.as_str(), attributes) {
                    Ok(id) => id,
                    Err(e) => {
                        proof {
                            assert(self.spec_refs()[0] == d.source0@);
                            assert(self.spec_refs()[1] == d.source1@);
                            assert(self.spec_refs()[2] == d.target@);
                        }
                        return Err(e);
                    },
                };
                match d.transformer.try_convert() {
                    Ok(transformer) => Ok(
                        GenerationStep::TransformAttribute2d(
                            TransformAttribute2d {
                                name: d.name,
                                source_id0,
                                source_id1,
                                target_id,
                                transformer,
                            },
                        ),
                    ),
                    Err(e) => Err(GenerationStepError::Transformer2d(e)),
                }
            },
        }
    }
}

/// For each name: it is known exactly when [`spec_find`] finds it, at an index inside the list.
proof fn lemma_find_all(names: Seq<Seq<char>>)
    ensures
        forall|name: Seq<char>|
            #![trigger spec_find(names, name)]
            (spec_find(names, name) is Some <==> names.contains(name)) && (spec_find(names, name) matches Some(
                i,
            ) ==> 0 <= i < names.len() && names[i] == name),
{
    assert forall|name: Seq<char>|
        #![trigger spec_find(names, name)]
        (spec_find(names, name) is Some <==> names.contains(name)) && (spec_find(names, name) matches Some(
            i,
        ) ==> 0 <= i < names.len() && names[i] == name) by {
        lemma_find(names, name);
        if names.contains(name) {
            let k = choose|k: int| 0 <= k < names.len() && names[k] == name;
            assert(names[k] == name);
        }
    }
}

impl GenerationStep {
    /// Whether `d` is this step with its attribute ids replaced by their names in `names`.
    pub open spec fn converts_to(&self, names: Seq<Seq<char>>, d: GenerationStepData) -> bool {
        match self {
            GenerationStep::CreateAttribute(c) => d == GenerationStepData::CreateAttribute(*c),
            GenerationStep::DistortAlongX(t) => d matches GenerationStepData::DistortAlongX(e)
                && e.attribute@ == names[t.attribute_id as int] && e.generator
                == t.generator.spec_to_data(),
            GenerationStep::DistortAlongY(t) => d matches GenerationStepData::DistortAlongY(e)
                && e.attribute@ == names[t.attribute_id as int] && e.generator
                == t.generator.spec_to_data(),
            GenerationStep::Distortion2d(t) => d matches GenerationStepData::Distortion2d(e)
                && e.attribute@ == names[t.attribute_id as int] && e.generator_x
                == t.generator_x.spec_to_data() && e.generator_y == t.generator_y.spec_to_data(),
            GenerationStep::GeneratorAdd(t) => d matches GenerationStepData::GeneratorAdd(e)
                && e.attribute@ == names[t.attribute_id as int] && e.generator
                == t.generator.spec_to_data(),
            GenerationStep::GeneratorSub(t) => d matches GenerationStepData::GeneratorSub(e)
                && e.attribute@ == names[t.attribute_id as int] && e.generator
                == t.generator.spec_to_data(),
            GenerationStep::ModifyWithAttribute(t) => d matches GenerationStepData::ModifyWithAttribute(
                e,
            ) && e.source@ == names[t.source_id as int] && e.target@ == names[t.target_id as int]
                && e.percentage == t.percentage && e.minimum == t.minimum,
            GenerationStep::TransformAttribute2d(t) => d matches GenerationStepData::TransformAttribute2d(
                e,
            ) && e.name == t.name && e.source0@ == names[t.source_id0 as int] && e.source1@
                == names[t.source_id1 as int] && e.target@ == names[t.target_id as int]
                && t.transformer.describes(e.transformer),
        }
    }

    /// Converts the step into its portable form, naming each attribute by its entry in
    /// `attributes`, and declares the attribute that the step creates, if any.
    pub fn convert(self, attributes: &mut Vec<String>) -> (r: GenerationStepData)
        requires
            self.valid_for(names_of(old(attributes)@).len()),
        ensures
            self.converts_to(names_of(old(attributes)@), r),
            names_of(final(attributes)@) == self.names_after(names_of(old(attributes)@)),
    {
        let ghost names = names_of(attributes@);
        match self {
            GenerationStep::CreateAttribute(step) => {
                if get_attribute_id(step.name.as_str(), attributes).is_err() {
                    attributes.push(step.name.clone());
                    proof {
                        assert(names_of(attributes@) =~= names.push(step.name@));
                    }
                }
                GenerationStepData::CreateAttribute(step)
            },
            GenerationStep::DistortAlongX(t) => GenerationStepData::DistortAlongX(
                Distortion1dData {
                    attribute: attributes[t.attribute_id].clone(),
                    generator: t.generator.into_data(),
                },
            ),
            GenerationStep::DistortAlongY(t) => GenerationStepData::DistortAlongY(
                Distortion1dData {
                    attribute: attributes[t.attribute_id].clone(),
                    generator: t.generator.into_data(),
                },
            ),
            GenerationStep::Distortion2d(t) => GenerationStepData::Distortion2d(
                Distortion2dData {
                    attribute: attributes[t.attribute_id].clone(),
                    generator_x: t.generator_x.into_data(),
                    generator_y: t.generator_y.into_data(),
                },
            ),
            GenerationStep::GeneratorAdd(t) => GenerationStepData::GeneratorAdd(
                GeneratorStepData {
                    attribute: attributes[t.attribute_id].clone(),
                    generator: t.generator.into_data(),
                },
            ),
            GenerationStep::GeneratorSub(t) => GenerationStepData::GeneratorSub(
                GeneratorStepData {
                    attribute: attributes[t.attribute_id].clone(),
                    generator: t.generator.into_data(),
                },
            ),
            GenerationStep::ModifyWithAttribute(t) => GenerationStepData::ModifyWithAttribute(
                ModifyWithAttributeData {
                    source: attributes[t.source_id].clone(),
                    target: attributes[t.target_id].clone(),
                    percentage: t.percentage,
                    minimum: t.minimum,
                },
            ),
            GenerationStep::TransformAttribute2d(t) => GenerationStepData::TransformAttribute2d(
                TransformAttribute2dData {
                    name: t.name,
                    source0: attributes[t.source_id0].clone(),
                    source1: attributes[t.source_id1].clone(),
                    target: attributes[t.target_id].clone(),
                    transformer: t.transformer.into_data(),
                },
            ),
        }
    }
}

/// A valid 1d generator description survives the way to a generator and back.
pub proof fn lemma_generator1d_round_trip(d: Generator1dData)
    ensures
        d.spec_to_generator().spec_to_data() == d,
{
}

/// A valid 2d generator description survives the way to a generator and back.
pub proof fn lemma_generator2d_round_trip(d: Generator2dData)
    ensures
        d.spec_to_generator().spec_to_data() == d,
{
    match d {
        Generator2dData::ApplyToX(g) => lemma_generator1d_round_trip(g),
        Generator2dData::ApplyToY(g) => lemma_generator1d_round_trip(g),
        Generator2dData::ApplyToDistance { generator, .. } => lemma_generator1d_round_trip(generator),
        _ => {},
    }
}

/// A step whose names are all known, resolved and converted back against the same names,
/// describes the same step, and declares the same names.
pub proof fn lemma_step_round_trip(
    d: GenerationStepData,
    names: Seq<Seq<char>>,
    s: GenerationStep,
    e: GenerationStepData,
)
    requires
        d.refs_known(names),
        d.resolves_to(names, s),
        s.converts_to(names, e),
    ensures
        e.equivalent(d),
        s.names_after(names) == d.names_after(names),
{
    lemma_find_all(names);
    let refs = d.spec_refs();
    assert forall|k: int| 0 <= k < refs.len() implies names[id_of(names, #[trigger] refs[k])] == refs[k] by {
        assert(names.contains(refs[k]));
    }
    match d {
        GenerationStepData::DistortAlongX(x) => {
            assert(refs[0] == x.attribute@);
            lemma_generator1d_round_trip(x.generator);
        },
        GenerationStepData::DistortAlongY(x) => {
            assert(refs[0] == x.attribute@);
            lemma_generator1d_round_trip(x.generator);
        },
        GenerationStepData::Distortion2d(x) => {
            assert(refs[0] == x.attribute@);
            lemma_generator2d_round_trip(x.generator_x);
            lemma_generator2d_round_trip(x.generator_y);
        },
        GenerationStepData::GeneratorAdd(x) => {
            assert(refs[0] == x.attribute@);
            lemma_generator2d_round_trip(x.generator);
        },
        GenerationStepData::GeneratorSub(x) => {
            assert(refs[0] == x.attribute@);
            lemma_generator2d_round_trip(x.generator);
        },
        GenerationStepData::ModifyWithAttribute(x) => {
            assert(refs[0] == x.source@);
            assert(refs[1] == x.target@);
        },
        GenerationStepData::TransformAttribute2d(x) => {
            assert(refs[0] == x.source0@);
            assert(refs[1] == x.source1@);
            assert(refs[2] == x.target@);
        },
        _ => {},
    }
}

} // verus!
