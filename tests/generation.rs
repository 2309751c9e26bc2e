use ofws_core::generation::{MapGeneration, MapGenerationData, MapGenerationError};
use ofws_core::generator1d::{Generator1d, Generator1dData, Generator1dError};
use ofws_core::generator2d::{Generator2dData, Generator2dError};
use ofws_core::clusterer2d::{Clusterer2dData, Clusterer2dError};
use ofws_core::transformer2d::Transformer2dError;
use ofws_core::map::Map2d;
use ofws_core::noise::{NoiseData, NoiseError, NoiseSource};
use ofws_core::size2d::Size2d;
use ofws_core::step::{
    get_attribute_id, Distortion1dData, GenerationStep, GenerationStepData, GenerationStepError,
    GeneratorStepData, ModifyWithAttributeData, TransformAttribute2dData,
};
use ofws_core::steps::CreateAttribute;
use ofws_core::threshold::OverwriteWithThreshold;
use ofws_core::transformer2d::Transformer2dData;

struct FlatNoise;

impl NoiseSource for FlatNoise {
    fn spec_sample(&self, data: NoiseData, _x: u32, _y: u32) -> u8 {
        data.min_value
    }

    fn sample(&self, data: NoiseData, x: u32, y: u32) -> u8 {
        self.spec_sample(data, x, y)
    }
}

fn create(name: &str, default: u8) -> GenerationStepData {
    GenerationStepData::CreateAttribute(CreateAttribute::new(name.to_string(), default))
}

fn biome_pipeline() -> MapGenerationData {
    MapGenerationData::new(
        "world".to_string(),
        Size2d::new(3, 2),
        vec![
            create("elevation", 0),
            create("rain", 197),
            create("biome", 10),
            GenerationStepData::GeneratorAdd(GeneratorStepData {
                attribute: "elevation".to_string(),
                generator: Generator2dData::IndexGenerator(Size2d::new(3, 2)),
            }),
            GenerationStepData::ModifyWithAttribute(ModifyWithAttributeData {
                source: "elevation".to_string(),
                target: "rain".to_string(),
                percentage: 100,
                minimum: 0,
            }),
            GenerationStepData::TransformAttribute2d(TransformAttribute2dData {
                name: "ocean".to_string(),
                source0: "elevation".to_string(),
                source1: "rain".to_string(),
                target: "biome".to_string(),
                transformer: Transformer2dData::OverwriteIfBelow(OverwriteWithThreshold::new(42, 2)),
            }),
        ],
    )
}

#[test]
fn get_attribute_id_finds_the_first() {
    let names = vec!["a".to_string(), "b".to_string(), "a".to_string()];

    assert_eq!(get_attribute_id("a", &names), Ok(0));
    assert_eq!(get_attribute_id("b", &names), Ok(1));
    assert_eq!(
        get_attribute_id("c", &names),
        Err(GenerationStepError::AttributeUnknown("c".to_string()))
    );
}

#[test]
fn generate_runs_the_steps_in_order() {
    let generation = MapGeneration::try_from(biome_pipeline()).unwrap();
    let map: Map2d = generation.generate(&FlatNoise);

    assert_eq!(map.get_name(), "world");
    assert_eq!(map.len(), 3);
    assert_eq!(map.get_attribute(0).get_all(), &vec![0, 1, 2, 3, 4, 5]);
    assert_eq!(map.get_attribute(1).get_all(), &vec![197, 198, 199, 200, 201, 202]);
    assert_eq!(map.get_attribute(2).get_all(), &vec![42, 42, 42, 200, 201, 202]);
}

#[test]
fn reference_before_creation_fails() {
    let data = MapGenerationData::new(
        "world".to_string(),
        Size2d::new(2, 2),
        vec![
            GenerationStepData::DistortAlongX(Distortion1dData {
                attribute: "elevation".to_string(),
                generator: Generator1dData::InputAsOutput,
            }),
            create("elevation", 0),
        ],
    );

    assert_eq!(
        MapGeneration::try_from(data).err(),
        Some(MapGenerationError::GenerationStep(
            0,
            GenerationStepError::AttributeUnknown("elevation".to_string())
        ))
    );
}

#[test]
fn first_unknown_reference_is_reported() {
    let data = MapGenerationData::new(
        "world".to_string(),
        Size2d::new(2, 2),
        vec![
            create("a", 0),
            GenerationStepData::ModifyWithAttribute(ModifyWithAttributeData {
                source: "b".to_string(),
                target: "c".to_string(),
                percentage: 10,
                minimum: 0,
            }),
        ],
    );

    assert_eq!(
        MapGeneration::try_from(data).err(),
        Some(MapGenerationError::GenerationStep(
            1,
            GenerationStepError::AttributeUnknown("b".to_string())
        ))
    );
}

#[test]
fn invalid_noise_is_reported() {
    let data = MapGenerationData::new(
        "world".to_string(),
        Size2d::new(2, 2),
        vec![
            create("a", 0),
            GenerationStepData::DistortAlongY(Distortion1dData {
                attribute: "a".to_string(),
                generator: Generator1dData::Noise(NoiseData {
                    seed: 1,
                    scale: 0,
                    min_value: 0,
                    max_value: 5,
                }),
            }),
        ],
    );

    assert_eq!(
        MapGeneration::try_from(data).err(),
        Some(MapGenerationError::GenerationStep(
            1,
            GenerationStepError::Generator1d(Generator1dError::Noise(NoiseError::NonPositiveScale))
        ))
    );
}

#[test]
fn round_trip_keeps_the_description() {
    let generation = MapGeneration::try_from(biome_pipeline()).unwrap();
    let data = MapGenerationData::from(generation);

    assert_eq!(data.name, "world");
    assert_eq!(data.size, Size2d::new(3, 2));
    assert_eq!(data.steps.len(), 6);
    match &data.steps[4] {
        GenerationStepData::ModifyWithAttribute(step) => {
            assert_eq!(step.source, "elevation");
            assert_eq!(step.target, "rain");
            assert_eq!(step.percentage, 100);
        }
        _ => panic!("the fifth step must modify an attribute"),
    }
    match &data.steps[5] {
        GenerationStepData::TransformAttribute2d(step) => {
            assert_eq!(step.name, "ocean");
            assert_eq!(step.source0, "elevation");
            assert_eq!(step.source1, "rain");
            assert_eq!(step.target, "biome");
            assert_eq!(
                step.transformer,
                Transformer2dData::OverwriteIfBelow(OverwriteWithThreshold::new(42, 2))
            );
        }
        _ => panic!("the last step must transform"),
    }
}

#[test]
fn duplicate_creation_keeps_ids_aligned() {
    let data = MapGenerationData::new(
        "world".to_string(),
        Size2d::new(1, 1),
        vec![
            create("a", 1),
            create("a", 2),
            create("b", 3),
            GenerationStepData::GeneratorAdd(GeneratorStepData {
                attribute: "b".to_string(),
                generator: Generator2dData::IndexGenerator(Size2d::new(1, 1)),
            }),
        ],
    );
    let generation = MapGeneration::try_from(data).unwrap();
    let map = generation.generate(&FlatNoise);

    assert_eq!(map.len(), 2);
    assert_eq!(map.get_attribute(1).get_all(), &vec![3]);

    let back = MapGenerationData::from(generation);
    match &back.steps[3] {
        GenerationStepData::GeneratorAdd(step) => assert_eq!(step.attribute, "b"),
        _ => panic!("the last step must add"),
    }
}

#[test]
fn steps_built_by_id() {
    let steps = vec![
        GenerationStep::CreateAttribute(CreateAttribute::new("a".to_string(), 5)),
        GenerationStep::DistortAlongX(ofws_core::distortion::Distortion1d::new(0, Generator1d::InputAsOutput)),
    ];
    let generation = MapGeneration::new("m".to_string(), Size2d::new(2, 2), steps);
    let map = generation.generate(&FlatNoise);

    assert_eq!(map.get_attribute(0).get_all(), &vec![5, 5, 5, 5]);
}

#[test]
fn invalid_generator2d_and_transformer_are_reported() {
    let noise = NoiseData { seed: 1, scale: 3, min_value: 9, max_value: 9 };
    let data = MapGenerationData::new(
        "world".to_string(),
        Size2d::new(2, 2),
        vec![
            create("a", 0),
            GenerationStepData::GeneratorSub(GeneratorStepData {
                attribute: "a".to_string(),
                generator: Generator2dData::Noise2d(noise),
            }),
        ],
    );
    assert_eq!(
        MapGeneration::try_from(data).err(),
        Some(MapGenerationError::GenerationStep(
            1,
            GenerationStepError::Generator2d(Generator2dError::Noise(NoiseError::MinNotBelowMax))
        ))
    );

    let data = MapGenerationData::new(
        "world".to_string(),
        Size2d::new(2, 2),
        vec![
            create("a", 0),
            GenerationStepData::TransformAttribute2d(TransformAttribute2dData {
                name: "biomes".to_string(),
                source0: "a".to_string(),
                source1: "a".to_string(),
                target: "a".to_string(),
                transformer: Transformer2dData::Clusterer(Clusterer2dData::new(Size2d::new(2, 2), vec![1, 2])),
            }),
        ],
    );
    assert_eq!(
        MapGeneration::try_from(data).err(),
        Some(MapGenerationError::GenerationStep(
            1,
            GenerationStepError::Transformer2d(Transformer2dError::Clusterer(
                Clusterer2dError::SizeMismatch(4, 2)
            ))
        ))
    );
}
