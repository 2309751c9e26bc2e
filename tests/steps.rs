use ofws_core::distortion::{Distortion1d, Distortion2d};
use ofws_core::generator1d::Generator1d;
use ofws_core::generator2d::Generator2d;
use ofws_core::map::Map2d;
use ofws_core::noise::{NoiseData, NoiseSource};
use ofws_core::size2d::Size2d;
use ofws_core::steps::{CreateAttribute, GeneratorStep, ModifyWithAttribute, TransformAttribute2d};
use ofws_core::transformer2d::Transformer2d;

struct FlatNoise;

impl NoiseSource for FlatNoise {
    fn spec_sample(&self, data: NoiseData, _x: u32, _y: u32) -> u8 {
        data.min_value
    }

    fn sample(&self, data: NoiseData, x: u32, y: u32) -> u8 {
        self.spec_sample(data, x, y)
    }
}

fn map_with(width: u32, height: u32, values: Vec<u8>) -> Map2d {
    let mut map = Map2d::new(Size2d::new(width, height));
    map.create_attribute_from("a".to_string(), values);
    map
}

#[test]
fn distort_along_x_repeats_the_first_value() {
    let mut map = map_with(3, 3, vec![1, 2, 3, 4, 5, 6, 7, 8, 9]);
    let step = Distortion1d::new(0, Generator1d::InputAsOutput);

    step.distort_along_x(&mut map, &FlatNoise);

    assert_eq!(map.get_attribute(0).get_all(), &vec![1, 2, 3, 4, 4, 5, 7, 7, 7]);
}

#[test]
fn distort_along_x_with_shift_beyond_width() {
    let mut map = map_with(2, 1, vec![8, 9]);
    let step = Distortion1d::new(0, Generator1d::Noise(NoiseData {
        seed: 0,
        scale: 1,
        min_value: 5,
        max_value: 6,
    }));

    step.distort_along_x(&mut map, &FlatNoise);

    assert_eq!(map.get_attribute(0).get_all(), &vec![8, 8]);
}

#[test]
fn distort_along_y_repeats_the_first_value() {
    let mut map = map_with(3, 3, vec![1, 2, 3, 4, 5, 6, 7, 8, 9]);
    let step = Distortion1d::new(0, Generator1d::InputAsOutput);

    step.distort_along_y(&mut map, &FlatNoise);

    assert_eq!(map.get_attribute(0).get_all(), &vec![1, 2, 3, 4, 2, 3, 7, 5, 3]);
}

#[test]
fn distortion2d_limits_to_the_last_cell() {
    let mut map = map_with(2, 2, vec![1, 2, 3, 4]);
    let step = Distortion2d::new(
        0,
        Generator2d::new_apply_to_x(Generator1d::InputAsOutput),
        Generator2d::new_apply_to_y(Generator1d::InputAsOutput),
    );

    step.run(&mut map, &FlatNoise);

    assert_eq!(map.get_attribute(0).get_all(), &vec![1, 2, 3, 4]);

    let mut map = map_with(2, 2, vec![1, 2, 3, 4]);
    let one = Generator1d::Gradient(ofws_core::gradient::Gradient::new(1, 1, 0, 1));
    let zero = Generator1d::Gradient(ofws_core::gradient::Gradient::new(0, 0, 0, 1));
    let step = Distortion2d::new(0, Generator2d::new_apply_to_x(one), Generator2d::new_apply_to_y(zero));

    step.run(&mut map, &FlatNoise);

    assert_eq!(map.get_attribute(0).get_all(), &vec![2, 2, 4, 4]);
}

#[test]
fn generator_add_and_sub_saturate() {
    let mut map = map_with(3, 1, vec![0, 100, 250]);
    let add = GeneratorStep { attribute_id: 0, generator: Generator2d::new_index(3, 1) };

    add.add(&mut map, &FlatNoise);
    assert_eq!(map.get_attribute(0).get_all(), &vec![0, 101, 252]);

    let big = GeneratorStep {
        attribute_id: 0,
        generator: Generator2d::new_apply_to_x(Generator1d::Gradient(ofws_core::gradient::Gradient::new(
            10, 10, 0, 1,
        ))),
    };
    big.add(&mut map, &FlatNoise);
    assert_eq!(map.get_attribute(0).get_all(), &vec![10, 111, 255]);

    let sub = GeneratorStep { attribute_id: 0, generator: Generator2d::new_index(1, 1) };
    sub.sub(&mut map, &FlatNoise);
    assert_eq!(map.get_attribute(0).get_all(), &vec![10, 110, 253]);
}

#[test]
fn create_attribute_step() {
    let mut map = Map2d::new(Size2d::new(2, 1));
    let step = CreateAttribute::new("rain".to_string(), 7);

    assert_eq!(step.get_attribute(), "rain");
    step.run(&mut map);
    step.run(&mut map);

    assert_eq!(map.len(), 1);
    assert_eq!(map.get_attribute(0).get_all(), &vec![7, 7]);
}

#[test]
fn modify_with_attribute() {
    let mut map = map_with(4, 1, vec![0, 100, 178, 255]);
    map.create_attribute("target".to_string(), 10);
    let step = ModifyWithAttribute::new(0, 1, 50, 100);

    step.run(&mut map);

    // (source - 100) * 0.5 * 255 / 155, added to 10
    assert_eq!(map.get_attribute(1).get_all(), &vec![10, 10, 74, 137]);
}

#[test]
fn modify_with_negative_percentage() {
    let mut map = map_with(2, 1, vec![255, 0]);
    map.create_attribute("target".to_string(), 10);
    let step = ModifyWithAttribute::new(0, 1, -100, 0);

    step.run(&mut map);

    assert_eq!(map.get_attribute(1).get_all(), &vec![0, 10]);
}

#[test]
fn transform_overwrite_if_below() {
    let mut map = Map2d::new(Size2d::new(3, 2));
    map.create_attribute_from("source0".to_string(), vec![0, 1, 99, 100, 101, 255]);
    map.create_attribute_from("source1".to_string(), vec![200, 199, 198, 197, 196, 195]);
    map.create_attribute("target".to_string(), 10);
    let step = TransformAttribute2d::new(
        "ocean".to_string(),
        0,
        1,
        2,
        Transformer2d::new_overwrite_if_below(42, 100),
    );

    step.run(&mut map);

    assert_eq!(map.get_attribute(2).get_all(), &vec![42, 42, 42, 42, 196, 195]);
    assert_eq!(map.get_attribute(1).get_all(), &vec![200, 199, 198, 197, 196, 195]);
}

#[test]
fn transform_in_place_reads_the_old_values() {
    let mut map = map_with(3, 1, vec![1, 2, 3]);
    let step = TransformAttribute2d::new(
        "shift".to_string(),
        0,
        0,
        0,
        Transformer2d::new_overwrite_if_above(9, 2),
    );

    step.run(&mut map);

    assert_eq!(map.get_attribute(0).get_all(), &vec![1, 9, 9]);
}
