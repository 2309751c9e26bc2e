use ofws_core::distance::{abs_diff, calculate_distance};
use ofws_core::generator1d::Generator1d;
use ofws_core::generator2d::Generator2d;
use ofws_core::gradient::{Gradient, LinearGradientX, LinearGradientY};
use ofws_core::interpolation::{lerp, InterpolationError, VectorInterpolation};
use ofws_core::noise::{NoiseData, NoiseError, NoiseSource};

struct FixedNoise(u8);

impl NoiseSource for FixedNoise {
    fn spec_sample(&self, data: NoiseData, x: u32, y: u32) -> u8 {
        self.0.wrapping_add(data.min_value).wrapping_add(x as u8).wrapping_add(y as u8)
    }

    fn sample(&self, data: NoiseData, x: u32, y: u32) -> u8 {
        self.spec_sample(data, x, y)
    }
}

#[test]
fn test_linear_gradient_x_from_high_to_low() {
    let generator = LinearGradientX::new(150, 50, 100, 50);

    assert_eq!(generator.generate(0, 0), 150);
    assert_eq!(generator.generate(100, 0), 150);
    assert_eq!(generator.generate(101, 5), 148);
    assert_eq!(generator.generate(125, 10), 100);
    assert_eq!(generator.generate(149, 15), 52);
    assert_eq!(generator.generate(150, 20), 50);
    assert_eq!(generator.generate(151, 25), 50);
    assert_eq!(generator.generate(200, 15), 50);
}

#[test]
fn linear_gradient_y_uses_y() {
    let generator = LinearGradientY::new(0, 200, 10, 100);

    assert_eq!(generator.generate(500, 5), 0);
    assert_eq!(generator.generate(0, 60), 100);
    assert_eq!(generator.generate(7, 110), 200);
}

#[test]
fn test_lerp_from_high_to_low() {
    assert_eq!(lerp(200, 100, 0, 2), 200);
    assert_eq!(lerp(200, 100, 1, 2), 150);
    assert_eq!(lerp(200, 100, 2, 2), 100);
}

#[test]
fn test_lerp_with_negative_factor() {
    // A factor below 0 is limited to 0: the smallest numerator.
    assert_eq!(lerp(100, 200, 0, 2), 100);
    assert_eq!(lerp(200, 100, 0, 2), 200);
}

#[test]
fn test_lerp_with_too_high_factor() {
    assert_eq!(lerp(100, 200, 4, 2), 200);
    assert_eq!(lerp(200, 100, 5, 2), 100);
}

#[test]
fn lerp_rounds_down_and_handles_zero_denominator() {
    assert_eq!(lerp(100, 200, 1, 3), 133);
    assert_eq!(lerp(200, 100, 1, 3), 167);
    assert_eq!(lerp(10, 20, 0, 0), 10);
    assert_eq!(lerp(10, 20, 1, 0), 20);
}

#[test]
fn gradient_generate() {
    let gradient = Gradient::new(100, 200, 1000, 100);

    assert_eq!(gradient.generate(1050), 150);
    assert_eq!(gradient.generate(900), 100);
    assert_eq!(gradient.generate(1200), 200);
    assert_eq!(gradient.generate(0), 100);
    assert_eq!(gradient.generate(1000), 100);
    assert_eq!(gradient.generate(1001), 101);
    assert_eq!(gradient.generate(1099), 199);
    assert_eq!(gradient.generate(1100), 200);
}

#[test]
fn absolute_gradient_generate() {
    let generator = Generator1d::AbsoluteGradient(Gradient::new(100, 0, 80, 100));
    let noise = FixedNoise(0);

    assert_eq!(generator.generate(80, &noise), 100);
    assert_eq!(generator.generate(0, &noise), 20);
    assert_eq!(generator.generate(200, &noise), 0);
    assert_eq!(generator.generate(1, &noise), 21);
    assert_eq!(generator.generate(79, &noise), 99);
    assert_eq!(generator.generate(81, &noise), 99);
    assert_eq!(generator.generate(130, &noise), 50);
    assert_eq!(generator.generate(179, &noise), 1);
    assert_eq!(generator.generate(180, &noise), 0);
}

#[test]
fn input_as_output_truncates() {
    let noise = FixedNoise(0);

    assert_eq!(Generator1d::InputAsOutput.generate(2, &noise), 2);
    assert_eq!(Generator1d::InputAsOutput.generate(258, &noise), 2);
}

#[test]
fn interpolate_vector() {
    let interpolator = VectorInterpolation::new(vec![(100, 150), (150, 200), (200, 100)]).unwrap();

    assert_eq!(interpolator.interpolate(0), 150);
    assert_eq!(interpolator.interpolate(50), 150);
    assert_eq!(interpolator.interpolate(100), 150);
    assert_eq!(interpolator.interpolate(125), 175);
    assert_eq!(interpolator.interpolate(150), 200);
    assert_eq!(interpolator.interpolate(175), 150);
    assert_eq!(interpolator.interpolate(200), 100);
    assert_eq!(interpolator.interpolate(255), 100);
    assert_eq!(interpolator.get_entries(), vec![(100, 150), (150, 200), (200, 100)]);

    let generator = Generator1d::InterpolateVector(interpolator);
    assert_eq!(generator.generate(125, &FixedNoise(0)), 175);
}

#[test]
fn interpolate_vector_errors() {
    assert_eq!(VectorInterpolation::new(vec![(0, 50)]).err(), Some(InterpolationError::TooFewEntries));
    assert_eq!(
        VectorInterpolation::new(vec![(50, 50), (0, 200)]).err(),
        Some(InterpolationError::NotOrdered)
    );
}

#[test]
fn noise_generator_uses_the_source() {
    let data = NoiseData { seed: 300, scale: 5, min_value: 10, max_value: 128 };
    let noise = FixedNoise(1);

    assert_eq!(Generator1d::Noise(data).generate(3, &noise), 14);
    let generator = Generator2d::new_noise(data).unwrap();
    assert_eq!(generator.generate(3, 4, &noise), 18);
}

#[test]
fn noise_configuration_errors() {
    let zero_scale = NoiseData { seed: 0, scale: 0, min_value: 0, max_value: 255 };
    let inverted = NoiseData { seed: 0, scale: 5, min_value: 200, max_value: 105 };

    assert_eq!(zero_scale.validate(), Err(NoiseError::NonPositiveScale));
    assert_eq!(inverted.validate(), Err(NoiseError::MinNotBelowMax));
    assert!(Generator2d::new_noise(inverted).is_err());
}

#[test]
fn apply_to_x_and_y() {
    let noise = FixedNoise(0);
    let x = Generator2d::new_apply_to_x(Generator1d::InputAsOutput);
    let y = Generator2d::new_apply_to_y(Generator1d::InputAsOutput);

    assert_eq!(x.generate(2, 1, &noise), 2);
    assert_eq!(x.generate(0, 2, &noise), 0);
    assert_eq!(y.generate(2, 1, &noise), 1);
    assert_eq!(y.generate(0, 2, &noise), 2);
}

#[test]
fn apply_to_distance() {
    let noise = FixedNoise(0);
    let generator = Generator2d::new_apply_to_distance(Generator1d::InputAsOutput, 10, 5);

    assert_eq!(generator.generate(10, 5, &noise), 0);
    assert_eq!(generator.generate(10, 0, &noise), 5);
    assert_eq!(generator.generate(10, 10, &noise), 5);
    assert_eq!(generator.generate(5, 5, &noise), 5);
    assert_eq!(generator.generate(15, 5, &noise), 5);
    assert_eq!(generator.generate(13, 9, &noise), 5);
}

#[test]
fn index_generator() {
    let noise = FixedNoise(0);
    let generator = Generator2d::new_index(2, 3);

    assert_eq!(generator.generate(0, 0, &noise), 0);
    assert_eq!(generator.generate(1, 0, &noise), 1);
    assert_eq!(generator.generate(0, 1, &noise), 2);
    assert_eq!(generator.generate(1, 2, &noise), 5);

    let wide = Generator2d::new_index(200, 2);
    assert_eq!(wide.generate(100, 1, &noise), 44);
}

#[test]
fn distance_and_abs_diff() {
    assert_eq!(abs_diff(10, 6), 4);
    assert_eq!(abs_diff(6, 10), 4);
    assert_eq!(abs_diff(u32::MAX, 0), u32::MAX);
    assert_eq!(calculate_distance(0, 0, 0, 0), 0);
    assert_eq!(calculate_distance(0, 0, 3, 4), 5);
    assert_eq!(calculate_distance(3, 4, 0, 0), 5);
    assert_eq!(calculate_distance(0, 0, 1, 1), 1);
    assert_eq!(calculate_distance(0, 0, u32::MAX, u32::MAX), 6074000998);
}
