//! Generators of bytes for 2d points.
use vstd::prelude::*;
use crate::distance::{calculate_distance, is_distance};
use crate::generator1d::{Generator1d, Generator1dData, Generator1dError};
use crate::noise::{NoiseData, NoiseError, NoiseSource};
use crate::size2d::Size2d;

verus! {

/// The input handed on for a distance: the distance itself, limited to `u32::MAX`.
pub open spec fn spec_distance_input(distance: int) -> u32 {
    if distance < u32::MAX {
        distance as u32
    } else {
        u32::MAX
    }
}

/// Generates values for 2d points.
pub enum Generator2d {
    /// Feeds the x values to a [`Generator1d`].
    ApplyToX(Generator1d),
    /// Feeds the y values to a [`Generator1d`].
    ApplyToY(Generator1d),
    /// Feeds the distance from a center to a [`Generator1d`].
    ApplyToDistance { generator: Generator1d, center_x: u32, center_y: u32 },
    /// Generates the index of each point, modulo 256.
    IndexGenerator(Size2d),
    /// Samples noise for each point.
    Noise2d(NoiseData),
}

/// Why a [`Generator2dData`] is not a valid generator.
#[derive(Copy, Clone, Debug, PartialEq, Eq, Structural)]
pub enum Generator2dError {
    Generator1d(Generator1dError),
    Noise(NoiseError),
}

/// The portable description of a [`Generator2d`].
pub enum Generator2dData {
    ApplyToX(Generator1dData),
    ApplyToY(Generator1dData),
    ApplyToDistance { generator: Generator1dData, center_x: u32, center_y: u32 },
    IndexGenerator(Size2d),
    Noise2d(NoiseData),
}

impl Generator2d {
    /// Whether the configuration is valid.
    pub open spec fn wf(&self) -> bool {
        match self {
            Generator2d::ApplyToX(g) => g.wf(),
            Generator2d::ApplyToY(g) => g.wf(),
            Generator2d::ApplyToDistance { generator, .. } => generator.wf(),
            Generator2d::IndexGenerator(_) => true,
            Generator2d::Noise2d(data) => data.wf(),
        }
    }

    /// The value generated for the point `(x, y)`.
    ///
    /// For a distance the integer distance `d` is the one with `d * d <= dx * dx + dy * dy`
    /// below `(d + 1) * (d + 1)`.
    pub open spec fn spec_generate<N: NoiseSource>(&self, x: u32, y: u32, noise: &N) -> u8 {
        match self {
            Generator2d::ApplyToX(g) => g.spec_generate(x, noise),
            Generator2d::ApplyToY(g) => g.spec_generate(y, noise),
            Generator2d::ApplyToDistance { generator, center_x, center_y } => {
                let d = choose|d: int| is_distance(d, *center_x as int, *center_y as int, x as int, y as int);
                generator.spec_generate(spec_distance_input(d), noise)
            },
            Generator2d::IndexGenerator(size) => ((y * size.width + x) % 256) as u8,
            Generator2d::Noise2d(data) => noise.spec_sample(*data, x, y),
        }
    }

    /// Feeds the x values to a [`Generator1d`].
    pub fn new_apply_to_x(generator: Generator1d) -> (r: Generator2d)
        ensures
            r == Generator2d::ApplyToX(generator),
    {
        Generator2d::ApplyToX(generator)
    }

    /// Feeds the y values to a [`Generator1d`].
    pub fn new_apply_to_y(generator: Generator1d) -> (r: Generator2d)
        ensures
            r == Generator2d::ApplyToY(generator),
    {
        Generator2d::ApplyToY(generator)
    }

    /// Feeds the distance from `(x, y)` to a [`Generator1d`].
    pub fn new_apply_to_distance(generator: Generator1d, x: u32, y: u32) -> (r: Generator2d)
        ensures
            r == (Generator2d::ApplyToDistance { generator, center_x: x, center_y: y }),
    {
        Generator2d::ApplyToDistance { generator, center_x: x, center_y: y }
    }

    /// Generates the index of each point of a size.
    pub fn new_index(width: u32, height: u32) -> (r: Generator2d)
        ensures
            r == Generator2d::IndexGenerator(Size2d { width, height }),
    {
        Generator2d::IndexGenerator(Size2d::new(width, height))
    }

    /// Samples noise for each point.
    pub fn new_noise(data: NoiseData) -> (r: Result<Generator2d, NoiseError>)
        ensures
            r is Ok <==> data.wf(),
            r matches Ok(g) ==> g == Generator2d::Noise2d(data),
            r matches Err(e) ==> (data.scale == 0 <==> e == NoiseError::NonPositiveScale),
    {
        match data.validate() {
            Ok(()) => Ok(Generator2d::Noise2d(data)),
            Err(e) => Err(e),
        }
    }

    /// Generates a value for the point `(x, y)`.
    pub fn generate<N: NoiseSource>(&self, x: u32, y: u32, noise: &N) -> (r: u8)
        requires
            self.wf(),
        ensures
            r == self.spec_generate(x, y, noise),
    {
        match self {
            Generator2d::ApplyToX(generator) => generator.generate(x, noise),
            Generator2d::ApplyToY(generator) => generator.generate(y, noise),
            Generator2d::ApplyToDistance { generator, center_x, center_y } => {
                let distance = calculate_distance(*center_x, *center_y, x, y);
                proof {
                    lemma_distance_unique(
                        distance as int,
                        *center_x as int,
                        *center_y as int,
                        x as int,
                        y as int,
                    );
                }
                let input = if distance < u32::MAX as u64 {
                    distance as u32
                } else {
                    u32::MAX
                };
                generator.generate(input, noise)
            },
            Generator2d::IndexGenerator(size) => {
                proof {
                    assert((y as u64) * (size.width as u64) <= u32::MAX * u32::MAX) by (nonlinear_arith)
                        requires
                            y <= u32::MAX,
                            size.width <= u32::MAX,
                    ;
                }
                let index = (y as u64) * (size.width as u64) + (x as u64);
                (index % 256) as u8
            },
            Generator2d::Noise2d(data) => noise.sample(*data, x, y),
        }
    }

    /// The description that converts back into this generator.
    pub open spec fn spec_to_data(self) -> Generator2dData {
        match self {
            Generator2d::ApplyToX(g) => Generator2dData::ApplyToX(g.spec_to_data()),
            Generator2d::ApplyToY(g) => Generator2dData::ApplyToY(g.spec_to_data()),
            Generator2d::ApplyToDistance { generator, center_x, center_y } => Generator2dData::ApplyToDistance {
                generator: generator.spec_to_data(),
                center_x,
                center_y,
            },
            Generator2d::IndexGenerator(size) => Generator2dData::IndexGenerator(size),
            Generator2d::Noise2d(data) => Generator2dData::Noise2d(data),
        }
    }

    /// Converts the generator into its portable description.
    pub fn into_data(self) -> (r: Generator2dData)
        ensures
            r == self.spec_to_data(),
    {
        match self {
            Generator2d::ApplyToX(g) => Generator2dData::ApplyToX(g.into_data()),
            Generator2d::ApplyToY(g) => Generator2dData::ApplyToY(g.into_data()),
            Generator2d::ApplyToDistance { generator, center_x, center_y } => Generator2dData::ApplyToDistance {
                generator: generator.into_data(),
                center_x,
                center_y,
            },
            Generator2d::IndexGenerator(size) => Generator2dData::IndexGenerator(size),
            Generator2d::Noise2d(data) => Generator2dData::Noise2d(data),
        }
    }
}

/// Only one integer is the rounded-down square root of a number.
proof fn lemma_distance_unique(d: int, x0: int, y0: int, x1: int, y1: int)
    requires
        is_distance(d, x0, y0, x1, y1),
    ensures
        (choose|e: int| is_distance(e, x0, y0, x1, y1)) == d,
{
    let e = choose|e: int| is_distance(e, x0, y0, x1, y1);
    let dx = crate::distance::spec_abs_diff(x0, x1);
    let dy = crate::distance::spec_abs_diff(y0, y1);
    let n = dx * dx + dy * dy;
    if e < d {
        assert((e + 1) * (e + 1) <= d * d) by (nonlinear_arith)
            requires
                0 <= e < d,
        ;
    } else if e > d {
        assert((d + 1) * (d + 1) <= e * e) by (nonlinear_arith)
            requires
                0 <= d < e,
        ;
    }
}

impl Generator2dData {
    /// Whether the description converts into a generator.
    pub open spec fn valid(&self) -> bool {
        match self {
            Generator2dData::ApplyToX(g) => g.valid(),
            Generator2dData::ApplyToY(g) => g.valid(),
            Generator2dData::ApplyToDistance { generator, .. } => generator.valid(),
            Generator2dData::IndexGenerator(_) => true,
            Generator2dData::Noise2d(data) => data.wf(),
        }
    }

    /// The generator described, for a valid description.
    pub open spec fn spec_to_generator(self) -> Generator2d {
        match self {
            Generator2dData::ApplyToX(g) => Generator2d::ApplyToX(g.spec_to_generator()),
            Generator2dData::ApplyToY(g) => Generator2d::ApplyToY(g.spec_to_generator()),
            Generator2dData::ApplyToDistance { generator, center_x, center_y } => Generator2d::ApplyToDistance {
                generator: generator.spec_to_generator(),
                center_x,
                center_y,
            },
            Generator2dData::IndexGenerator(size) => Generator2d::IndexGenerator(size),
            Generator2dData::Noise2d(data) => Generator2d::Noise2d(data),
        }
    }

    /// The error of an invalid description; for a valid one it has no meaning.
    pub open spec fn spec_error(self) -> Generator2dError {
        match self {
            Generator2dData::ApplyToX(g) => Generator2dError::Generator1d(g.spec_error()),
            Generator2dData::ApplyToY(g) => Generator2dError::Generator1d(g.spec_error()),
            Generator2dData::ApplyToDistance { generator, .. } => Generator2dError::Generator1d(
                generator.spec_error(),
            ),
            Generator2dData::Noise2d(data) => if data.scale == 0 {
                Generator2dError::Noise(NoiseError::NonPositiveScale)
            } else {
                Generator2dError::Noise(NoiseError::MinNotBelowMax)
            },
            Generator2dData::IndexGenerator(_) => Generator2dError::Noise(NoiseError::NonPositiveScale),
        }
    }

    /// Converts the description into a generator, validating it.
    pub fn try_convert(self) -> (r: Result<Generator2d, Generator2dError>)
        ensures
            r is Ok <==> self.valid(),
            r matches Ok(g) ==> g == self.spec_to_generator() && g.wf(),
            r matches Err(e) ==> e == self.spec_error(),
    {
        match self {
            Generator2dData::ApplyToX(data) => match data.try_convert() {
                Ok(g) => Ok(Generator2d::ApplyToX(g)),
                Err(e) => Err(Generator2dError::Generator1d(e)),
            },
            Generator2dData::ApplyToY(data) => match data.try_convert() {
                Ok(g) => Ok(Generator2d::ApplyToY(g)),
                Err(e) => Err(Generator2dError::Generator1d(e)),
            },
            Generator2dData::ApplyToDistance { generator, center_x, center_y } => match generator.try_convert() {
                Ok(g) => Ok(Generator2d::ApplyToDistance { generator: g, center_x, center_y }),
                Err(e) => Err(Generator2dError::Generator1d(e)),
            },
            Generator2dData::IndexGenerator(size) => Ok(Generator2d::IndexGenerator(size)),
            Generator2dData::Noise2d(data) => match data.validate() {
                Ok(()) => Ok(Generator2d::Noise2d(data)),
                Err(e) => Err(Generator2dError::Noise(e)),
            },
        }
    }
}

} // verus!
