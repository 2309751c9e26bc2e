//! Generators of bytes for a 1d input.
use vstd::prelude::*;
use crate::gradient::Gradient;
use crate::interpolation::{spec_interpolate, VectorInterpolation};
use crate::noise::{NoiseData, NoiseError, NoiseSource};

verus! {

/// Generates values for a 1d input.
pub enum Generator1d {
    /// A linear gradient between a center and both sides.
    AbsoluteGradient(Gradient),
    /// A linear gradient between a start and an end value.
    Gradient(Gradient),
    /// Returns the input as output, truncated to a byte.
    InputAsOutput,
    /// Interpolates between ordered points.
    InterpolateVector(VectorInterpolation),
    /// Samples noise along the x-axis.
    Noise(NoiseData),
}

/// Why a [`Generator1dData`] is not a valid generator.
#[derive(Copy, Clone, Debug, PartialEq, Eq, Structural)]
pub enum Generator1dError {
    Noise(NoiseError),
}

/// The portable description of a [`Generator1d`].
pub enum Generator1dData {
    AbsoluteGradient(Gradient),
    Gradient(Gradient),
    InputAsOutput,
    InterpolateVector(VectorInterpolation),
    Noise(NoiseData),
}

impl Generator1d {
    /// Whether the configuration is valid.
    pub open spec fn wf(&self) -> bool {
        match self {
            Generator1d::Noise(data) => data.wf(),
            _ => true,
        }
    }

    /// The value generated for the input.
    pub open spec fn spec_generate<N: NoiseSource>(&self, input: u32, noise: &N) -> u8 {
        match self {
            Generator1d::AbsoluteGradient(g) => g.spec_generate_absolute(input),
            Generator1d::Gradient(g) => g.spec_generate(input),
            Generator1d::InputAsOutput => input as u8,
            Generator1d::InterpolateVector(v) => spec_interpolate(v.spec_entries(), input),
            Generator1d::Noise(data) => noise.spec_sample(*data, input, 0),
        }
    }

    /// Generates an output for an input.
    pub fn generate<N: NoiseSource>(&self, input: u32, noise: &N) -> (r: u8)
        requires
            self.wf(),
        ensures
            r == self.spec_generate(input, noise),
    {
        match self {
            Generator1d::AbsoluteGradient(gradient) => gradient.generate_absolute(input),
            Generator1d::Gradient(gradient) => gradient.generate(input),
            Generator1d::InputAsOutput => input as u8,
            Generator1d::InterpolateVector(interpolator) => interpolator.interpolate(input),
            Generator1d::Noise(data) => noise.sample(*data, input, 0),
        }
    }

    /// The description that converts back into this generator.
    pub open spec fn spec_to_data(self) -> Generator1dData {
        match self {
            Generator1d::AbsoluteGradient(g) => Generator1dData::AbsoluteGradient(g),
            Generator1d::Gradient(g) => Generator1dData::Gradient(g),
            Generator1d::InputAsOutput => Generator1dData::InputAsOutput,
            Generator1d::InterpolateVector(v) => Generator1dData::InterpolateVector(v),
            Generator1d::Noise(data) => Generator1dData::Noise(data),
        }
    }

    /// Converts the generator into its portable description.
    pub fn into_data(self) -> (r: Generator1dData)
        ensures
            r == self.spec_to_data(),
    {
        match self {
            Generator1d::AbsoluteGradient(g) => Generator1dData::AbsoluteGradient(g),
            Generator1d::Gradient(g) => Generator1dData::Gradient(g),
            Generator1d::InputAsOutput => Generator1dData::InputAsOutput,
            Generator1d::InterpolateVector(v) => Generator1dData::InterpolateVector(v),
            Generator1d::Noise(data) => Generator1dData::Noise(data),
        }
    }
}

impl Generator1dData {
    /// Whether the description converts into a generator.
    pub open spec fn valid(&self) -> bool {
        match self {
            Generator1dData::Noise(data) => data.wf(),
            _ => true,
        }
    }

    /// The generator described, for a valid description.
    pub open spec fn spec_to_generator(self) -> Generator1d {
        match self {
            Generator1dData::AbsoluteGradient(g) => Generator1d::AbsoluteGradient(g),
            Generator1dData::Gradient(g) => Generator1d::Gradient(g),
            Generator1dData::InputAsOutput => Generator1d::InputAsOutput,
            Generator1dData::InterpolateVector(v) => Generator1d::InterpolateVector(v),
            Generator1dData::Noise(data) => Generator1d::Noise(data),
        }
    }

    /// The error of an invalid description; for a valid one it has no meaning.
    pub open spec fn spec_error(self) -> Generator1dError {
        match self {
            Generator1dData::Noise(data) => if data.scale == 0 {
                Generator1dError::Noise(NoiseError::NonPositiveScale)
            } else {
                Generator1dError::Noise(NoiseError::MinNotBelowMax)
            },
            _ => Generator1dError::Noise(NoiseError::NonPositiveScale),
        }
    }

    /// Converts the description into a generator, validating the noise configuration.
    pub fn try_convert(self) -> (r: Result<Generator1d, Generator1dError>)
        ensures
            r is Ok <==> self.valid(),
            r matches Ok(g) ==> g == self.spec_to_generator() && g.wf(),
            r matches Err(e) ==> e == self.spec_error(),
    {
        match self {
            Generator1dData::AbsoluteGradient(g) => Ok(Generator1d::AbsoluteGradient(g)),
            Generator1dData::Gradient(g) => Ok(Generator1d::Gradient(g)),
            Generator1dData::InputAsOutput => Ok(Generator1d::InputAsOutput),
            Generator1dData::InterpolateVector(v) => Ok(Generator1d::InterpolateVector(v)),
            Generator1dData::Noise(data) => match data.validate() {
                Ok(()) => Ok(Generator1d::Noise(data)),
                Err(e) => Err(Generator1dError::Noise(e)),
            },
        }
    }
}

} // verus!
