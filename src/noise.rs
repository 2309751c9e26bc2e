//! The configuration of coherent noise, and the source that samples it.
use vstd::prelude::*;

verus! {

/// The configuration of coherent noise: a seed, the scale of the coordinates, and the range
/// `[min_value, max_value]` that the noise is mapped to.
#[derive(Copy, Clone, Debug, PartialEq, Eq, Structural)]
pub struct NoiseData {
    pub seed: u32,
    pub scale: u32,
    pub min_value: u8,
    pub max_value: u8,
}

/// Why a [`NoiseData`] is not a usable configuration.
#[derive(Copy, Clone, Debug, PartialEq, Eq, Structural)]
pub enum NoiseError {
    /// The scale is not positive.
    NonPositiveScale,
    /// `min_value` is not below `max_value`.
    MinNotBelowMax,
}

impl NoiseData {
    /// Whether the configuration can be sampled.
    pub open spec fn wf(self) -> bool {
        self.scale > 0 && self.min_value < self.max_value
    }

    /// Checks the configuration: the scale must be positive, and `min_value` below `max_value`.
    pub fn validate(&self) -> (r: Result<(), NoiseError>)
        ensures
            r is Ok <==> self.wf(),
            self.scale == 0 ==> r == Err::<(), _>(NoiseError::NonPositiveScale),
            self.scale > 0 && self.min_value >= self.max_value ==> r == Err::<(), _>(
                NoiseError::MinNotBelowMax,
            ),
    {
        if self.scale == 0 {
            Err(NoiseError::NonPositiveScale)
        } else if self.min_value >= self.max_value {
            Err(NoiseError::MinNotBelowMax)
        } else {
            Ok(())
        }
    }
}

/// Samples coherent noise: a deterministic function of the configuration and the point, mapped
/// into the configured range.
///
/// Applications implement it with the noise algorithm of their choice.
pub trait NoiseSource {
    /// The sample for the configuration `data` at the point `(x, y)`.
    spec fn spec_sample(&self, data: NoiseData, x: u32, y: u32) -> u8;

    /// Samples the noise configured by `data` at the point `(x, y)`, before scaling.
    fn sample(&self, data: NoiseData, x: u32, y: u32) -> (r: u8)
        ensures
            r == self.spec_sample(data, x, y),
    ;
}

} // verus!
