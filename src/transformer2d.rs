//! Transformers of 2 bytes into 1.
use vstd::prelude::*;
use crate::clusterer2d::{Clusterer2d, Clusterer2dData, Clusterer2dError};
use crate::threshold::OverwriteWithThreshold;

verus! {

/// Why a [`Transformer2dData`] is not a valid transformer.
#[derive(Copy, Clone, Debug, PartialEq, Eq, Structural)]
pub enum Transformer2dError {
    Clusterer(Clusterer2dError),
}

/// Transforms 2 inputs into 1 output.
#[derive(Debug, PartialEq, Eq)]
pub enum Transformer2d {
    /// Looks up the cluster of the inputs.
    Clusterer(Clusterer2d),
    /// Returns a constant.
    Const(u8),
    /// Returns the value if the first input is at or above the threshold, else the second input.
    OverwriteIfAbove(OverwriteWithThreshold),
    /// Returns the value if the first input is at or below the threshold, else the second input.
    OverwriteIfBelow(OverwriteWithThreshold),
}

/// The portable description of a [`Transformer2d`].
#[derive(Debug, PartialEq, Eq)]
pub enum Transformer2dData {
    Clusterer(Clusterer2dData),
    Const(u8),
    OverwriteIfAbove(OverwriteWithThreshold),
    OverwriteIfBelow(OverwriteWithThreshold),
}

impl Transformer2d {
    /// The output for 2 inputs.
    pub open spec fn spec_transform(&self, input0: u8, input1: u8) -> u8 {
        match self {
            Transformer2d::Clusterer(c) => c.spec_cluster(input0, input1),
            Transformer2d::Const(value) => *value,
            Transformer2d::OverwriteIfAbove(o) => if input0 >= o.threshold {
                o.value
            } else {
                input1
            },
            Transformer2d::OverwriteIfBelow(o) => if input0 <= o.threshold {
                o.value
            } else {
                input1
            },
        }
    }

    /// Returns `value` where the first input is at or above the threshold.
    pub fn new_overwrite_if_above(value: u8, threshold: u8) -> (r: Transformer2d)
        ensures
            r == Transformer2d::OverwriteIfAbove(OverwriteWithThreshold { value, threshold }),
    {
        Transformer2d::OverwriteIfAbove(OverwriteWithThreshold::new(value, threshold))
    }

    /// Returns `value` where the first input is at or below the threshold.
    pub fn new_overwrite_if_below(value: u8, threshold: u8) -> (r: Transformer2d)
        ensures
            r == Transformer2d::OverwriteIfBelow(OverwriteWithThreshold { value, threshold }),
    {
        Transformer2d::OverwriteIfBelow(OverwriteWithThreshold::new(value, threshold))
    }

    /// Transforms 2 inputs into 1 output.
    pub fn transform(&self, input0: u8, input1: u8) -> (r: u8)
        ensures
            r == self.spec_transform(input0, input1),
    {
        match self {
            Transformer2d::Clusterer(clusterer) => clusterer.cluster(input0, input1),
            Transformer2d::Const(value) => *value,
            Transformer2d::OverwriteIfAbove(data) => data.overwrite_output_if_above(input0, input1),
            Transformer2d::OverwriteIfBelow(data) => data.overwrite_output_if_below(input0, input1),
        }
    }

    /// Whether `data` is the description of this transformer.
    pub open spec fn describes(self, data: Transformer2dData) -> bool {
        match self {
            Transformer2d::Clusterer(c) => data matches Transformer2dData::Clusterer(d) && d.size
                == c.spec_size() && d.cluster_id_lookup == c.spec_table(),
            Transformer2d::Const(v) => data == Transformer2dData::Const(v),
            Transformer2d::OverwriteIfAbove(o) => data == Transformer2dData::OverwriteIfAbove(o),
            Transformer2d::OverwriteIfBelow(o) => data == Transformer2dData::OverwriteIfBelow(o),
        }
    }

    /// Converts the transformer into its portable description.
    pub fn into_data(self) -> (r: Transformer2dData)
        ensures
            self.describes(r),
    {
        match self {
            Transformer2d::Clusterer(c) => Transformer2dData::Clusterer(c.into_data()),
            Transformer2d::Const(value) => Transformer2dData::Const(value),
            Transformer2d::OverwriteIfAbove(o) => Transformer2dData::OverwriteIfAbove(o),
            Transformer2d::OverwriteIfBelow(o) => Transformer2dData::OverwriteIfBelow(o),
        }
    }
}

impl Transformer2dData {
    /// Whether the description converts into a transformer.
    pub open spec fn valid(&self) -> bool {
        self matches Transformer2dData::Clusterer(c) ==> c.valid()
    }

    /// Converts the description into a transformer.
    pub fn try_convert(self) -> (r: Result<Transformer2d, Transformer2dError>)
        ensures
            r is Ok <==> self.valid(),
            r matches Ok(t) ==> t.describes(self),
            r matches Err(e) ==> (self matches Transformer2dData::Clusterer(c) && e
                == Transformer2dError::Clusterer(c.spec_error())),
    {
        match self {
            Transformer2dData::Clusterer(c) => match c.try_convert() {
                Ok(c) => Ok(Transformer2d::Clusterer(c)),
                Err(e) => Err(Transformer2dError::Clusterer(e)),
            },
            Transformer2dData::Const(value) => Ok(Transformer2d::Const(value)),
            Transformer2dData::OverwriteIfAbove(o) => Ok(Transformer2d::OverwriteIfAbove(o)),
            Transformer2dData::OverwriteIfBelow(o) => Ok(Transformer2d::OverwriteIfBelow(o)),
        }
    }
}

} // verus!
