//! Overwriting a byte depending on a threshold.
use vstd::prelude::*;

verus! {

/// Overwrites with `value` when an input reaches `threshold`, from above or from below.
#[derive(Copy, Clone, Debug, PartialEq, Eq, Structural)]
pub struct OverwriteWithThreshold {
    pub value: u8,
    pub threshold: u8,
}

impl OverwriteWithThreshold {
    /// Creates the overwrite.
    pub fn new(value: u8, threshold: u8) -> (r: OverwriteWithThreshold)
        ensures
            r == (OverwriteWithThreshold { value, threshold }),
    {
        OverwriteWithThreshold { value, threshold }
    }

    /// Returns `value` if the input is at or above the threshold, else the input.
    pub fn overwrite_if_above(&self, input: u8) -> (r: u8)
        ensures
            r == if input >= self.threshold { self.value } else { input },
    {
        if input >= self.threshold {
            self.value
        } else {
            input
        }
    }

    /// Returns `value` if the input is at or above the threshold, else the output.
    pub fn overwrite_output_if_above(&self, input: u8, output: u8) -> (r: u8)
        ensures
            r == if input >= self.threshold { self.value } else { output },
    {
        if input >= self.threshold {
            self.value
        } else {
            output
        }
    }

    /// Returns `value` if the input is at or below the threshold, else the input.
    pub fn overwrite_if_below(&self, input: u8) -> (r: u8)
        ensures
            r == if input <= self.threshold { self.value } else { input },
    {
        if input <= self.threshold {
            self.value
        } else {
            input
        }
    }

    /// Returns `value` if the input is at or below the threshold, else the output.
    pub fn overwrite_output_if_below(&self, input: u8, output: u8) -> (r: u8)
        ensures
            r == if input <= self.threshold { self.value } else { output },
    {
        if input <= self.threshold {
            self.value
        } else {
            output
        }
    }
}

} // verus!
