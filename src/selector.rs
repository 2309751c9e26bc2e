//! Selecting a value (a byte, a color) for a byte input.
use vstd::prelude::*;
use crate::color::Interpolate;
use crate::interpolation::InterpolationError;

verus! {

/// A point of a piecewise-linear selection: the value at the threshold.
#[derive(Debug, PartialEq, Eq)]
pub struct InterpolateEntry<T> {
    pub threshold: u8,
    pub value: T,
}

/// Selects a value for a byte input.
#[derive(Debug)]
pub enum Selector<T: Interpolate> {
    /// Always the same value.
    Const(T),
    /// Interpolates between 2 values: `first` for 0, `second` for 255.
    InterpolatePair { first: T, second: T },
    /// Interpolates between ordered points.
    InterpolateVector(Vec<InterpolateEntry<T>>),
    /// The value of the first entry with the input as key, else the default.
    Lookup { lookup: Vec<(u8, T)>, default: T },
}

/// Whether there are 2 or more points and their thresholds never decrease.
pub open spec fn selection_valid<T>(entries: Seq<InterpolateEntry<T>>) -> bool {
    &&& entries.len() >= 2
    &&& forall|i: int| 0 < i < entries.len() ==> entries[i - 1].threshold <= #[trigger] entries[i].threshold
}

/// The interpolation from the point at `index` on, for an input above the threshold before it.
pub open spec fn spec_select_from<T: Interpolate>(entries: Seq<InterpolateEntry<T>>, index: int, input: u8) -> T
    decreases entries.len() - index,
{
    if index <= 0 || index >= entries.len() {
        entries.last().value
    } else if input <= entries[index].threshold {
        entries[index - 1].value.spec_interpolate(
            entries[index].value,
            (input - entries[index - 1].threshold) as nat,
            (entries[index].threshold - entries[index - 1].threshold) as nat,
        )
    } else {
        spec_select_from(entries, index + 1, input)
    }
}

/// The value of the first entry from `index` on whose key is the input, else the default.
pub open spec fn spec_lookup_from<T>(lookup: Seq<(u8, T)>, index: int, input: u8, default: T) -> T
    decreases lookup.len() - index,
{
    if index < 0 || index >= lookup.len() {
        default
    } else if lookup[index].0 == input {
        lookup[index].1
    } else {
        spec_lookup_from(lookup, index + 1, input, default)
    }
}

impl<T: Interpolate> Selector<T> {
    /// Whether the selector can select: interpolated points are valid.
    pub open spec fn wf(&self) -> bool {
        self matches Selector::InterpolateVector(v) ==> selection_valid(v@)
    }

    /// The value selected for the input.
    pub open spec fn spec_get(&self, input: u8) -> T {
        match self {
            Selector::Const(value) => *value,
            Selector::InterpolatePair { first, second } => first.spec_interpolate(*second, input as nat, 255),
            Selector::InterpolateVector(v) => if input <= v@[0].threshold {
                v@[0].value
            } else {
                spec_select_from(v@, 1, input)
            },
            Selector::Lookup { lookup, default } => spec_lookup_from(lookup@, 0, input, *default),
        }
    }

    /// Interpolates between 2 values.
    pub fn new_interpolate_pair(first: T, second: T) -> (r: Selector<T>)
        ensures
            r == (Selector::InterpolatePair { first, second }),
    {
        Selector::InterpolatePair { first, second }
    }

    /// Interpolates between points, if there are 2 or more of them and they are ordered.
    pub fn new_interpolate_vector(vector: Vec<(u8, T)>) -> (r: Result<Selector<T>, InterpolationError>)
        ensures
            vector@.len() < 2 ==> r == Err::<Selector<T>, _>(InterpolationError::TooFewEntries),
            r is Ok <==> vector@.len() >= 2 && (forall|i: int|
                0 < i < vector@.len() ==> vector@[i - 1].0 <= #[trigger] vector@[i].0),
            r matches Ok(s) ==> s.wf() && (s matches Selector::InterpolateVector(v) && v@.len()
                == vector@.len() && (forall|i: int|
                0 <= i < vector@.len() ==> (#[trigger] v@[i]).threshold == vector@[i].0
                    && v@[i].value == vector@[i].1)),
    {
        if vector.len() < 2 {
            return Err(InterpolationError::TooFewEntries);
        }
        let mut entries: Vec<InterpolateEntry<T>> = Vec::with_capacity(vector.len());
        let mut i: usize = 0;
        while i < vector.len()
            invariant
                0 <= i <= vector@.len(),
                entries@.len() == i,
                forall|j: int|
                    0 <= j < i ==> (#[trigger] entries@[j]).threshold == vector@[j].0
                        && entries@[j].value == vector@[j].1,
                forall|j: int| 0 < j < i ==> vector@[j - 1].0 <= #[trigger] vector@[j].0,
            decreases vector@.len() - i,
        {
            let (threshold, value) = vector[i];
            if i > 0 && threshold < vector[i - 1].0 {
                return Err(InterpolationError::NotOrdered);
            }
            entries.push(InterpolateEntry { threshold, value });
            i = i + 1;
        }
        assert forall|j: int| 0 < j < entries@.len() implies entries@[j - 1].threshold
            <= #[trigger] entries@[j].threshold by {
            assert(vector@[j - 1].0 <= vector@[j].0);
        }
        Ok(Selector::InterpolateVector(entries))
    }

    /// Looks the input up, with a default for missing keys.
    pub fn new_lookup(lookup: Vec<(u8, T)>, default: T) -> (r: Selector<T>)
        ensures
            r == (Selector::Lookup { lookup, default }),
    {
        Selector::Lookup { lookup, default }
    }

    /// Returns the value selected for the input.
    pub fn get(&self, input: u8) -> (r: T)
        requires
            self.wf(),
        ensures
            r == self.spec_get(input),
    {
        match self {
            Selector::Const(value) => *value,
            Selector::InterpolatePair { first, second } => first.interpolate(second, input as u32, 255),
            Selector::InterpolateVector(vector) => {
                let first = &vector[0];
                if input <= first.threshold {
                    return first.value;
                }
                let mut i: usize = 1;
                while i < vector.len()
                    invariant
                        selection_valid(vector@),
                        1 <= i <= vector@.len(),
                        input > vector@[i - 1].threshold,
                        self.spec_get(input) == spec_select_from(vector@, i as int, input),
                    decreases vector@.len() - i,
                {
                    let last = &vector[i - 1];
                    let entry = &vector[i];
                    if input <= entry.threshold {
                        return last.value.interpolate(
                            &entry.value,
                            (input - last.threshold) as u32,
                            (entry.threshold - last.threshold) as u32,
                        );
                    }
                    i = i + 1;
                }
                vector[vector.len() - 1].value
            },
            Selector::Lookup { lookup, default } => {
                let mut i: usize = 0;
                while i < lookup.len()
                    invariant
                        0 <= i <= lookup@.len(),
                        self.spec_get(input) == spec_lookup_from(
                            lookup@,
                            i as int,
                            input,
                            *default,
                        ),
                    decreases lookup@.len() - i,
                {
                    let entry = &lookup[i];
                    if entry.0 == input {
                        return entry.1;
                    }
                    i = i + 1;
                }
                *default
            },
        }
    }
}

} // verus!
