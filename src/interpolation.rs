//! Linear interpolation between bytes, with factors given as fractions.
use vstd::prelude::*;

verus! {

/// The byte between `start` and `end` at the fraction `numerator / denominator` of the way.
///
/// The fraction is limited to `[0, 1]`: a zero numerator gives `start`, a numerator at or above
/// the denominator gives `end`. In between the distance covered is rounded down.
pub open spec fn spec_lerp(start: u8, end: u8, numerator: nat, denominator: nat) -> u8 {
    if numerator == 0 {
        start
    } else if numerator >= denominator {
        end
    } else if end >= start {
        (start + (end - start) as int * numerator as int / denominator as int) as u8
    } else {
        (start - (start - end) as int * numerator as int / denominator as int) as u8
    }
}

proof fn lemma_fraction_below(diff: nat, numerator: nat, denominator: nat)
    requires
        numerator < denominator,
    ensures
        diff * numerator / denominator <= diff,
{
    assert(diff * numerator <= diff * denominator) by (nonlinear_arith)
        requires
            numerator < denominator,
    ;
    vstd::arithmetic::div_mod::lemma_div_is_ordered(
        (diff * numerator) as int,
        (diff * denominator) as int,
        denominator as int,
    );
    vstd::arithmetic::div_mod::lemma_div_by_multiple(diff as int, denominator as int);
}

/// Interpolates linearly between 2 bytes.
///
/// The factor is `numerator / denominator`, limited to `[0, 1]`.
pub fn lerp(start: u8, end: u8, numerator: u32, denominator: u32) -> (r: u8)
    ensures
        r == spec_lerp(start, end, numerator as nat, denominator as nat),
{
    if numerator == 0 {
        return start;
    }
    if numerator >= denominator {
        return end;
    }
    if end >= start {
        let diff = (end - start) as u64;
        proof {
            lemma_fraction_below(diff as nat, numerator as nat, denominator as nat);
            assert(diff * numerator <= 255 * u32::MAX) by (nonlinear_arith)
                requires
                    diff <= 255,
                    numerator <= u32::MAX,
            ;
        }
        let step = diff * (numerator as u64) / (denominator as u64);
        start + step as u8
    } else {
        let diff = (start - end) as u64;
        proof {
            lemma_fraction_below(diff as nat, numerator as nat, denominator as nat);
            assert(diff * numerator <= 255 * u32::MAX) by (nonlinear_arith)
                requires
                    diff <= 255,
                    numerator <= u32::MAX,
            ;
        }
        let step = diff * (numerator as u64) / (denominator as u64);
        start - step as u8
    }
}

/// A point of a piecewise-linear function: the value at the threshold.
#[derive(Copy, Clone, Debug, PartialEq, Eq, Structural)]
pub struct InterpolationEntry {
    pub threshold: u32,
    pub value: u8,
}

/// Why a list of points cannot become a [`VectorInterpolation`].
#[derive(Copy, Clone, Debug, PartialEq, Eq, Structural)]
pub enum InterpolationError {
    /// Fewer than 2 points were given.
    TooFewEntries,
    /// A threshold is smaller than the one before it.
    NotOrdered,
}

/// Whether the thresholds never decrease.
pub open spec fn entries_ordered(entries: Seq<InterpolationEntry>) -> bool {
    forall|i: int| 0 < i < entries.len() ==> entries[i - 1].threshold <= #[trigger] entries[i].threshold
}

/// Whether the points can be interpolated: at least 2 of them, in order.
pub open spec fn entries_valid(entries: Seq<InterpolationEntry>) -> bool {
    entries.len() >= 2 && entries_ordered(entries)
}

/// The interpolation from the point at `index` on, for an input above the threshold before it.
pub open spec fn spec_interpolate_from(entries: Seq<InterpolationEntry>, index: int, input: u32) -> u8
    decreases entries.len() - index,
{
    if index <= 0 || index >= entries.len() {
        entries.last().value
    } else if input <= entries[index].threshold {
        spec_lerp(
            entries[index - 1].value,
            entries[index].value,
            (input - entries[index - 1].threshold) as nat,
            (entries[index].threshold - entries[index - 1].threshold) as nat,
        )
    } else {
        spec_interpolate_from(entries, index + 1, input)
    }
}

/// Piecewise-linear interpolation over the points: the first value at or below the first
/// threshold, the last value above the last threshold, else the line between the 2 points
/// around the input.
pub open spec fn spec_interpolate(entries: Seq<InterpolationEntry>, input: u32) -> u8 {
    if input <= entries[0].threshold {
        entries[0].value
    } else {
        spec_interpolate_from(entries, 1, input)
    }
}

/// Interpolates between the values of ordered points, based on the input and their thresholds.
#[derive(Debug, PartialEq, Eq)]
pub struct VectorInterpolation {
    entries: Vec<InterpolationEntry>,
}

impl VectorInterpolation {
    /// The points.
    pub closed spec fn spec_entries(&self) -> Seq<InterpolationEntry> {
        self.entries@
    }

    /// Whether the points can be interpolated.
    pub open spec fn wf(&self) -> bool {
        entries_valid(self.spec_entries())
    }

    /// Every interpolation has 2 or more points, in order.
    #[verifier::type_invariant]
    spec fn inv(&self) -> bool {
        entries_valid(self.entries@)
    }

    /// Returns the interpolation, if there are 2 or more points and they are ordered.
    pub fn new(vector: Vec<(u32, u8)>) -> (r: Result<VectorInterpolation, InterpolationError>)
        ensures
            vector@.len() < 2 ==> r == Err::<VectorInterpolation, _>(InterpolationError::TooFewEntries),
            vector@.len() >= 2 && !(forall|i: int|
                0 < i < vector@.len() ==> vector@[i - 1].0 <= #[trigger] vector@[i].0) ==> r
                == Err::<VectorInterpolation, _>(InterpolationError::NotOrdered),
            r is Ok <==> vector@.len() >= 2 && (forall|i: int|
                0 < i < vector@.len() ==> vector@[i - 1].0 <= #[trigger] vector@[i].0),
            r matches Ok(v) ==> v.wf() && v.spec_entries().len() == vector@.len() && (forall|i: int|
                0 <= i < vector@.len() ==> (#[trigger] v.spec_entries()[i]).threshold
                    == vector@[i].0 && v.spec_entries()[i].value == vector@[i].1),
    {
        if vector.len() < 2 {
            return Err(InterpolationError::TooFewEntries);
        }
        let mut entries: Vec<InterpolationEntry> = Vec::with_capacity(vector.len());
        let mut i: usize = 0;
        while i < vector.len()
            invariant
                0 <= i <= vector@.len(),
                entries@.len() == i,
                forall|j: int|
                    0 <= j < i ==> (#[trigger] entries@[j]).threshold == vector@[j].0
                        && entries@[j].value == vector@[j].1,
                forall|j: int| 0 < j < i ==> vector@[j - 1].0 <= #[trigger] vector@[j].0,
            decreases vector@.len() - i,
        {
            let (threshold, value) = vector[i];
            if i > 0 && threshold < vector[i - 1].0 {
                return Err(InterpolationError::NotOrdered);
            }
            entries.push(InterpolationEntry { threshold, value });
            i = i + 1;
        }
        let r = VectorInterpolation { entries };
        assert(entries_ordered(r.spec_entries())) by {
            assert forall|j: int| 0 < j < r.spec_entries().len() implies r.spec_entries()[j
                - 1].threshold <= #[trigger] r.spec_entries()[j].threshold by {
                assert(vector@[j - 1].0 <= vector@[j].0);
            }
        }
        Ok(r)
    }

    /// Returns the points as `(threshold, value)` pairs.
    pub fn get_entries(&self) -> (r: Vec<(u32, u8)>)
        ensures
            self.wf(),
            r@.len() == self.spec_entries().len(),
            forall|i: int|
                0 <= i < r@.len() ==> (#[trigger] r@[i]).0 == self.spec_entries()[i].threshold
                    && r@[i].1 == self.spec_entries()[i].value,
    {
        proof {
            use_type_invariant(self);
        }
        let mut r: Vec<(u32, u8)> = Vec::with_capacity(self.entries.len());
        let mut i: usize = 0;
        while i < self.entries.len()
            invariant
                0 <= i <= self.entries@.len(),
                r@.len() == i,
                forall|j: int|
                    0 <= j < i ==> (#[trigger] r@[j]).0 == self.entries@[j].threshold && r@[j].1
                        == self.entries@[j].value,
            decreases self.entries@.len() - i,
        {
            r.push((self.entries[i].threshold, self.entries[i].value));
            i = i + 1;
        }
        r
    }

    /// Interpolates between the values of the points based on the input and their thresholds.
    pub fn interpolate(&self, input: u32) -> (r: u8)
        ensures
            r == spec_interpolate(self.spec_entries(), input),
    {
        proof {
            use_type_invariant(self);
        }
        let first = self.entries[0];
        if input <= first.threshold {
            return first.value;
        }
        let mut i: usize = 1;
        while i < self.entries.len()
            invariant
                entries_valid(self.entries@),
                1 <= i <= self.entries@.len(),
                input > self.entries@[i - 1].threshold,
                spec_interpolate(self.entries@, input) == spec_interpolate_from(
                    self.entries@,
                    i as int,
                    input,
                ),
            decreases self.entries@.len() - i,
        {
            let last = self.entries[i - 1];
            let entry = self.entries[i];
            if input <= entry.threshold {
                return lerp(last.value, entry.value, input - last.threshold, entry.threshold - last.threshold);
            }
            i = i + 1;
        }
        self.entries[self.entries.len() - 1].value
    }
}

} // verus!
