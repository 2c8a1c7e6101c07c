//! The sine lookup table: one sample per hundredth of a radian, built once
//! and read-only afterwards, so that no flake needs a sine per frame.
//!
//! Entry `i` holds the sine of `i / SINE_STEPS_PER_RADIAN` radians, taken
//! at that very angle and not at a whole number of radians, in thousandths.
//! The samples come from the host; the table only accepts a full set of
//! values that a sine can take.

use vstd::prelude::*;
use crate::units::{SINE_ONE, SINE_TABLE_SIZE};

verus! {

/// A full set of samples: one per table entry, each within `[-1, 1]`.
pub open spec fn valid_samples(samples: Seq<i64>) -> bool {
    &&& samples.len() == SINE_TABLE_SIZE
    &&& forall|i: int| 0 <= i < samples.len() ==> -SINE_ONE <= #[trigger] samples[i] <= SINE_ONE
}

/// Sine samples indexed by phase.
pub struct SineTable {
    values: Vec<i64>,
}

impl View for SineTable {
    type V = Seq<i64>;

    closed spec fn view(&self) -> Seq<i64> {
        self.values@
    }
}

impl SineTable {
    /// The table holds a full set of samples.
    pub open spec fn wf(&self) -> bool {
        valid_samples(self@)
    }

    /// The table before any sample is known: all zeros.
    pub fn new() -> (table: SineTable)
        ensures
            table.wf(),
            table@ == Seq::new(SINE_TABLE_SIZE as nat, |i: int| 0i64),
    {
        let table = SineTable { values: vec![0i64; SINE_TABLE_SIZE] };
        assert(table@ =~= Seq::new(SINE_TABLE_SIZE as nat, |i: int| 0i64));
        table
    }

    /// The table of the given samples, or `None` unless they are a full set
    /// of values within `[-1, 1]`.
    pub fn from_samples(samples: &Vec<i64>) -> (result: Option<SineTable>)
        ensures
            result is Some <==> valid_samples(samples@),
            result matches Some(table) ==> table.wf() && table@ == samples@,
    {
        if samples.len() != SINE_TABLE_SIZE {
            return None;
        }
        let mut values: Vec<i64> = Vec::new();
        let mut i: usize = 0;
        while i < SINE_TABLE_SIZE
            invariant
                i <= SINE_TABLE_SIZE,
                samples@.len() == SINE_TABLE_SIZE,
                values@ == samples@.take(i as int),
                forall|j: int| 0 <= j < i ==> -SINE_ONE <= #[trigger] samples@[j] <= SINE_ONE,
            decreases SINE_TABLE_SIZE - i,
        {
            let sample = samples[i];
            if sample < -SINE_ONE || sample > SINE_ONE {
                return None;
            }
            values.push(sample);
            assert(values@ =~= samples@.take(i + 1));
            i += 1;
        }
        assert(values@ =~= samples@);
        Some(SineTable { values })
    }

    /// The sample at `phase`.
    pub fn get(&self, phase: usize) -> (sample: i64)
        requires
            self.wf(),
            phase < SINE_TABLE_SIZE,
        ensures
            sample == self@[phase as int],
            -SINE_ONE <= sample <= SINE_ONE,
    {
        self.values[phase]
    }
}

} // verus!
