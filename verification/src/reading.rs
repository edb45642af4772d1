//! The moisture reading: a raw probe value paired with the calibrated
//! moisture percentage it maps to.

use vstd::arithmetic::div_mod::lemma_div_is_ordered;
use vstd::prelude::*;

verus! {

/// Full-scale raw reading of the probe's analog-to-digital converter:
/// raw values lie in [0, RAW_FULL_SCALE).
pub const RAW_FULL_SCALE: u32 = 4096;

/// Milliseconds between the start of successive samples.
pub const SAMPLE_PERIOD_MS: u64 = 1000;

/// Moisture percentage for a raw probe value: the raw share of full scale,
/// rounded to the nearest percent (half rounds up), subtracted from 100.
/// Drier soil gives a larger raw value, hence a smaller percentage.
pub open spec fn percentage_spec(raw: int) -> int {
    100 - ((raw * 100 + RAW_FULL_SCALE / 2) / (RAW_FULL_SCALE as int))
}

/// One sample published by the sampler and consumed by the renderer.
#[derive(Clone, Copy, PartialEq, Eq, Structural, Debug)]
pub struct Reading {
    pub raw_value: u16,
    pub percentage: u32,
}

impl Reading {
    /// A reading is well formed when its raw value is in the probe's range
    /// and its percentage is exactly the calibrated function of that value.
    pub open spec fn wf(self) -> bool {
        &&& self.raw_value < RAW_FULL_SCALE
        &&& self.percentage == percentage_spec(self.raw_value as int)
    }

    /// Build the reading for one raw probe sample.
    pub fn from_raw(raw: u16) -> (r: Reading)
        requires
            raw < RAW_FULL_SCALE,
        ensures
            r.wf(),
            r.raw_value == raw,
            r.percentage == percentage_spec(raw as int),
            r.percentage <= 100,
    {
        proof {
            lemma_percentage_in_range(raw as int);
        }
        let scaled: u32 = (raw as u32) * 100 + RAW_FULL_SCALE / 2;
        let percentage: u32 = 100 - scaled / RAW_FULL_SCALE;
        Reading { raw_value: raw, percentage }
    }

    /// The reading as the plain pair that travels over the channel.
    pub fn to_pair(&self) -> (p: (u16, u32))
        ensures
            p.0 == self.raw_value,
            p.1 == self.percentage,
    {
        (self.raw_value, self.percentage)
    }

    /// Rebuild a reading from a pair taken off the channel.
    pub fn from_pair(p: (u16, u32)) -> (r: Reading)
        ensures
            r.raw_value == p.0,
            r.percentage == p.1,
    {
        Reading { raw_value: p.0, percentage: p.1 }
    }
}

/// Every raw value in the probe's range yields a percentage in [0, 100].
pub proof fn lemma_percentage_in_range(raw: int)
    requires
        0 <= raw < RAW_FULL_SCALE,
    ensures
        0 <= percentage_spec(raw) <= 100,
{
    let num = raw * 100 + 2048;
    assert(num <= 411548);
    lemma_div_is_ordered(0, num, 4096);
    lemma_div_is_ordered(num, 411548, 4096);
    assert(411548int / 4096 == 100);
    assert(num / 4096 >= 0);
}

/// A wetter probe (smaller raw value) never reports less moisture: the
/// percentage is antitone in the raw value.
pub proof fn lemma_percentage_antitone(raw_a: int, raw_b: int)
    requires
        0 <= raw_a < raw_b < RAW_FULL_SCALE,
    ensures
        percentage_spec(raw_a) >= percentage_spec(raw_b),
{
    lemma_div_is_ordered(raw_a * 100 + 2048, raw_b * 100 + 2048, 4096);
}

} // verus!
