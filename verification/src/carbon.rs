//! The carbon aggregator: averages the intensity samples of a window and
//! scales the window's electricity usage by that mean.
//!
//! The mean is kept as an exact ratio (intensity sum over sample count);
//! rounding happens only in the explicit milligram conversions below, and
//! an empty sample set is rejected outright rather than letting a division
//! by zero slip through.

use vstd::prelude::*;
use vstd::arithmetic::mul::{lemma_mul_inequality, lemma_mul_is_distributive_add};
use crate::calendar::Instant;

verus! {

/// One carbon-intensity sample (grams of CO2 per kilowatt-hour) from the
/// grid service.
#[derive(Clone, Copy, PartialEq, Eq, Structural, Debug)]
pub struct IntensitySample {
    pub timestamp: Instant,
    pub intensity: u32,
}

/// Carbon aggregation failed.
#[derive(Clone, Copy, PartialEq, Eq, Structural, Debug)]
pub enum CarbonError {
    /// The window had no intensity samples, so no mean exists.
    EmptyIntensityData,
}

/// A window's carbon figure as an exact ratio: the total grams of CO2 are
/// `usage_micro_kwh * intensity_sum / (1_000_000 * sample_count)`.
#[derive(Clone, Copy, PartialEq, Eq, Structural, Debug)]
pub struct CarbonEstimate {
    pub usage_micro_kwh: u128,
    pub intensity_sum: u128,
    pub sample_count: usize,
}

/// The exact sum of the samples' intensity values.
pub open spec fn sum_intensity(s: Seq<IntensitySample>) -> int
    decreases s.len(),
{
    if s.len() == 0 {
        0
    } else {
        sum_intensity(s.drop_last()) + s.last().intensity
    }
}

/// A well-formed estimate: at least one sample, and an intensity sum that a
/// set of that many samples can actually reach.
pub open spec fn estimate_wf(e: CarbonEstimate) -> bool {
    &&& e.sample_count > 0
    &&& e.intensity_sum <= e.sample_count * (u32::MAX as int)
}

/// The whole outcome of carbon aggregation over a sample sequence.
pub open spec fn carbon_result(usage_micro_kwh: u128, samples: Seq<IntensitySample>) -> Result<
    CarbonEstimate,
    CarbonError,
> {
    if samples.len() == 0 {
        Err(CarbonError::EmptyIntensityData)
    } else {
        Ok(
            CarbonEstimate {
                usage_micro_kwh,
                intensity_sum: sum_intensity(samples) as u128,
                sample_count: samples.len() as usize,
            },
        )
    }
}

/// Aggregates a window's intensity samples against its electricity usage.
/// An empty sample set fails with `EmptyIntensityData`; it never yields a
/// value that merely looks like a number.
pub fn aggregate_carbon(usage_micro_kwh: u128, samples: &Vec<IntensitySample>) -> (r: Result<
    CarbonEstimate,
    CarbonError,
>)
    ensures
        r == carbon_result(usage_micro_kwh, samples@),
        r is Err <==> samples@.len() == 0,
        r is Ok ==> estimate_wf(r->Ok_0),
{
    if samples.len() == 0 {
        return Err(CarbonError::EmptyIntensityData);
    }
    let mut sum: u128 = 0;
    let mut i: usize = 0;
    while i < samples.len()
        invariant
            i <= samples@.len(),
            sum as int == sum_intensity(samples@.take(i as int)),
            sum as int <= (i as int) * (u32::MAX as int),
        decreases samples@.len() - i,
    {
        proof {
            assert(samples@.take(i as int + 1).drop_last() =~= samples@.take(i as int));
            assert((i as int) * (u32::MAX as int) + (u32::MAX as int) == (i as int + 1) * (
            u32::MAX as int)) by {
                lemma_mul_is_distributive_add(u32::MAX as int, i as int, 1);
                assert((i as int + 1) * (u32::MAX as int) == (u32::MAX as int) * (i as int + 1));
            }
            lemma_mul_inequality(i as int + 1, usize::MAX as int, u32::MAX as int);
        }
        sum = sum + samples[i].intensity as u128;
        i = i + 1;
    }
    proof {
        assert(samples@.take(i as int) =~= samples@);
        lemma_mul_inequality(samples@.len() as int, samples@.len() as int, u32::MAX as int);
    }
    Ok(CarbonEstimate { usage_micro_kwh, intensity_sum: sum, sample_count: samples.len() })
}

impl CarbonEstimate {
    /// The mean intensity in milligrams of CO2 per kilowatt-hour, rounded
    /// down: `1000 * intensity_sum / sample_count`.
    pub fn mean_intensity_milli(&self) -> (r: u128)
        requires
            estimate_wf(*self),
        ensures
            r as int == 1000 * self.intensity_sum as int / self.sample_count as int,
    {
        proof {
            lemma_mul_inequality(
                self.sample_count as int,
                usize::MAX as int,
                u32::MAX as int,
            );
            assert(self.intensity_sum as int * 1000 <= (usize::MAX as int) * (u32::MAX as int)
                * 1000) by {
                lemma_mul_inequality(
                    self.intensity_sum as int,
                    (usize::MAX as int) * (u32::MAX as int),
                    1000,
                );
            }
            assert((usize::MAX as int) * (u32::MAX as int) * 1000 < u128::MAX as int);
            assert(1000 * self.intensity_sum as int == self.intensity_sum as int * 1000);
        }
        (1000 * self.intensity_sum) / (self.sample_count as u128)
    }

    /// The window's total carbon in milligrams of CO2, rounded down:
    /// `1000 * usage_micro_kwh * intensity_sum / (1_000_000 * sample_count)`.
    /// `None` exactly when the scaled product would not fit in 128 bits.
    pub fn carbon_milligrams(&self) -> (r: Option<u128>)
        requires
            estimate_wf(*self),
        ensures
            r is Some <==> self.usage_micro_kwh as int * self.intensity_sum as int * 1000
                <= u128::MAX as int,
            r is Some ==> r->Some_0 as int == self.usage_micro_kwh as int
                * self.intensity_sum as int * 1000 / (1_000_000 * self.sample_count as int),
    {
        match self.usage_micro_kwh.checked_mul(self.intensity_sum) {
            Some(product) => match product.checked_mul(1000) {
                Some(scaled) => Some(scaled / (1_000_000 * self.sample_count as u128)),
                None => None,
            },
            None => {
                proof {
                    let u = self.usage_micro_kwh as int;
                    let s = self.intensity_sum as int;
                    assert(u * s * 1000 > u128::MAX as int) by (nonlinear_arith)
                        requires
                            u * s > u128::MAX as int,
                            u >= 0,
                            s >= 0,
                    ;
                }
                None
            },
        }
    }
}

} // verus!
