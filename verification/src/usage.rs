//! The consumption aggregator: reduces a window's readings to one exact
//! kilowatt-hour figure per commodity.
//!
//! Consumption is carried in micro-kilowatt-hours so that every sum is an
//! exact integer; the surrounding process converts to and from the decimal
//! figures the upstream service reports.

use vstd::prelude::*;
use vstd::arithmetic::mul::{lemma_mul_inequality, lemma_mul_is_distributive_add};
use crate::calendar::Instant;

verus! {

/// The two metered commodities.
#[derive(Clone, Copy, PartialEq, Eq, Structural, Debug)]
pub enum Commodity {
    Electricity,
    Gas,
}

/// One consumption reading from the upstream meter service.
#[derive(Clone, Copy, PartialEq, Eq, Structural, Debug)]
pub struct Reading {
    pub timestamp: Instant,
    pub consumption_micro_kwh: u64,
}

/// The exact sum of the readings' consumption values.
pub open spec fn sum_consumption_micro(s: Seq<Reading>) -> int
    decreases s.len(),
{
    if s.len() == 0 {
        0
    } else {
        sum_consumption_micro(s.drop_last()) + s.last().consumption_micro_kwh
    }
}

/// Sums every reading of one window into a single micro-kilowatt-hour
/// figure.  An empty reading set sums to zero.
pub fn sum_consumption(readings: &Vec<Reading>) -> (total: u128)
    ensures
        total as int == sum_consumption_micro(readings@),
{
    let mut total: u128 = 0;
    let mut i: usize = 0;
    while i < readings.len()
        invariant
            i <= readings@.len(),
            total as int == sum_consumption_micro(readings@.take(i as int)),
            total as int <= (i as int) * (u64::MAX as int),
        decreases readings@.len() - i,
    {
        proof {
            assert(readings@.take(i as int + 1).drop_last() =~= readings@.take(i as int));
            assert((i as int) * (u64::MAX as int) + (u64::MAX as int) == (i as int + 1) * (
            u64::MAX as int)) by {
                lemma_mul_is_distributive_add(u64::MAX as int, i as int, 1);
                assert((i as int + 1) * (u64::MAX as int) == (u64::MAX as int) * (i as int + 1));
            }
            lemma_mul_inequality(i as int + 1, usize::MAX as int, u64::MAX as int);
        }
        total = total + readings[i].consumption_micro_kwh as u128;
        i = i + 1;
    }
    proof {
        assert(readings@.take(i as int) =~= readings@);
    }
    total
}

} // verus!
