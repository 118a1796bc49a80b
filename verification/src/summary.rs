//! The usage-summary builder: reduces the outcomes of one poll cycle's
//! upstream calls to a single per-cycle summary.
//!
//! A failed call, or an empty intensity set, blanks only its own cell and
//! adds one error; every other window and commodity is still aggregated.

use vstd::prelude::*;
use crate::calendar::WindowLabel;
use crate::carbon::{
    aggregate_carbon, estimate_wf, sum_intensity, CarbonEstimate, IntensitySample,
};
use crate::usage::{sum_consumption, sum_consumption_micro, Commodity, Reading};

verus! {

/// An upstream call that did not return data.
#[derive(Clone, Copy, PartialEq, Eq, Structural, Debug)]
pub struct FetchFailure;

/// The outcomes of the three upstream calls made for one window.
#[derive(Debug)]
pub struct WindowFetch {
    pub electricity: Result<Vec<Reading>, FetchFailure>,
    pub gas: Result<Vec<Reading>, FetchFailure>,
    pub intensity: Result<Vec<IntensitySample>, FetchFailure>,
}

/// One recoverable failure inside a poll cycle.
#[derive(Clone, Copy, PartialEq, Eq, Structural, Debug)]
pub enum CellError {
    /// A consumption fetch failed for this commodity and window.
    ReadingFetch(Commodity, WindowLabel),
    /// The intensity fetch failed for this window.
    IntensityFetch(WindowLabel),
    /// The intensity fetch returned no samples for this window.
    EmptyIntensityData(WindowLabel),
}

/// The aggregates of one window; a blank cell means its call failed or,
/// for carbon, that an input it needs is missing.
#[derive(Clone, Copy, PartialEq, Eq, Debug)]
pub struct WindowCells {
    pub electricity_micro_kwh: Option<u128>,
    pub gas_micro_kwh: Option<u128>,
    pub carbon: Option<CarbonEstimate>,
}

/// What one window's cells must hold, given its fetch outcomes: each
/// commodity sums its readings when its call succeeded, and carbon exists
/// exactly when both the electricity usage and a non-empty sample set do.
pub open spec fn window_cells_spec(f: WindowFetch) -> WindowCells {
    WindowCells {
        electricity_micro_kwh: match f.electricity {
            Ok(rs) => Some(sum_consumption_micro(rs@) as u128),
            Err(_) => None,
        },
        gas_micro_kwh: match f.gas {
            Ok(rs) => Some(sum_consumption_micro(rs@) as u128),
            Err(_) => None,
        },
        carbon: match (f.electricity, f.intensity) {
            (Ok(rs), Ok(ss)) => if ss@.len() == 0 {
                None
            } else {
                Some(
                    CarbonEstimate {
                        usage_micro_kwh: sum_consumption_micro(rs@) as u128,
                        intensity_sum: sum_intensity(ss@) as u128,
                        sample_count: ss@.len() as usize,
                    },
                )
            },
            _ => None,
        },
    }
}

/// The errors one window contributes, in fetch order: electricity, gas,
/// then intensity (a failed call, or a successful one with no samples).
pub open spec fn window_errors_spec(label: WindowLabel, f: WindowFetch) -> Seq<CellError> {
    (if f.electricity is Err {
        seq![CellError::ReadingFetch(Commodity::Electricity, label)]
    } else {
        Seq::<CellError>::empty()
    }) + (if f.gas is Err {
        seq![CellError::ReadingFetch(Commodity::Gas, label)]
    } else {
        Seq::<CellError>::empty()
    }) + (match f.intensity {
        Ok(ss) => if ss@.len() == 0 {
            seq![CellError::EmptyIntensityData(label)]
        } else {
            Seq::<CellError>::empty()
        },
        Err(_) => seq![CellError::IntensityFetch(label)],
    })
}

/// Aggregates one window from its fetch outcomes.  A failure blanks only
/// the cells that depend on it and is reported as an error.
pub fn build_window(label: WindowLabel, fetch: &WindowFetch) -> (r: (WindowCells, Vec<CellError>))
    ensures
        r.0 == window_cells_spec(*fetch),
        r.1@ == window_errors_spec(label, *fetch),
        r.0.carbon is Some ==> estimate_wf(r.0.carbon->Some_0),
{
    let mut errors: Vec<CellError> = Vec::new();
    let electricity_micro_kwh: Option<u128> = match &fetch.electricity {
        Ok(rs) => Some(sum_consumption(rs)),
        Err(_) => {
            errors.push(CellError::ReadingFetch(Commodity::Electricity, label));
            None
        },
    };
    let gas_micro_kwh: Option<u128> = match &fetch.gas {
        Ok(rs) => Some(sum_consumption(rs)),
        Err(_) => {
            errors.push(CellError::ReadingFetch(Commodity::Gas, label));
            None
        },
    };
    let carbon: Option<CarbonEstimate> = match &fetch.intensity {
        Ok(ss) => {
            if ss.len() == 0 {
                errors.push(CellError::EmptyIntensityData(label));
                None
            } else {
                match electricity_micro_kwh {
                    Some(usage) => match aggregate_carbon(usage, ss) {
                        Ok(est) => Some(est),
                        Err(_) => None,
                    },
                    None => None,
                }
            }
        },
        Err(_) => {
            errors.push(CellError::IntensityFetch(label));
            None
        },
    };
    proof {
        assert(errors@ =~= window_errors_spec(label, *fetch));
    }
    (WindowCells { electricity_micro_kwh, gas_micro_kwh, carbon }, errors)
}

/// One poll cycle's aggregates: per window, electricity and gas usage in
/// micro-kilowatt-hours and the carbon estimate.  A blank field means that
/// window's call failed in this cycle and its previous gauge value should
/// be left standing.
#[derive(Clone, Copy, PartialEq, Eq, Debug)]
pub struct Summary {
    pub e_usage_kwh_two_days: Option<u128>,
    pub e_usage_kwh_week: Option<u128>,
    pub e_usage_kwh_two_weeks: Option<u128>,
    pub e_usage_kwh_four_weeks: Option<u128>,
    pub e_usage_kwh_month: Option<u128>,
    pub e_usage_kwh_two_months: Option<u128>,
    pub e_usage_kwh_three_months: Option<u128>,
    pub e_usage_kwh_six_months: Option<u128>,
    pub e_usage_kwh_year: Option<u128>,
    pub g_usage_kwh_two_days: Option<u128>,
    pub g_usage_kwh_week: Option<u128>,
    pub g_usage_kwh_two_weeks: Option<u128>,
    pub g_usage_kwh_four_weeks: Option<u128>,
    pub g_usage_kwh_month: Option<u128>,
    pub g_usage_kwh_two_months: Option<u128>,
    pub g_usage_kwh_three_months: Option<u128>,
    pub g_usage_kwh_six_months: Option<u128>,
    pub g_usage_kwh_year: Option<u128>,
    pub carbon_intensity_two_days: Option<CarbonEstimate>,
    pub carbon_intensity_week: Option<CarbonEstimate>,
    pub carbon_intensity_two_weeks: Option<CarbonEstimate>,
    pub carbon_intensity_four_weeks: Option<CarbonEstimate>,
    pub carbon_intensity_month: Option<CarbonEstimate>,
    pub carbon_intensity_two_months: Option<CarbonEstimate>,
    pub carbon_intensity_three_months: Option<CarbonEstimate>,
    pub carbon_intensity_six_months: Option<CarbonEstimate>,
    pub carbon_intensity_year: Option<CarbonEstimate>,
}

/// The fetch outcomes of one whole poll cycle, one `WindowFetch` per
/// window label.
#[derive(Debug)]
pub struct SummaryInputs {
    pub two_days: WindowFetch,
    pub week: WindowFetch,
    pub two_weeks: WindowFetch,
    pub four_weeks: WindowFetch,
    pub month: WindowFetch,
    pub two_months: WindowFetch,
    pub three_months: WindowFetch,
    pub six_months: WindowFetch,
    pub year: WindowFetch,
}

/// The fetch outcomes a label selects from the cycle's inputs.
pub open spec fn fetch_of(i: SummaryInputs, label: WindowLabel) -> WindowFetch {
    match label {
        WindowLabel::TwoDays => i.two_days,
        WindowLabel::OneWeek => i.week,
        WindowLabel::TwoWeeks => i.two_weeks,
        WindowLabel::FourWeeks => i.four_weeks,
        WindowLabel::OneMonth => i.month,
        WindowLabel::TwoMonths => i.two_months,
        WindowLabel::ThreeMonths => i.three_months,
        WindowLabel::SixMonths => i.six_months,
        WindowLabel::OneYear => i.year,
    }
}

/// The cells a label selects from a summary.
pub open spec fn cells_of(s: Summary, label: WindowLabel) -> WindowCells {
    match label {
        WindowLabel::TwoDays => WindowCells {
            electricity_micro_kwh: s.e_usage_kwh_two_days,
            gas_micro_kwh: s.g_usage_kwh_two_days,
            carbon: s.carbon_intensity_two_days,
        },
        WindowLabel::OneWeek => WindowCells {
            electricity_micro_kwh: s.e_usage_kwh_week,
            gas_micro_kwh: s.g_usage_kwh_week,
            carbon: s.carbon_intensity_week,
        },
        WindowLabel::TwoWeeks => WindowCells {
            electricity_micro_kwh: s.e_usage_kwh_two_weeks,
            gas_micro_kwh: s.g_usage_kwh_two_weeks,
            carbon: s.carbon_intensity_two_weeks,
        },
        WindowLabel::FourWeeks => WindowCells {
            electricity_micro_kwh: s.e_usage_kwh_four_weeks,
            gas_micro_kwh: s.g_usage_kwh_four_weeks,
            carbon: s.carbon_intensity_four_weeks,
        },
        WindowLabel::OneMonth => WindowCells {
            electricity_micro_kwh: s.e_usage_kwh_month,
            gas_micro_kwh: s.g_usage_kwh_month,
            carbon: s.carbon_intensity_month,
        },
        WindowLabel::TwoMonths => WindowCells {
            electricity_micro_kwh: s.e_usage_kwh_two_months,
            gas_micro_kwh: s.g_usage_kwh_two_months,
            carbon: s.carbon_intensity_two_months,
        },
        WindowLabel::ThreeMonths => WindowCells {
            electricity_micro_kwh: s.e_usage_kwh_three_months,
            gas_micro_kwh: s.g_usage_kwh_three_months,
            carbon: s.carbon_intensity_three_months,
        },
        WindowLabel::SixMonths => WindowCells {
            electricity_micro_kwh: s.e_usage_kwh_six_months,
            gas_micro_kwh: s.g_usage_kwh_six_months,
            carbon: s.carbon_intensity_six_months,
        },
        WindowLabel::OneYear => WindowCells {
            electricity_micro_kwh: s.e_usage_kwh_year,
            gas_micro_kwh: s.g_usage_kwh_year,
            carbon: s.carbon_intensity_year,
        },
    }
}

/// Every window's cells in the summary are exactly what that window's
/// fetch outcomes demand.
pub open spec fn summary_matches(s: Summary, i: SummaryInputs) -> bool {
    forall|label: WindowLabel| #[trigger] cells_of(s, label) == window_cells_spec(fetch_of(i, label))
}

/// All errors of one cycle, window by window in the fixed label order.
pub open spec fn summary_errors_spec(i: SummaryInputs) -> Seq<CellError> {
    window_errors_spec(WindowLabel::TwoDays, i.two_days) + window_errors_spec(
        WindowLabel::OneWeek,
        i.week,
    ) + window_errors_spec(WindowLabel::TwoWeeks, i.two_weeks) + window_errors_spec(
        WindowLabel::FourWeeks,
        i.four_weeks,
    ) + window_errors_spec(WindowLabel::OneMonth, i.month) + window_errors_spec(
        WindowLabel::TwoMonths,
        i.two_months,
    ) + window_errors_spec(WindowLabel::ThreeMonths, i.three_months) + window_errors_spec(
        WindowLabel::SixMonths,
        i.six_months,
    ) + window_errors_spec(WindowLabel::OneYear, i.year)
}

/// Builds the whole cycle's summary from its fetch outcomes.  Each failed
/// call blanks only its own cells; the errors come back beside the summary
/// so that the caller can count and log them.
pub fn build_summary(inputs: &SummaryInputs) -> (r: (Summary, Vec<CellError>))
    ensures
        summary_matches(r.0, *inputs),
        r.1@ == summary_errors_spec(*inputs),
        forall|label: WindowLabel|
            (#[trigger] cells_of(r.0, label)).carbon is Some ==> estimate_wf(
                cells_of(r.0, label).carbon->Some_0,
            ),
{
    let mut errors: Vec<CellError> = Vec::new();
    let (c_2d, mut e_2d) = build_window(WindowLabel::TwoDays, &inputs.two_days);
    errors.append(&mut e_2d);
    let (c_1w, mut e_1w) = build_window(WindowLabel::OneWeek, &inputs.week);
    errors.append(&mut e_1w);
    let (c_2w, mut e_2w) = build_window(WindowLabel::TwoWeeks, &inputs.two_weeks);
    errors.append(&mut e_2w);
    let (c_4w, mut e_4w) = build_window(WindowLabel::FourWeeks, &inputs.four_weeks);
    errors.append(&mut e_4w);
    let (c_1m, mut e_1m) = build_window(WindowLabel::OneMonth, &inputs.month);
    errors.append(&mut e_1m);
    let (c_2m, mut e_2m) = build_window(WindowLabel::TwoMonths, &inputs.two_months);
    errors.append(&mut e_2m);
    let (c_3m, mut e_3m) = build_window(WindowLabel::ThreeMonths, &inputs.three_months);
    errors.append(&mut e_3m);
    let (c_6m, mut e_6m) = build_window(WindowLabel::SixMonths, &inputs.six_months);
    errors.append(&mut e_6m);
    let (c_1y, mut e_1y) = build_window(WindowLabel::OneYear, &inputs.year);
    errors.append(&mut e_1y);
    let summary = Summary {
        e_usage_kwh_two_days: c_2d.electricity_micro_kwh,
        e_usage_kwh_week: c_1w.electricity_micro_kwh,
        e_usage_kwh_two_weeks: c_2w.electricity_micro_kwh,
        e_usage_kwh_four_weeks: c_4w.electricity_micro_kwh,
        e_usage_kwh_month: c_1m.electricity_micro_kwh,
        e_usage_kwh_two_months: c_2m.electricity_micro_kwh,
        e_usage_kwh_three_months: c_3m.electricity_micro_kwh,
        e_usage_kwh_six_months: c_6m.electricity_micro_kwh,
        e_usage_kwh_year: c_1y.electricity_micro_kwh,
        g_usage_kwh_two_days: c_2d.gas_micro_kwh,
        g_usage_kwh_week: c_1w.gas_micro_kwh,
        g_usage_kwh_two_weeks: c_2w.gas_micro_kwh,
        g_usage_kwh_four_weeks: c_4w.gas_micro_kwh,
        g_usage_kwh_month: c_1m.gas_micro_kwh,
        g_usage_kwh_two_months: c_2m.gas_micro_kwh,
        g_usage_kwh_three_months: c_3m.gas_micro_kwh,
        g_usage_kwh_six_months: c_6m.gas_micro_kwh,
        g_usage_kwh_year: c_1y.gas_micro_kwh,
        carbon_intensity_two_days: c_2d.carbon,
        carbon_intensity_week: c_1w.carbon,
        carbon_intensity_two_weeks: c_2w.carbon,
        carbon_intensity_four_weeks: c_4w.carbon,
        carbon_intensity_month: c_1m.carbon,
        carbon_intensity_two_months: c_2m.carbon,
        carbon_intensity_three_months: c_3m.carbon,
        carbon_intensity_six_months: c_6m.carbon,
        carbon_intensity_year: c_1y.carbon,
    };
    proof {
        assert forall|label: WindowLabel| #[trigger]
            cells_of(summary, label) == window_cells_spec(fetch_of(*inputs, label)) by {
            match label {
                WindowLabel::TwoDays => assert(cells_of(summary, label) == c_2d),
                WindowLabel::OneWeek => assert(cells_of(summary, label) == c_1w),
                WindowLabel::TwoWeeks => assert(cells_of(summary, label) == c_2w),
                WindowLabel::FourWeeks => assert(cells_of(summary, label) == c_4w),
                WindowLabel::OneMonth => assert(cells_of(summary, label) == c_1m),
                WindowLabel::TwoMonths => assert(cells_of(summary, label) == c_2m),
                WindowLabel::ThreeMonths => assert(cells_of(summary, label) == c_3m),
                WindowLabel::SixMonths => assert(cells_of(summary, label) == c_6m),
                WindowLabel::OneYear => assert(cells_of(summary, label) == c_1y),
            }
        }
    }
    (summary, errors)
}

/// Failure isolation: in a cycle where the gas fetch failed for exactly
/// one window and every other call succeeded with at least one intensity
/// sample, the summary still carries every window's electricity and
/// carbon figures and every other window's gas figure, and the cycle
/// reports exactly that one error.
pub proof fn lemma_single_gas_failure_is_isolated(i: SummaryInputs, failed: WindowLabel)
    requires
        forall|l: WindowLabel| (#[trigger] fetch_of(i, l)).electricity is Ok,
        forall|l: WindowLabel|
            (#[trigger] fetch_of(i, l)).intensity is Ok && fetch_of(i, l).intensity->Ok_0@.len()
                > 0,
        fetch_of(i, failed).gas is Err,
        forall|l: WindowLabel| l != failed ==> (#[trigger] fetch_of(i, l)).gas is Ok,
    ensures
        summary_errors_spec(i) =~= seq![CellError::ReadingFetch(Commodity::Gas, failed)],
        forall|l: WindowLabel|
            (#[trigger] window_cells_spec(fetch_of(i, l))).electricity_micro_kwh == Some(
                sum_consumption_micro(fetch_of(i, l).electricity->Ok_0@) as u128,
            ),
        forall|l: WindowLabel|
            (#[trigger] window_cells_spec(fetch_of(i, l))).carbon == Some(
                CarbonEstimate {
                    usage_micro_kwh: sum_consumption_micro(
                        fetch_of(i, l).electricity->Ok_0@,
                    ) as u128,
                    intensity_sum: sum_intensity(fetch_of(i, l).intensity->Ok_0@) as u128,
                    sample_count: fetch_of(i, l).intensity->Ok_0@.len() as usize,
                },
            ),
        forall|l: WindowLabel|
            l != failed ==> (#[trigger] window_cells_spec(fetch_of(i, l))).gas_micro_kwh == Some(
                sum_consumption_micro(fetch_of(i, l).gas->Ok_0@) as u128,
            ),
{
    let gas_err = seq![CellError::ReadingFetch(Commodity::Gas, failed)];
    assert forall|l: WindowLabel| #[trigger]
        window_errors_spec(l, fetch_of(i, l)) =~= (if l == failed {
            gas_err
        } else {
            Seq::<CellError>::empty()
        }) by {
        assert(fetch_of(i, l).electricity is Ok);
        assert(fetch_of(i, l).intensity is Ok && fetch_of(i, l).intensity->Ok_0@.len() > 0);
        if l != failed {
            assert(fetch_of(i, l).gas is Ok);
        }
    }
    assert(fetch_of(i, WindowLabel::TwoDays) == i.two_days);
    assert(fetch_of(i, WindowLabel::OneWeek) == i.week);
    assert(fetch_of(i, WindowLabel::TwoWeeks) == i.two_weeks);
    assert(fetch_of(i, WindowLabel::FourWeeks) == i.four_weeks);
    assert(fetch_of(i, WindowLabel::OneMonth) == i.month);
    assert(fetch_of(i, WindowLabel::TwoMonths) == i.two_months);
    assert(fetch_of(i, WindowLabel::ThreeMonths) == i.three_months);
    assert(fetch_of(i, WindowLabel::SixMonths) == i.six_months);
    assert(fetch_of(i, WindowLabel::OneYear) == i.year);
    match failed {
        WindowLabel::TwoDays => assert(summary_errors_spec(i) =~= gas_err),
        WindowLabel::OneWeek => assert(summary_errors_spec(i) =~= gas_err),
        WindowLabel::TwoWeeks => assert(summary_errors_spec(i) =~= gas_err),
        WindowLabel::FourWeeks => assert(summary_errors_spec(i) =~= gas_err),
        WindowLabel::OneMonth => assert(summary_errors_spec(i) =~= gas_err),
        WindowLabel::TwoMonths => assert(summary_errors_spec(i) =~= gas_err),
        WindowLabel::ThreeMonths => assert(summary_errors_spec(i) =~= gas_err),
        WindowLabel::SixMonths => assert(summary_errors_spec(i) =~= gas_err),
        WindowLabel::OneYear => assert(summary_errors_spec(i) =~= gas_err),
    }
}

} // verus!
