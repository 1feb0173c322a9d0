//! Turning the renderer's progress counters into a stage and a completion
//! fraction.
use vstd::prelude::*;
use std::sync::Arc;
use atomic_counter::RelaxedCounter;
use crate::token::counter_get;

verus! {

/// One reading of the renderer's progress counters.
#[derive(Clone, Copy, Debug, PartialEq, Eq, Structural)]
pub struct ProgressReadings {
    pub reference: usize,
    pub reference_maximum: usize,
    pub series_approximation: usize,
    /// Steps of series validation done, out of two.
    pub series_validation: usize,
    pub iteration: usize,
    pub glitched_maximum: usize,
    pub min_series_approximation: usize,
}

/// An exact fraction `numerator / denominator`.
#[derive(Clone, Copy, Debug, PartialEq, Eq, Structural)]
pub struct Fraction {
    pub numerator: u128,
    pub denominator: u128,
}

/// What the presentation layer is shown of a render's progress.
#[derive(Clone, Copy, Debug, PartialEq, Eq, Structural)]
pub struct ProgressSnapshot {
    /// 0: reference and series approximation, 1: pixel iteration,
    /// 2: glitch correction, 3: complete.
    pub stage: usize,
    pub fraction: Fraction,
    pub elapsed_ms: u64,
    pub min_valid_iteration: usize,
}

/// The stage that a reading shows.
pub open spec fn stage_of(r: ProgressReadings) -> int {
    if r.series_validation < 2 {
        0
    } else if r.glitched_maximum != 0 {
        2
    } else {
        1
    }
}

/// The completion ratio of a reading before clamping, as (numerator,
/// denominator). The first stage weighs the reference orbit at 45%, the
/// series approximation at 45% and its validation at 10%; an unset maximum
/// counts as no progress.
pub open spec fn raw_ratio(r: ProgressReadings, total_pixels: int) -> (int, int) {
    if r.series_validation < 2 {
        if r.reference_maximum == 0 {
            (0, 1)
        } else {
            (
                9 * r.reference + 9 * r.series_approximation + r.series_validation
                    * r.reference_maximum,
                20 * r.reference_maximum,
            )
        }
    } else if r.glitched_maximum != 0 {
        (r.iteration - (total_pixels - r.glitched_maximum), r.glitched_maximum as int)
    } else if total_pixels == 0 {
        (0, 1)
    } else {
        (r.iteration as int, total_pixels)
    }
}

/// `n` held within `0..=d`.
pub open spec fn clamp_to(n: int, d: int) -> int {
    if n < 0 {
        0
    } else if n > d {
        d
    } else {
        n
    }
}

/// The fraction that a reading shows, within [0, 1].
pub open spec fn fraction_of(r: ProgressReadings, total_pixels: int) -> Fraction {
    let (n, d) = raw_ratio(r, total_pixels);
    Fraction { numerator: clamp_to(n, d) as u128, denominator: d as u128 }
}

/// A fraction between zero and one with a positive denominator.
pub open spec fn within_unit(f: Fraction) -> bool {
    0 < f.denominator && f.numerator <= f.denominator
}

/// The stage and completion fraction of one reading, for an image of
/// `image_width * image_height` pixels.
pub fn estimate(r: &ProgressReadings, image_width: usize, image_height: usize) -> (res: (
    usize,
    Fraction,
))
    ensures
        res.0 == stage_of(*r),
        res.1 == fraction_of(*r, image_width * image_height),
        within_unit(res.1),
{
    proof {
        lemma_pixels_bounded(image_width, image_height);
    }
    let total: u128 = image_width as u128 * image_height as u128;
    if r.series_validation < 2 {
        if r.reference_maximum == 0 {
            return (0, Fraction { numerator: 0, denominator: 1 });
        }
        let den: u128 = 20 * r.reference_maximum as u128;
        assert(r.series_validation * r.reference_maximum <= 2 * r.reference_maximum)
            by (nonlinear_arith)
            requires
                r.series_validation < 2,
        ;
        let num: u128 = 9 * r.reference as u128 + 9 * r.series_approximation as u128
            + r.series_validation as u128 * r.reference_maximum as u128;
        let clamped: u128 = if num > den {
            den
        } else {
            num
        };
        (0, Fraction { numerator: clamped, denominator: den })
    } else if r.glitched_maximum != 0 {
        let reached: u128 = r.iteration as u128 + r.glitched_maximum as u128;
        let glitched: u128 = r.glitched_maximum as u128;
        let done: u128 = if reached <= total {
            0
        } else if reached - total > glitched {
            glitched
        } else {
            reached - total
        };
        (2, Fraction { numerator: done, denominator: glitched })
    } else if total == 0 {
        (1, Fraction { numerator: 0, denominator: 1 })
    } else {
        let iteration: u128 = r.iteration as u128;
        let done: u128 = if iteration > total {
            total
        } else {
            iteration
        };
        (1, Fraction { numerator: done, denominator: total })
    }
}

/// One periodic sample: the reading's stage and fraction, the time since the
/// render started, and the smallest iteration that the series approximation
/// has left valid.
pub fn sample(r: &ProgressReadings, image_width: usize, image_height: usize, elapsed_ms: u64) -> (s:
    ProgressSnapshot)
    ensures
        s.stage == stage_of(*r),
        s.fraction == fraction_of(*r, image_width * image_height),
        s.elapsed_ms == elapsed_ms,
        s.min_valid_iteration == r.min_series_approximation,
{
    let (stage, fraction) = estimate(r, image_width, image_height);
    ProgressSnapshot {
        stage,
        fraction,
        elapsed_ms,
        min_valid_iteration: r.min_series_approximation,
    }
}

/// The last snapshot of a render: complete, with the render's total time.
pub fn final_snapshot(elapsed_ms: u64, min_valid_iteration: usize) -> (s: ProgressSnapshot)
    ensures
        s == (ProgressSnapshot {
            stage: 3,
            fraction: Fraction { numerator: 1, denominator: 1 },
            elapsed_ms,
            min_valid_iteration,
        }),
{
    ProgressSnapshot {
        stage: 3,
        fraction: Fraction { numerator: 1, denominator: 1 },
        elapsed_ms,
        min_valid_iteration,
    }
}

proof fn lemma_pixels_bounded(image_width: usize, image_height: usize)
    ensures
        0 <= image_width * image_height <= u64::MAX as int * u64::MAX as int,
{
    let (w, h) = (image_width as int, image_height as int);
    assert(0 <= w * h <= u64::MAX as int * u64::MAX as int) by (nonlinear_arith)
        requires
            0 <= w <= u64::MAX,
            0 <= h <= u64::MAX,
    ;
}

/// The renderer's progress counters, shared with the thread that updates
/// them.
pub struct ProgressCounters {
    pub reference: Arc<RelaxedCounter>,
    pub reference_maximum: Arc<RelaxedCounter>,
    pub series_approximation: Arc<RelaxedCounter>,
    pub series_validation: Arc<RelaxedCounter>,
    pub iteration: Arc<RelaxedCounter>,
    pub glitched_maximum: Arc<RelaxedCounter>,
    pub min_series_approximation: Arc<RelaxedCounter>,
}

impl ProgressCounters {
    /// Reads every counter once. The renderer keeps counting meanwhile, so the
    /// reading may mix moments.
    pub fn read(&self) -> (r: ProgressReadings) {
        ProgressReadings {
            reference: counter_get(&self.reference),
            reference_maximum: counter_get(&self.reference_maximum),
            series_approximation: counter_get(&self.series_approximation),
            series_validation: counter_get(&self.series_validation),
            iteration: counter_get(&self.iteration),
            glitched_maximum: counter_get(&self.glitched_maximum),
            min_series_approximation: counter_get(&self.min_series_approximation),
        }
    }

    /// Reads the counters and samples them: whatever they hold, the stage is
    /// one of the three working stages and the fraction lies in [0, 1].
    pub fn sample(&self, image_width: usize, image_height: usize, elapsed_ms: u64) -> (s:
        ProgressSnapshot)
        ensures
            s.stage < 3,
            within_unit(s.fraction),
            s.elapsed_ms == elapsed_ms,
    {
        let r = self.read();
        let s = sample(&r, image_width, image_height, elapsed_ms);
        proof {
            lemma_fraction_within_unit(r, image_width, image_height);
        }
        s
    }
}

/// Every reading, whatever races left in its counters, gives a fraction
/// between zero and one.
pub proof fn lemma_fraction_within_unit(r: ProgressReadings, image_width: usize, image_height: usize)
    ensures
        within_unit(fraction_of(r, image_width * image_height)),
{
    lemma_pixels_bounded(image_width, image_height);
}

/// While the counters only grow, the stage never goes back; and every stage
/// that a reading shows comes before the final one.
pub proof fn lemma_stage_monotone(earlier: ProgressReadings, later: ProgressReadings)
    requires
        earlier.series_validation <= later.series_validation,
        earlier.glitched_maximum <= later.glitched_maximum,
    ensures
        stage_of(earlier) <= stage_of(later),
        stage_of(later) < 3,
{
}

} // verus!
