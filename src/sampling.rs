//! Sampling: a per-attempt coin flip that decides whether a job is
//! proven for real or skipped.

use vstd::prelude::*;

verus! {

/// Smallest value the sampler draws.
pub const DRAW_LOW: u32 = 1;

/// One past the largest value the sampler draws.
pub const DRAW_HIGH: u32 = 100;

/// Whether a draw skips the job under the given proving percentage.
pub open spec fn skips(percentage: Option<u32>, draw: u32) -> bool {
    match percentage {
        Some(p) => draw > p,
        None => false,
    }
}

/// What the sampler decided for one job attempt.
#[derive(Clone, Copy, Debug, PartialEq, Eq, Structural)]
pub enum SamplingDecision {
    /// Generate the witness.
    Prove,
    /// Skip real computation and mark the block as not requiring a proof.
    Skip,
}

/// Decides from a draw already made: the job is skipped exactly when a
/// proving percentage is configured and the draw exceeds it.
pub fn decide_with_draw(percentage: Option<u32>, draw: u32) -> (r: SamplingDecision)
    ensures
        (r == SamplingDecision::Skip) == skips(percentage, draw),
{
    match percentage {
        Some(p) => {
            if draw > p {
                SamplingDecision::Skip
            } else {
                SamplingDecision::Prove
            }
        },
        None => SamplingDecision::Prove,
    }
}

/// Relies on rand's `thread_rng().gen_range(low..high)`: a value in `low..high`.
#[verifier::external_body]
fn draw_in_range(low: u32, high: u32) -> (r: u32)
    requires
        low < high,
    ensures
        low <= r < high,
{
    rand::Rng::gen_range(&mut rand::thread_rng(), low..high)
}

/// Runs the sampler for one job attempt. Without a configured percentage no
/// draw is made and the job is proven; otherwise a fresh uniform draw in
/// `DRAW_LOW..DRAW_HIGH` decides, so a percentage of 99 or more never skips.
pub fn decide(percentage: Option<u32>) -> (r: SamplingDecision)
    ensures
        percentage is None ==> r == SamplingDecision::Prove,
        percentage matches Some(p) && p >= DRAW_HIGH - 1 ==> r == SamplingDecision::Prove,
        percentage matches Some(p) && p == 0 ==> r == SamplingDecision::Skip,
        r == SamplingDecision::Skip ==> exists|d: u32|
            DRAW_LOW <= d < DRAW_HIGH && #[trigger] skips(percentage, d),
        r == SamplingDecision::Prove ==> exists|d: u32|
            DRAW_LOW <= d < DRAW_HIGH && !#[trigger] skips(percentage, d),
{
    match percentage {
        None => {
            assert(!skips(percentage, DRAW_LOW));
            SamplingDecision::Prove
        },
        Some(_) => {
            let draw = draw_in_range(DRAW_LOW, DRAW_HIGH);
            let r = decide_with_draw(percentage, draw);
            assert(r == SamplingDecision::Skip ==> skips(percentage, draw));
            assert(r == SamplingDecision::Prove ==> !skips(percentage, draw));
            r
        },
    }
}

/// Number of draws in `DRAW_LOW..=n` that skip under the percentage.
pub open spec fn skipping_draws(percentage: Option<u32>, n: u32) -> nat
    decreases n,
{
    if n < DRAW_LOW {
        0
    } else {
        skipping_draws(percentage, (n - 1) as u32) + if skips(percentage, n) {
            1nat
        } else {
            0nat
        }
    }
}

/// Of the `DRAW_HIGH - DRAW_LOW` equally likely draws, exactly those above the
/// percentage skip: with percentage `p` that is `99 - min(p, 99)` of the 99
/// draws, none when no percentage is set.
pub proof fn lemma_skip_rate(percentage: Option<u32>)
    ensures
        percentage is None ==> skipping_draws(percentage, (DRAW_HIGH - 1) as u32) == 0,
        percentage matches Some(p) ==> skipping_draws(percentage, (DRAW_HIGH - 1) as u32)
            == (DRAW_HIGH - 1) - if p < DRAW_HIGH - 1 { p as int } else { (DRAW_HIGH - 1) as int },
{
    lemma_skipping_draws_upto(percentage, (DRAW_HIGH - 1) as u32);
}

proof fn lemma_skipping_draws_upto(percentage: Option<u32>, n: u32)
    ensures
        percentage is None ==> skipping_draws(percentage, n) == 0,
        percentage matches Some(p) ==> skipping_draws(percentage, n) == if n > p {
            n - p
        } else {
            0
        },
    decreases n,
{
    if n >= DRAW_LOW {
        lemma_skipping_draws_upto(percentage, (n - 1) as u32);
    }
}

} // verus!
