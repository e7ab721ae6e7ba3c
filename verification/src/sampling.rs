//! The Sampling Gate: per transaction, a uniform draw from 1 to 100 compared
//! against the configured percentage decides keep or drop.

use vstd::prelude::*;

use crate::config::Config;
use rand::Rng;

verus! {

/// Whether a drawn value keeps the transaction under a sampling percentage.
pub open spec fn keeps(drawn: u8, percentage: int) -> bool {
    drawn as int <= percentage
}

/// Keep exactly when the drawn value does not exceed the percentage.
pub fn should_sample(drawn: u8, percentage: i64) -> (r: bool)
    ensures
        r == keeps(drawn, percentage as int),
{
    (drawn as i64) <= percentage
}

/// Relies on `rand::Rng::gen_range` over `1..=100` on `rand::thread_rng`:
/// the drawn value lies in the inclusive range. Nothing else is promised of
/// it: it is random.
#[verifier::external_body]
pub(crate) fn draw_percent() -> (r: u8)
    ensures
        1 <= r <= 100,
{
    rand::thread_rng().gen_range(1..=100)
}

/// Draws this transaction's sample and decides keep or drop. A percentage of
/// at least 100 (or an absent one) always keeps; one of 0 or below never
/// does; in between the outcome follows the draw.
pub fn sample(config: &Config) -> (r: bool)
    ensures
        config.spec_effective_percentage() >= 100 ==> r,
        config.spec_effective_percentage() <= 0 ==> !r,
        exists|drawn: u8|
            1 <= drawn <= 100 && r == keeps(drawn, config.spec_effective_percentage()),
{
    let drawn = draw_percent();
    should_sample(drawn, config.effective_percentage())
}

/// At a percentage of 100 — the default when none is configured — every
/// possible draw keeps the transaction; at 0 none does.
pub proof fn lemma_sampling_boundaries(drawn: u8, absent: Config)
    requires
        1 <= drawn <= 100,
        absent.sampling_percentage is None,
    ensures
        keeps(drawn, 100),
        !keeps(drawn, 0),
        keeps(drawn, absent.spec_effective_percentage()),
        forall|p: int| p >= 100 ==> keeps(drawn, p),
        forall|p: int| p <= 0 ==> !keeps(drawn, p),
{
}

} // verus!
