use vstd::prelude::*;

use crate::error::VaultError;
use crate::limits::{deposit_verdict, limits_valid, LimitsView, MIN_DEPOSIT_FLOOR};
use crate::vault::{next_limits, set_limits_verdict};

verus! {

/// Every pair with a minimum at or over the floor and a maximum at or over
/// the minimum is accepted from the administrator, and becomes the bounds
/// that the accessors then report.
pub proof fn lemma_valid_limits_accepted(b: LimitsView, min: int, max: int)
    requires
        min >= MIN_DEPOSIT_FLOOR,
        max >= min,
    ensures
        set_limits_verdict(true, min, max) == Ok::<(), VaultError>(()),
        next_limits(b, true, min, max) == (LimitsView { min, max }),
{
}

/// A minimum under the floor is refused with the floor error, whatever the
/// maximum, and the bounds stay as they were.
pub proof fn lemma_minimum_under_floor_refused(b: LimitsView, min: int, max: int)
    requires
        min < MIN_DEPOSIT_FLOOR,
    ensures
        set_limits_verdict(true, min, max) == Err::<(), VaultError>(VaultError::MinimumTooLow),
        next_limits(b, true, min, max) == b,
{
}

/// A maximum under a minimum that clears the floor is refused with the
/// ordering error, and the bounds stay as they were.
pub proof fn lemma_maximum_under_minimum_refused(b: LimitsView, min: int, max: int)
    requires
        min >= MIN_DEPOSIT_FLOOR,
        max < min,
    ensures
        set_limits_verdict(true, min, max) == Err::<(), VaultError>(
            VaultError::MaximumBelowMinimum,
        ),
        next_limits(b, true, min, max) == b,
{
}

/// Both bounds are inclusive: one under the minimum is refused as too low,
/// the minimum and the maximum themselves pass, and one over the maximum
/// is refused as too high.
pub proof fn lemma_deposit_bounds_inclusive(b: LimitsView)
    requires
        limits_valid(b.min, b.max),
    ensures
        deposit_verdict(b, b.min - 1) == Err::<(), VaultError>(VaultError::BelowMinimumDeposit),
        deposit_verdict(b, b.min) == Ok::<(), VaultError>(()),
        deposit_verdict(b, b.max) == Ok::<(), VaultError>(()),
        deposit_verdict(b, b.max + 1) == Err::<(), VaultError>(VaultError::ExceedsMaximumDeposit),
{
}

/// Once new bounds are accepted, every later deposit is judged by them
/// alone: nothing of the earlier bounds survives.
pub proof fn lemma_new_limits_govern_deposits(b: LimitsView, min: int, max: int, amount: int)
    requires
        limits_valid(min, max),
    ensures
        deposit_verdict(next_limits(b, true, min, max), amount) == deposit_verdict(
            LimitsView { min, max },
            amount,
        ),
{
}

} // verus!
