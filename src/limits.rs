use vstd::prelude::*;

use crate::error::VaultError;

verus! {

/// The lowest minimum deposit that may ever be configured: one whole unit
/// of the reference currency, in its smallest unit (1 unit = 1,000,000).
pub const MIN_DEPOSIT_FLOOR: i128 = 1_000_000;

/// The maximum deposit of a freshly initialized vault: 10,000 whole units.
pub const DEFAULT_MAX_DEPOSIT: i128 = 10_000_000_000;

/// The mathematical value of a pair of deposit bounds.
pub ghost struct LimitsView {
    pub min: int,
    pub max: int,
}

/// The bounds of a freshly initialized vault.
pub open spec fn default_limits() -> LimitsView {
    LimitsView { min: MIN_DEPOSIT_FLOOR as int, max: DEFAULT_MAX_DEPOSIT as int }
}

/// Whether a pair of bounds may be configured: the minimum is at least the
/// floor and the maximum is at least the minimum.
pub open spec fn limits_valid(min: int, max: int) -> bool {
    min >= MIN_DEPOSIT_FLOOR && max >= min
}

/// The verdict on a proposed pair of bounds; the floor is checked first.
pub open spec fn limits_verdict(min: int, max: int) -> Result<(), VaultError> {
    if min < MIN_DEPOSIT_FLOOR {
        Err(VaultError::MinimumTooLow)
    } else if max < min {
        Err(VaultError::MaximumBelowMinimum)
    } else {
        Ok(())
    }
}

/// The verdict on a deposit amount under the given bounds. Both ends are
/// inclusive; the minimum is checked first.
pub open spec fn deposit_verdict(b: LimitsView, amount: int) -> Result<(), VaultError> {
    if amount < b.min {
        Err(VaultError::BelowMinimumDeposit)
    } else if amount > b.max {
        Err(VaultError::ExceedsMaximumDeposit)
    } else {
        Ok(())
    }
}

/// A minimum and a maximum deposit amount.
#[derive(Debug, Clone, Copy, PartialEq, Eq, Structural)]
pub struct DepositLimits {
    min_deposit: i128,
    max_deposit: i128,
}

impl View for DepositLimits {
    type V = LimitsView;

    closed spec fn view(&self) -> LimitsView {
        LimitsView { min: self.min_deposit as int, max: self.max_deposit as int }
    }
}

impl DepositLimits {
    /// The bounds are ones that may be configured.
    pub open spec fn wf(&self) -> bool {
        limits_valid(self@.min, self@.max)
    }

    /// The bounds of a freshly initialized vault.
    pub fn new_default() -> (r: DepositLimits)
        ensures
            r@ == default_limits(),
            r.wf(),
    {
        DepositLimits { min_deposit: MIN_DEPOSIT_FLOOR, max_deposit: DEFAULT_MAX_DEPOSIT }
    }

    /// Validates a proposed pair of bounds and builds it when it is valid.
    pub fn try_new(min: i128, max: i128) -> (r: Result<DepositLimits, VaultError>)
        ensures
            match r {
                Ok(l) => limits_verdict(min as int, max as int) == Ok::<(), VaultError>(())
                    && l@ == (LimitsView { min: min as int, max: max as int }) && l.wf(),
                Err(e) => limits_verdict(min as int, max as int) == Err::<(), VaultError>(e),
            },
    {
        if min < MIN_DEPOSIT_FLOOR {
            Err(VaultError::MinimumTooLow)
        } else if max < min {
            Err(VaultError::MaximumBelowMinimum)
        } else {
            Ok(DepositLimits { min_deposit: min, max_deposit: max })
        }
    }

    /// The smallest amount a deposit may carry.
    pub fn min_deposit(&self) -> (r: i128)
        ensures
            r as int == self@.min,
    {
        self.min_deposit
    }

    /// The largest amount a deposit may carry.
    pub fn max_deposit(&self) -> (r: i128)
        ensures
            r as int == self@.max,
    {
        self.max_deposit
    }

    /// Checks a deposit amount against these bounds, both ends inclusive.
    pub fn check_deposit(&self, amount: i128) -> (r: Result<(), VaultError>)
        ensures
            r == deposit_verdict(self@, amount as int),
    {
        if amount < self.min_deposit {
            Err(VaultError::BelowMinimumDeposit)
        } else if amount > self.max_deposit {
            Err(VaultError::ExceedsMaximumDeposit)
        } else {
            Ok(())
        }
    }
}

} // verus!
