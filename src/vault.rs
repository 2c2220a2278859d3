use vstd::prelude::*;

use crate::error::VaultError;
use crate::limits::{
    default_limits, deposit_verdict, limits_valid, limits_verdict, DepositLimits, LimitsView,
};

verus! {

/// The verdict on a request to replace the bounds: an unauthorized caller
/// is refused before the bounds themselves are looked at.
pub open spec fn set_limits_verdict(authorized: bool, min: int, max: int) -> Result<
    (),
    VaultError,
> {
    if !authorized {
        Err(VaultError::Unauthorized)
    } else {
        limits_verdict(min, max)
    }
}

/// The bounds after a request to replace `b` by `[min, max]`: the new pair
/// when the request is accepted, `b` itself otherwise.
pub open spec fn next_limits(b: LimitsView, authorized: bool, min: int, max: int) -> LimitsView {
    if set_limits_verdict(authorized, min, max) is Ok {
        LimitsView { min, max }
    } else {
        b
    }
}

/// A value transfer from a depositor into the vault, owed once a deposit
/// has passed the bounds check. The token collaborator carries it out.
#[derive(Debug, PartialEq, Eq)]
pub struct DepositTransfer<A> {
    pub from: A,
    pub amount: i128,
}

/// A vault with an administrator, the token it accepts, and the bounds that
/// every deposit is checked against.
///
/// `A` is the type of a principal's identity.
pub struct LimitedVault<A> {
    admin: A,
    token: A,
    limits: DepositLimits,
}

impl<A> LimitedVault<A> {
    /// The current bounds.
    pub closed spec fn limits(&self) -> LimitsView {
        self.limits@
    }

    /// The administrator, the one principal that may change the bounds.
    pub closed spec fn admin_spec(&self) -> A {
        self.admin
    }

    /// The token that deposits are made in.
    pub closed spec fn token_spec(&self) -> A {
        self.token
    }

    /// The bounds are ones that may be configured.
    pub open spec fn wf(&self) -> bool {
        limits_valid(self.limits().min, self.limits().max)
    }

    /// Creates a vault with the given administrator and token, and the
    /// default bounds: a minimum of 1,000,000 and a maximum of
    /// 10,000,000,000.
    pub fn initialize(admin: A, token: A) -> (r: LimitedVault<A>)
        ensures
            r.limits() == default_limits(),
            r.admin_spec() == admin,
            r.token_spec() == token,
            r.wf(),
    {
        LimitedVault { admin, token, limits: DepositLimits::new_default() }
    }

    /// The administrator.
    pub fn admin(&self) -> (r: &A)
        ensures
            *r == self.admin_spec(),
    {
        &self.admin
    }

    /// The token that deposits are made in.
    pub fn token(&self) -> (r: &A)
        ensures
            *r == self.token_spec(),
    {
        &self.token
    }

    /// The current minimum deposit.
    pub fn get_min_deposit(&self) -> (r: i128)
        ensures
            r as int == self.limits().min,
    {
        self.limits.min_deposit()
    }

    /// The current maximum deposit.
    pub fn get_max_deposit(&self) -> (r: i128)
        ensures
            r as int == self.limits().max,
    {
        self.limits.max_deposit()
    }

    /// Replaces both bounds at once. `authorized` tells whether the caller
    /// was verified to be the administrator.
    ///
    /// Refused with `Unauthorized` when it was not, then with
    /// `MinimumTooLow` when `new_min` is under the floor, then with
    /// `MaximumBelowMinimum` when `new_max < new_min`. A refusal leaves the
    /// vault unchanged; an acceptance is seen by every later read and deposit.
    pub fn set_deposit_limits(&mut self, authorized: bool, new_min: i128, new_max: i128) -> (r:
        Result<(), VaultError>)
        ensures
            r == set_limits_verdict(authorized, new_min as int, new_max as int),
            final(self).limits() == next_limits(
                old(self).limits(),
                authorized,
                new_min as int,
                new_max as int,
            ),
            final(self).admin_spec() == old(self).admin_spec(),
            final(self).token_spec() == old(self).token_spec(),
            old(self).wf() ==> final(self).wf(),
    {
        if !authorized {
            return Err(VaultError::Unauthorized);
        }
        match DepositLimits::try_new(new_min, new_max) {
            Ok(limits) => {
                self.limits = limits;
                Ok(())
            },
            Err(e) => Err(e),
        }
    }

    /// Checks a deposit of `amount` by `depositor` against the current
    /// bounds, both ends inclusive, and returns the transfer that is then
    /// owed. Refused with `BelowMinimumDeposit` under the minimum, and with
    /// `ExceedsMaximumDeposit` over the maximum.
    pub fn deposit(&self, depositor: A, amount: i128) -> (r: Result<DepositTransfer<A>, VaultError>)
        ensures
            match r {
                Ok(t) => deposit_verdict(self.limits(), amount as int) == Ok::<(), VaultError>(())
                    && t.from == depositor && t.amount == amount,
                Err(e) => deposit_verdict(self.limits(), amount as int) == Err::<(), VaultError>(
                    e,
                ),
            },
    {
        match self.limits.check_deposit(amount) {
            Ok(()) => Ok(DepositTransfer { from: depositor, amount }),
            Err(e) => Err(e),
        }
    }
}

} // verus!
