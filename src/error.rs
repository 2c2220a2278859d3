use vstd::prelude::*;

verus! {

/// Why an operation on the vault was refused.
///
/// Every refusal leaves the vault as it was.
#[derive(Debug, Clone, Copy, PartialEq, Eq, Structural)]
pub enum VaultError {
    /// The caller is not the administrator.
    Unauthorized,
    /// A proposed minimum deposit lies under the floor of one whole unit.
    MinimumTooLow,
    /// A proposed maximum deposit lies under the proposed minimum.
    MaximumBelowMinimum,
    /// A deposit amount lies under the current minimum.
    BelowMinimumDeposit,
    /// A deposit amount lies over the current maximum.
    ExceedsMaximumDeposit,
}

impl VaultError {
    /// The human-readable reason that goes with each refusal.
    pub open spec fn message_spec(self) -> Seq<char> {
        match self {
            VaultError::Unauthorized => "Caller is not the administrator"@,
            VaultError::MinimumTooLow => "Minimum deposit must be at least 1 USDC"@,
            VaultError::MaximumBelowMinimum =>
                "Maximum deposit must be greater than or equal to minimum"@,
            VaultError::BelowMinimumDeposit => "Below minimum deposit"@,
            VaultError::ExceedsMaximumDeposit => "Exceeds maximum deposit"@,
        }
    }

    /// The reason string of this refusal.
    pub fn message(&self) -> (r: &'static str)
        ensures
            r@ == self.message_spec(),
    {
        match self {
            VaultError::Unauthorized => "Caller is not the administrator",
            VaultError::MinimumTooLow => "Minimum deposit must be at least 1 USDC",
            VaultError::MaximumBelowMinimum =>
                "Maximum deposit must be greater than or equal to minimum",
            VaultError::BelowMinimumDeposit => "Below minimum deposit",
            VaultError::ExceedsMaximumDeposit => "Exceeds maximum deposit",
        }
    }
}

} // verus!
