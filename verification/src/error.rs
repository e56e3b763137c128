use vstd::prelude::*;

verus! {

/// Why an operation on a vault was refused. A refused operation changes
/// nothing.
#[derive(Clone, Copy, Debug, PartialEq, Eq, Structural)]
pub enum CustomError {
    /// The recorded principal, or the balance of the account that would pay, is
    /// lower than the amount asked for.
    InsufficientFunds,
    /// The caller is not the owner recorded in the vault.
    UnauthorizedAccess,
    /// Too little time has passed since the last claim.
    TooEarlyToClaim,
    /// No interest has accrued that could be claimed.
    NoInterestToClaimYet,
    /// The shared pool cannot pay the interest that is due.
    InsufficientFundsInContractTreasury,
}

} // verus!
