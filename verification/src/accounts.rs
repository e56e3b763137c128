use crate::address::Address;
use crate::instruction::Transfer;
use crate::vault::Vault;
use vstd::prelude::*;

verus! {

/// An account of the ledger as an operation sees it: its address and the value
/// it holds when the operation begins.
#[derive(Clone, Copy, Debug, PartialEq, Eq)]
pub struct Account {
    pub key: Address,
    pub lamports: u64,
}

impl Account {
    /// The account once the ledger has carried `order` out: it has paid the
    /// amount where it is the source and received it where it is the
    /// destination. None where the account is the source and holds less than
    /// the amount, so that the ledger refuses the transfer, or where it could
    /// not hold what it receives.
    pub fn after(&self, order: &Transfer) -> (result: Option<Account>)
        ensures
            result is None <==> (order.from == self.key && self.lamports < order.lamports)
                || order@.balance_after(self.key, self.lamports as int) > u64::MAX,
            result matches Some(account) ==> account.key == self.key && account.lamports
                == order@.balance_after(self.key, self.lamports as int),
    {
        let mut lamports = self.lamports;
        if order.from == self.key {
            if lamports < order.lamports {
                return None;
            }
            lamports = lamports - order.lamports;
        }
        if order.to == self.key {
            if lamports > u64::MAX - order.lamports {
                return None;
            }
            lamports = lamports + order.lamports;
        }
        Some(Account { key: self.key, lamports })
    }
}

/// The ledger's clock.
#[derive(Clone, Copy, Debug, PartialEq, Eq)]
pub struct Clock {
    /// The current time, in seconds since the epoch.
    pub unix_timestamp: i64,
}

/// The salts that the ledger found for the three addresses of a new vault.
#[derive(Clone, Copy, Debug, PartialEq, Eq)]
pub struct InitializeBumps {
    pub vault: u8,
    pub treasury: u8,
    pub contract_treasury: u8,
}

/// What creating a vault works on.
#[derive(Clone, Copy, Debug, PartialEq, Eq)]
pub struct Initialize {
    /// The caller, who becomes the owner.
    pub authority: Address,
    /// The record to fill.
    pub vault: Vault,
    pub bumps: InitializeBumps,
    pub clock: Clock,
}

/// What taking principal out of a vault works on.
#[derive(Clone, Copy, Debug, PartialEq, Eq)]
pub struct TransferSol {
    /// The caller.
    pub authority: Address,
    pub vault: Vault,
    /// The owner's holding account.
    pub treasury: Account,
    pub clock: Clock,
}

/// What a deposit works on.
#[derive(Clone, Copy, Debug, PartialEq, Eq)]
pub struct DepositSol {
    /// The caller, who pays the deposit.
    pub sender: Address,
    pub vault: Vault,
    /// The owner's holding account.
    pub treasury: Account,
    /// The shared pool.
    pub contract_treasury: Account,
    pub clock: Clock,
}

/// What a claim of interest works on.
#[derive(Clone, Copy, Debug, PartialEq, Eq)]
pub struct ClaimInterest {
    /// The caller.
    pub authority: Address,
    pub vault: Vault,
    /// The owner's holding account.
    pub treasury: Account,
    /// The shared pool.
    pub contract_treasury: Account,
    pub clock: Clock,
}

/// What a payment into the shared pool works on.
#[derive(Clone, Copy, Debug, PartialEq, Eq)]
pub struct FundContractTreasury {
    /// The caller, who pays.
    pub sender: Address,
    /// The shared pool.
    pub contract_treasury: Account,
}

/// What a withdrawal from the shared pool works on.
#[derive(Clone, Copy, Debug, PartialEq, Eq)]
pub struct WithdrawFromContractTreasury {
    /// The caller.
    pub admin: Address,
    /// The vault that the caller withdraws on the strength of.
    pub vault: Vault,
    /// The account presented as the owner of that vault.
    pub authority: Address,
    /// The shared pool.
    pub contract_treasury: Account,
    /// The account that receives the value.
    pub recipient: Address,
}

} // verus!
