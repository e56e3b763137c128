//! A custodial vault that earns simple interest at a fixed yearly rate.
//!
//! Each owner has one [`Vault`] record and a holding account that backs the
//! recorded principal; a shared pool pays the interest. The operations here
//! decide what a call changes in the record and which transfers of value it
//! orders; carrying the transfers out is left to the ledger the vault runs on.

pub mod accounts;
pub mod address;
pub mod error;
pub mod instruction;
pub mod laws;
pub mod program;
pub mod vault;

pub use accounts::{
    Account, ClaimInterest, Clock, DepositSol, FundContractTreasury, Initialize, InitializeBumps,
    TransferSol, WithdrawFromContractTreasury,
};
pub use address::Address;
pub use error::CustomError;
pub use instruction::{AccountMeta, Authorization, Instruction, Transfer};
pub use program::{
    claim_interest, deposit_sol, fund_contract_treasury, initialize, transfer_sol,
    withdraw_from_contract_treasury,
};
pub use vault::{update_interest, Vault};
