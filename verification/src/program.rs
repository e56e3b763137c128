use crate::accounts::{
    ClaimInterest, DepositSol, FundContractTreasury, Initialize, TransferSol,
    WithdrawFromContractTreasury,
};
use crate::address::Address;
use crate::error::CustomError;
use crate::instruction::{Authorization, Movement, Transfer};
use crate::vault::{update_interest, Vault, VaultView};
use vstd::prelude::*;

verus! {

/// What each of the orders moves, in order.
pub open spec fn movements(orders: Seq<Transfer>) -> Seq<Movement> {
    orders.map_values(|order: Transfer| order@)
}

/// The payment of `amount` that a deposit orders from its sender.
pub open spec fn deposit_payment(ctx: DepositSol, amount: u64) -> Movement {
    Movement {
        from: ctx.sender,
        to: ctx.treasury.key,
        lamports: amount as nat,
        authorization: Authorization::Source,
    }
}

/// The payment of `interest` that the shared pool makes to the holding account
/// of the vault's owner.
pub open spec fn interest_payment(
    vault: Vault,
    pool: Address,
    treasury: Address,
    interest: nat,
) -> Movement {
    Movement {
        from: pool,
        to: treasury,
        lamports: interest,
        authorization: Authorization::ContractTreasury { bump: vault.contract_treasury_bump },
    }
}

/// What a deposit of `amount` moves: first the interest that it settles, where
/// there is any, from the shared pool to the holding account; then the
/// deposit itself.
pub open spec fn deposit_movements(ctx: DepositSol, amount: u64) -> Seq<Movement> {
    let interest = ctx.vault@.settlement(ctx.clock.unix_timestamp as int);
    if interest > 0 {
        seq![
            interest_payment(ctx.vault, ctx.contract_treasury.key, ctx.treasury.key, interest),
            deposit_payment(ctx, amount),
        ]
    } else {
        seq![deposit_payment(ctx, amount)]
    }
}

impl DepositSol {
    /// Whether the numbers of a deposit of `amount` stay within what the
    /// machine holds: the interest it settles is an amount that can be
    /// ordered, and the record can hold the principal that results.
    pub open spec fn result_fits(self, amount: u64) -> bool {
        &&& self.vault@.settlement(self.clock.unix_timestamp as int) <= u64::MAX
        &&& self.vault@.deposit(amount as nat, self.clock.unix_timestamp as int).fits()
    }

    /// Tests `result_fits`.
    pub fn can_hold_result(&self, amount: u64) -> (ok: bool)
        ensures
            ok == self.result_fits(amount),
    {
        let settles = self.vault.total_deposited == 0 || self.vault.can_accrue(
            self.clock.unix_timestamp,
        );
        settles && amount <= u64::MAX - self.vault.total_deposited
    }
}

/// Deposits `amount` into the vault. Any caller may deposit into any vault.
///
/// The orders returned are to be carried out in order and together with the
/// change of the record: where one of them fails, the deposit has not taken
/// place.
pub fn deposit_sol(ctx: &mut DepositSol, amount: u64) -> (result: Result<Vec<Transfer>, CustomError>)
    requires
        old(ctx).result_fits(amount),
    ensures
        result matches Ok(orders) && {
            &&& movements(orders@) == deposit_movements(*old(ctx), amount)
            &&& orders@.len() == deposit_movements(*old(ctx), amount).len()
            &&& forall|i: int|
                0 <= i < orders@.len() ==> {
                    &&& (#[trigger] orders@[i]).well_formed()
                    &&& orders@[i]@ == deposit_movements(*old(ctx), amount)[i]
                }
        },
        final(ctx).vault@ == old(ctx).vault@.deposit(
            amount as nat,
            old(ctx).clock.unix_timestamp as int,
        ),
        *final(ctx) == (DepositSol { vault: final(ctx).vault, ..*old(ctx) }),
{
    let now = ctx.clock.unix_timestamp;
    let mut orders: Vec<Transfer> = Vec::new();
    if ctx.vault.total_deposited > 0 {
        let _ = update_interest(&mut ctx.vault, now);
        let interest = ctx.vault.accrued_interest;
        if interest > 0 {
            let order = Transfer::new(
                ctx.contract_treasury.key,
                ctx.treasury.key,
                interest,
                Authorization::ContractTreasury { bump: ctx.vault.contract_treasury_bump },
            );
            orders.push(order);
            ctx.vault.accrued_interest = 0;
        }
    }
    let payment = Transfer::new(ctx.sender, ctx.treasury.key, amount, Authorization::Source);
    orders.push(payment);
    ctx.vault.total_deposited = ctx.vault.total_deposited + amount;
    ctx.vault.last_deposit_time = now;
    assert(movements(orders@) =~= deposit_movements(*old(ctx), amount));
    Ok(orders)
}

impl ClaimInterest {
    /// Whether the record can hold the principal that the claim results in,
    /// where the claim succeeds.
    pub open spec fn result_fits(self) -> bool {
        self.vault@.claim(self.authority, self.clock.unix_timestamp as int) matches Ok(claimed)
            ==> claimed.fits()
    }

    /// Tests `result_fits`.
    pub fn can_hold_result(&self) -> (ok: bool)
        ensures
            ok == self.result_fits(),
    {
        if self.vault.authorize(&self.authority).is_err() {
            return true;
        }
        let interest = self.vault.accrued_at(self.clock.unix_timestamp);
        interest <= (u64::MAX - self.vault.total_deposited) as u128
    }
}

/// Claims the interest of the vault for its owner: the interest accrued up to
/// now is ordered from the shared pool into the owner's holding account and
/// joins the principal.
///
/// Refused, with nothing changed, where the caller is not the owner
/// (`UnauthorizedAccess`) or no interest has accrued (`NoInterestToClaimYet`).
/// The order is to be carried out together with the change of the record.
pub fn claim_interest(ctx: &mut ClaimInterest) -> (result: Result<Transfer, CustomError>)
    requires
        old(ctx).result_fits(),
    ensures
        match result {
            Ok(order) => {
                &&& old(ctx).vault@.claim(old(ctx).authority, old(ctx).clock.unix_timestamp as int)
                    == Ok::<VaultView, CustomError>(final(ctx).vault@)
                &&& *final(ctx) == (ClaimInterest { vault: final(ctx).vault, ..*old(ctx) })
                &&& order.well_formed()
                &&& order@ == interest_payment(
                    old(ctx).vault,
                    old(ctx).contract_treasury.key,
                    old(ctx).treasury.key,
                    old(ctx).vault@.accrue(old(ctx).clock.unix_timestamp as int).accrued_interest,
                )
            },
            Err(refusal) => {
                &&& old(ctx).vault@.claim(old(ctx).authority, old(ctx).clock.unix_timestamp as int)
                    == Err::<VaultView, CustomError>(refusal)
                &&& *final(ctx) == *old(ctx)
            },
        },
{
    let now = ctx.clock.unix_timestamp;
    if let Err(refusal) = ctx.vault.authorize(&ctx.authority) {
        return Err(refusal);
    }
    let interest = ctx.vault.accrued_at(now);
    if interest == 0 {
        return Err(CustomError::NoInterestToClaimYet);
    }
    let _ = update_interest(&mut ctx.vault, now);
    let order = Transfer::new(
        ctx.contract_treasury.key,
        ctx.treasury.key,
        ctx.vault.accrued_interest,
        Authorization::ContractTreasury { bump: ctx.vault.contract_treasury_bump },
    );
    ctx.vault.total_deposited = ctx.vault.total_deposited + ctx.vault.accrued_interest;
    ctx.vault.accrued_interest = 0;
    Ok(order)
}

/// The payment of `amount` out of the holding account of the vault's owner to
/// `destination`.
pub open spec fn principal_payment(ctx: TransferSol, amount: u64, destination: Address) -> Movement {
    Movement {
        from: ctx.treasury.key,
        to: destination,
        lamports: amount as nat,
        authorization: Authorization::Treasury {
            authority: ctx.vault.authority,
            bump: ctx.vault.treasury_bump,
        },
    }
}

impl TransferSol {
    /// Whether the record can hold the interest accrued up to now, where
    /// taking `amount` out succeeds.
    pub open spec fn result_fits(self, amount: u64) -> bool {
        self.vault@.transfer_out(
            self.authority,
            amount as nat,
            self.treasury.lamports as nat,
            self.clock.unix_timestamp as int,
        ) matches Ok(left) ==> left.fits()
    }

    /// Tests `result_fits`.
    pub fn can_hold_result(&self, amount: u64) -> (ok: bool)
        ensures
            ok == self.result_fits(amount),
    {
        if self.vault.authorize(&self.authority).is_err() {
            return true;
        }
        if self.vault.total_deposited < amount || self.treasury.lamports < amount {
            return true;
        }
        self.vault.can_accrue(self.clock.unix_timestamp)
    }
}

/// Takes `amount` of the principal out of the vault, for its owner, and
/// orders it from the owner's holding account to `destination`. The interest
/// is accrued up to now.
///
/// Refused, with nothing changed, where the caller is not the owner
/// (`UnauthorizedAccess`), or where the principal or the balance of the
/// holding account is less than `amount` (`InsufficientFunds`). The order is
/// to be carried out together with the change of the record. A principal that
/// the holding account covered before is still covered once the order has
/// been carried out.
pub fn transfer_sol(ctx: &mut TransferSol, amount: u64, destination: Address) -> (result: Result<
    Transfer,
    CustomError,
>)
    requires
        old(ctx).result_fits(amount),
    ensures
        match result {
            Ok(order) => {
                &&& old(ctx).vault@.transfer_out(
                    old(ctx).authority,
                    amount as nat,
                    old(ctx).treasury.lamports as nat,
                    old(ctx).clock.unix_timestamp as int,
                ) == Ok::<VaultView, CustomError>(final(ctx).vault@)
                &&& *final(ctx) == (TransferSol { vault: final(ctx).vault, ..*old(ctx) })
                &&& order.well_formed()
                &&& order@ == principal_payment(*old(ctx), amount, destination)
                &&& old(ctx).vault.total_deposited <= old(ctx).treasury.lamports
                    ==> final(ctx).vault.total_deposited <= order@.balance_after(
                    old(ctx).treasury.key,
                    old(ctx).treasury.lamports as int,
                )
            },
            Err(refusal) => {
                &&& old(ctx).vault@.transfer_out(
                    old(ctx).authority,
                    amount as nat,
                    old(ctx).treasury.lamports as nat,
                    old(ctx).clock.unix_timestamp as int,
                ) == Err::<VaultView, CustomError>(refusal)
                &&& *final(ctx) == *old(ctx)
            },
        },
{
    if let Err(refusal) = ctx.vault.authorize(&ctx.authority) {
        return Err(refusal);
    }
    if ctx.vault.total_deposited < amount || ctx.treasury.lamports < amount {
        return Err(CustomError::InsufficientFunds);
    }
    let _ = update_interest(&mut ctx.vault, ctx.clock.unix_timestamp);
    ctx.vault.total_deposited = ctx.vault.total_deposited - amount;
    let order = Transfer::new(
        ctx.treasury.key,
        destination,
        amount,
        Authorization::Treasury { authority: ctx.vault.authority, bump: ctx.vault.treasury_bump },
    );
    Ok(order)
}

/// Why a withdrawal of `amount` from the shared pool is refused, if it is:
/// the caller, and the account presented as owner, must both be the owner of
/// the vault, and the pool must hold `amount`.
pub open spec fn withdrawal_refusal(ctx: WithdrawFromContractTreasury, amount: u64) -> Option<
    CustomError,
> {
    if ctx.admin != ctx.vault.authority || ctx.authority != ctx.vault.authority {
        Some(CustomError::UnauthorizedAccess)
    } else if ctx.contract_treasury.lamports < amount {
        Some(CustomError::InsufficientFunds)
    } else {
        None
    }
}

/// Orders `amount` out of the shared pool to the recipient, for the owner of
/// a vault. No vault is changed.
///
/// Refused where the caller is not the owner of the vault presented
/// (`UnauthorizedAccess`) or the pool holds less than `amount`
/// (`InsufficientFunds`).
pub fn withdraw_from_contract_treasury(ctx: &WithdrawFromContractTreasury, amount: u64) -> (result:
    Result<Transfer, CustomError>)
    ensures
        match result {
            Ok(order) => {
                &&& withdrawal_refusal(*ctx, amount) is None
                &&& order.well_formed()
                &&& order@ == (Movement {
                    from: ctx.contract_treasury.key,
                    to: ctx.recipient,
                    lamports: amount as nat,
                    authorization: Authorization::ContractTreasury {
                        bump: ctx.vault.contract_treasury_bump,
                    },
                })
            },
            Err(refusal) => withdrawal_refusal(*ctx, amount) == Some(refusal),
        },
{
    if let Err(refusal) = ctx.vault.authorize(&ctx.admin) {
        return Err(refusal);
    }
    if let Err(refusal) = ctx.vault.authorize(&ctx.authority) {
        return Err(refusal);
    }
    if ctx.contract_treasury.lamports < amount {
        return Err(CustomError::InsufficientFunds);
    }
    let order = Transfer::new(
        ctx.contract_treasury.key,
        ctx.recipient,
        amount,
        Authorization::ContractTreasury { bump: ctx.vault.contract_treasury_bump },
    );
    Ok(order)
}

/// Orders `amount` from the caller into the shared pool. Anyone may pay into
/// the pool.
pub fn fund_contract_treasury(ctx: &FundContractTreasury, amount: u64) -> (result: Result<
    Transfer,
    CustomError,
>)
    ensures
        result matches Ok(order) && {
            &&& order.well_formed()
            &&& order@ == (Movement {
                from: ctx.sender,
                to: ctx.contract_treasury.key,
                lamports: amount as nat,
                authorization: Authorization::Source,
            })
        },
{
    Ok(Transfer::new(ctx.sender, ctx.contract_treasury.key, amount, Authorization::Source))
}

/// Fills the record of a new vault: the caller owns it, it holds nothing, and
/// both of its times are now.
pub fn initialize(ctx: &mut Initialize) -> (result: Result<(), CustomError>)
    ensures
        result is Ok,
        final(ctx).vault == (Vault {
            authority: old(ctx).authority,
            bump: old(ctx).bumps.vault,
            treasury_bump: old(ctx).bumps.treasury,
            contract_treasury_bump: old(ctx).bumps.contract_treasury,
            total_deposited: 0,
            accrued_interest: 0,
            last_deposit_time: old(ctx).clock.unix_timestamp,
            last_interest_claim_time: old(ctx).clock.unix_timestamp,
        }),
        *final(ctx) == (Initialize { vault: final(ctx).vault, ..*old(ctx) }),
{
    ctx.vault.authority = ctx.authority;
    ctx.vault.bump = ctx.bumps.vault;
    ctx.vault.treasury_bump = ctx.bumps.treasury;
    ctx.vault.contract_treasury_bump = ctx.bumps.contract_treasury;
    ctx.vault.total_deposited = 0;
    ctx.vault.accrued_interest = 0;
    ctx.vault.last_deposit_time = ctx.clock.unix_timestamp;
    ctx.vault.last_interest_claim_time = ctx.clock.unix_timestamp;
    Ok(())
}

} // verus!
