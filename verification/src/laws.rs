use crate::accounts::{ClaimInterest, DepositSol, TransferSol};
use crate::address::Address;
use crate::error::CustomError;
use crate::instruction::{Authorization, Movement};
use crate::program::{deposit_movements, interest_payment, principal_payment};
use crate::vault::VaultView;
use vstd::prelude::*;

verus! {

/// One call that can change a vault.
pub enum Operation {
    /// Interest is accrued up to `now`.
    Accrue { now: int },
    /// `caller` takes `amount` of the principal out at `now`, while the
    /// owner's holding account holds `holding_balance`.
    TransferOut { caller: Address, amount: nat, holding_balance: nat, now: int },
    /// `amount` is deposited at `now`.
    Deposit { amount: nat, now: int },
    /// `caller` claims the interest at `now`.
    Claim { caller: Address, now: int },
}

impl VaultView {
    /// The vault after the operation; a refused operation leaves it as it
    /// was.
    pub open spec fn step(self, operation: Operation) -> VaultView {
        match operation {
            Operation::Accrue { now } => self.accrue(now),
            Operation::TransferOut { caller, amount, holding_balance, now } => {
                match self.transfer_out(caller, amount, holding_balance, now) {
                    Ok(left) => left,
                    Err(_) => self,
                }
            },
            Operation::Deposit { amount, now } => self.deposit(amount, now),
            Operation::Claim { caller, now } => {
                match self.claim(caller, now) {
                    Ok(claimed) => claimed,
                    Err(_) => self,
                }
            },
        }
    }

    /// Whether the operation settles the interest of this vault: a claim
    /// that succeeds, or a deposit that finds interest to settle.
    pub open spec fn settles(self, operation: Operation) -> bool {
        match operation {
            Operation::Accrue { .. } => false,
            Operation::TransferOut { .. } => false,
            Operation::Deposit { now, .. } => self.settlement(now) > 0,
            Operation::Claim { caller, now } => self.claim(caller, now) is Ok,
        }
    }

    /// The vault after the operations, first to last.
    pub open spec fn run(self, operations: Seq<Operation>) -> VaultView
        decreases operations.len(),
    {
        if operations.len() == 0 {
            self
        } else {
            self.run(operations.drop_last()).step(operations.last())
        }
    }
}

/// The balance of the account `key` once the movements have been carried out,
/// first to last, where it was `before`.
pub open spec fn balance_after_all(movements: Seq<Movement>, key: Address, before: int) -> int
    decreases movements.len(),
{
    if movements.len() == 0 {
        before
    } else {
        movements.last().balance_after(
            key,
            balance_after_all(movements.drop_last(), key, before),
        )
    }
}

/// An operation that does not settle the interest never lowers it.
pub proof fn interest_grows_unless_settled(vault: VaultView, operation: Operation)
    requires
        !vault.settles(operation),
    ensures
        vault.step(operation).accrued_interest >= vault.accrued_interest,
{
}

/// Over any run of operations none of which settles the interest, the accrued
/// interest does not fall.
pub proof fn interest_grows_between_settlements(vault: VaultView, operations: Seq<Operation>)
    requires
        forall|i: int|
            0 <= i < operations.len() ==> !vault.run(operations.take(i)).settles(
                #[trigger] operations[i],
            ),
    ensures
        vault.run(operations).accrued_interest >= vault.accrued_interest,
    decreases operations.len(),
{
    if operations.len() > 0 {
        let earlier = operations.drop_last();
        assert forall|i: int| 0 <= i < earlier.len() implies !vault.run(earlier.take(i)).settles(
            #[trigger] earlier[i],
        ) by {
            assert(earlier.take(i) =~= operations.take(i));
            assert(earlier[i] == operations[i]);
        }
        interest_grows_between_settlements(vault, earlier);
        let last = operations.len() - 1;
        assert(operations.take(last) =~= earlier);
        assert(operations[last] == operations.last());
        interest_grows_unless_settled(vault.run(earlier), operations.last());
    }
}

/// An operation that settles the interest leaves none accrued.
pub proof fn settlement_clears_interest(vault: VaultView, operation: Operation)
    requires
        vault.settles(operation),
    ensures
        vault.step(operation).accrued_interest == 0,
{
}

/// Accruing twice up to the same time is accruing once.
pub proof fn accrue_is_idempotent(vault: VaultView, now: int)
    ensures
        vault.accrue(now).accrue(now) == vault.accrue(now),
{
}

/// Taking principal out leaves no more recorded than the holding account
/// still holds, where it held the whole principal before: the holding account
/// pays exactly what the record loses.
pub proof fn transfer_out_keeps_principal_covered(ctx: TransferSol, amount: u64, destination: Address)
    requires
        ctx.vault.total_deposited <= ctx.treasury.lamports,
    ensures
        ctx.vault@.transfer_out(
            ctx.authority,
            amount as nat,
            ctx.treasury.lamports as nat,
            ctx.clock.unix_timestamp as int,
        ) matches Ok(left) ==> left.total_deposited <= principal_payment(
            ctx,
            amount,
            destination,
        ).balance_after(ctx.treasury.key, ctx.treasury.lamports as int),
{
}

/// What the holding account holds once the movements of a deposit have been
/// carried out: what it held, the deposit unless it paid that itself, and the
/// interest settled unless it is the pool.
proof fn lemma_balance_after_deposit(ctx: DepositSol, amount: u64)
    ensures
        ({
            let interest = ctx.vault@.settlement(ctx.clock.unix_timestamp as int);
            balance_after_all(
                deposit_movements(ctx, amount),
                ctx.treasury.key,
                ctx.treasury.lamports as int,
            ) == ctx.treasury.lamports + (if ctx.sender == ctx.treasury.key {
                0
            } else {
                amount as int
            }) + (if ctx.contract_treasury.key == ctx.treasury.key {
                0
            } else {
                interest as int
            })
        }),
{
    let movements = deposit_movements(ctx, amount);
    let key = ctx.treasury.key;
    let before = ctx.treasury.lamports as int;
    let none = Seq::<Movement>::empty();
    assert(balance_after_all(none, key, before) == before);
    if movements.len() == 2 {
        let first = movements.drop_last();
        assert(first.drop_last() =~= none);
        assert(first.last() == movements[0]);
        assert(balance_after_all(first, key, before) == movements[0].balance_after(key, before));
        assert(balance_after_all(movements, key, before) == movements[1].balance_after(
            key,
            balance_after_all(first, key, before),
        ));
    } else {
        assert(movements.drop_last() =~= none);
        assert(balance_after_all(movements, key, before) == movements[0].balance_after(key, before));
    }
}

/// A deposit that the holding account does not pay itself leaves the principal
/// covered, where it was covered before.
pub proof fn deposit_keeps_principal_covered(ctx: DepositSol, amount: u64)
    requires
        ctx.vault.total_deposited <= ctx.treasury.lamports,
        ctx.sender != ctx.treasury.key,
    ensures
        ctx.vault@.deposit(amount as nat, ctx.clock.unix_timestamp as int).total_deposited
            <= balance_after_all(
            deposit_movements(ctx, amount),
            ctx.treasury.key,
            ctx.treasury.lamports as int,
        ),
{
    lemma_balance_after_deposit(ctx, amount);
}

/// A claim leaves the principal covered, where it was covered before and the
/// holding account is not the pool: the interest that joins the principal is
/// the interest that the pool pays in.
pub proof fn claim_keeps_principal_covered(ctx: ClaimInterest)
    requires
        ctx.vault.total_deposited <= ctx.treasury.lamports,
        ctx.contract_treasury.key != ctx.treasury.key,
    ensures
        ctx.vault@.claim(ctx.authority, ctx.clock.unix_timestamp as int) matches Ok(claimed)
            ==> claimed.total_deposited <= interest_payment(
            ctx.vault,
            ctx.contract_treasury.key,
            ctx.treasury.key,
            ctx.vault@.accrue(ctx.clock.unix_timestamp as int).accrued_interest,
        ).balance_after(ctx.treasury.key, ctx.treasury.lamports as int),
{
}

/// No operation moves the time of the last accrual back.
pub proof fn accrual_time_never_goes_back(vault: VaultView, operation: Operation)
    ensures
        vault.step(operation).last_interest_claim_time >= vault.last_interest_claim_time,
{
}

/// A vault refuses an operation for one of three reasons only: the caller is
/// not the owner, the funds do not cover the amount, or there is no interest
/// to claim; and only a claim is refused for want of interest.
pub proof fn refusals_are_of_three_kinds(
    vault: VaultView,
    caller: Address,
    amount: nat,
    holding_balance: nat,
    now: int,
)
    ensures
        vault.transfer_out(caller, amount, holding_balance, now) matches Err(refusal) ==> refusal
            == CustomError::UnauthorizedAccess || refusal == CustomError::InsufficientFunds,
        vault.claim(caller, now) matches Err(refusal) ==> refusal
            == CustomError::UnauthorizedAccess || refusal == CustomError::NoInterestToClaimYet,
        caller != vault.authority ==> vault.transfer_out(caller, amount, holding_balance, now)
            == Err::<VaultView, CustomError>(CustomError::UnauthorizedAccess) && vault.claim(
            caller,
            now,
        ) == Err::<VaultView, CustomError>(CustomError::UnauthorizedAccess),
{
}

/// No operation changes the owner of a vault or its salts.
pub proof fn owner_and_salts_are_fixed(vault: VaultView, operation: Operation)
    ensures
        vault.step(operation).authority == vault.authority,
        vault.step(operation).bump == vault.bump,
        vault.step(operation).treasury_bump == vault.treasury_bump,
        vault.step(operation).contract_treasury_bump == vault.contract_treasury_bump,
{
}

/// A deposit followed at the same time by the owner taking the same amount
/// out puts the principal back to what it was. The holding account, unless it
/// paid the deposit itself, has received the amount and can pay it; and what
/// is ordered out of it, to another account, is exactly the amount.
pub proof fn deposit_then_transfer_out_restores_principal(
    ctx: DepositSol,
    amount: u64,
    destination: Address,
)
    requires
        ctx.sender != ctx.treasury.key,
    ensures
        ({
            let now = ctx.clock.unix_timestamp as int;
            let deposited = ctx.vault@.deposit(amount as nat, now);
            let balance = balance_after_all(
                deposit_movements(ctx, amount),
                ctx.treasury.key,
                ctx.treasury.lamports as int,
            );
            let payment = Movement {
                from: ctx.treasury.key,
                to: destination,
                lamports: amount as nat,
                authorization: Authorization::Treasury {
                    authority: ctx.vault.authority,
                    bump: ctx.vault.treasury_bump,
                },
            };
            &&& balance >= ctx.treasury.lamports + amount
            &&& deposited.transfer_out(ctx.vault.authority, amount as nat, balance as nat, now)
                matches Ok(left) && left.total_deposited == ctx.vault.total_deposited
            &&& destination != ctx.treasury.key ==> payment.balance_after(ctx.treasury.key, balance)
                == balance - amount
        }),
{
    lemma_balance_after_deposit(ctx, amount);
}

} // verus!
