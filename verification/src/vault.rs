use crate::address::Address;
use crate::error::CustomError;
use vstd::prelude::*;

verus! {

/// The yearly interest rate, in percent of the principal.
pub const APY_PERCENT: u64 = 5;

/// The length of the year that the rate refers to, in seconds.
pub const SECONDS_PER_YEAR: u64 = 31_536_000;

/// The record of one owner's vault.
#[derive(Clone, Copy, Debug, PartialEq, Eq)]
pub struct Vault {
    /// The owner, fixed when the vault is created.
    pub authority: Address,
    /// The salt of the vault's own address.
    pub bump: u8,
    /// The salt of the address of the owner's holding account.
    pub treasury_bump: u8,
    /// The salt of the address of the shared pool.
    pub contract_treasury_bump: u8,
    /// The principal: what is deposited and earns interest.
    pub total_deposited: u64,
    /// Interest that has accrued and is neither paid out nor part of the
    /// principal yet.
    pub accrued_interest: u64,
    /// When the last deposit was made, in seconds since the epoch.
    pub last_deposit_time: i64,
    /// Up to when interest has been accrued, in seconds since the epoch.
    pub last_interest_claim_time: i64,
}

/// A vault as a mathematical value: the amounts are natural numbers and the
/// times are integers, without the limits of the machine.
pub struct VaultView {
    pub authority: Address,
    pub bump: u8,
    pub treasury_bump: u8,
    pub contract_treasury_bump: u8,
    pub total_deposited: nat,
    pub accrued_interest: nat,
    pub last_deposit_time: int,
    pub last_interest_claim_time: int,
}

impl View for Vault {
    type V = VaultView;

    open spec fn view(&self) -> VaultView {
        VaultView {
            authority: self.authority,
            bump: self.bump,
            treasury_bump: self.treasury_bump,
            contract_treasury_bump: self.contract_treasury_bump,
            total_deposited: self.total_deposited as nat,
            accrued_interest: self.accrued_interest as nat,
            last_deposit_time: self.last_deposit_time as int,
            last_interest_claim_time: self.last_interest_claim_time as int,
        }
    }
}

/// The interest that `principal` earns in `elapsed` seconds: the yearly rate
/// applied second by second, five parts in 3,153,600,000 for each second,
/// rounded down to a whole unit. No time, or time that runs backwards, earns
/// nothing.
pub open spec fn interest_due(principal: nat, elapsed: int) -> nat {
    if elapsed <= 0 {
        0
    } else {
        ((principal * elapsed * 5) / 3_153_600_000) as nat
    }
}

impl VaultView {
    /// Whether a vault record can hold these amounts and times.
    pub open spec fn fits(self) -> bool {
        &&& self.total_deposited <= u64::MAX
        &&& self.accrued_interest <= u64::MAX
        &&& i64::MIN <= self.last_deposit_time <= i64::MAX
        &&& i64::MIN <= self.last_interest_claim_time <= i64::MAX
    }

    /// The vault with its interest accrued up to `now`. Where `now` is not
    /// later than the time of the last accrual, the vault is unchanged.
    pub open spec fn accrue(self, now: int) -> VaultView {
        if now <= self.last_interest_claim_time {
            self
        } else {
            VaultView {
                accrued_interest: self.accrued_interest + interest_due(
                    self.total_deposited,
                    now - self.last_interest_claim_time,
                ),
                last_interest_claim_time: now,
                ..self
            }
        }
    }

    /// The vault after the caller has taken `amount` of the principal out
    /// at `now`, or why that is refused. Interest is accrued first. Only the
    /// owner may take value out, and no more than both the principal and
    /// `holding_balance`, what the owner's holding account really holds.
    pub open spec fn transfer_out(
        self,
        caller: Address,
        amount: nat,
        holding_balance: nat,
        now: int,
    ) -> Result<VaultView, CustomError> {
        let accrued = self.accrue(now);
        if caller != accrued.authority {
            Err(CustomError::UnauthorizedAccess)
        } else if accrued.total_deposited < amount || holding_balance < amount {
            Err(CustomError::InsufficientFunds)
        } else {
            Ok(VaultView { total_deposited: (accrued.total_deposited - amount) as nat, ..accrued })
        }
    }

    /// The interest that a deposit at `now` settles before the principal
    /// grows: what has accrued up to `now` on a principal that is not zero,
    /// and nothing on an empty vault.
    pub open spec fn settlement(self, now: int) -> nat {
        if self.total_deposited > 0 {
            self.accrue(now).accrued_interest
        } else {
            0
        }
    }

    /// The vault after a deposit of `amount` at `now`. A vault that holds
    /// principal has its interest accrued and settled first; an empty one is
    /// taken as it is.
    pub open spec fn deposit(self, amount: nat, now: int) -> VaultView {
        let settled = if self.total_deposited > 0 {
            VaultView { accrued_interest: 0, ..self.accrue(now) }
        } else {
            self
        };
        VaultView {
            total_deposited: settled.total_deposited + amount,
            last_deposit_time: now,
            ..settled
        }
    }

    /// The vault after the caller has claimed the interest at `now`, or why
    /// that is refused. Only the owner may claim; the interest accrued up to
    /// `now` joins the principal, and a claim of nothing is refused.
    pub open spec fn claim(self, caller: Address, now: int) -> Result<VaultView, CustomError> {
        if caller != self.authority {
            Err(CustomError::UnauthorizedAccess)
        } else {
            let accrued = self.accrue(now);
            if accrued.accrued_interest == 0 {
                Err(CustomError::NoInterestToClaimYet)
            } else {
                Ok(
                    VaultView {
                        total_deposited: accrued.total_deposited + accrued.accrued_interest,
                        accrued_interest: 0,
                        ..accrued
                    },
                )
            }
        }
    }
}

impl Vault {
    /// Lets only the owner of the vault pass: any other caller is refused
    /// with `UnauthorizedAccess`.
    pub fn authorize(&self, caller: &Address) -> (result: Result<(), CustomError>)
        ensures
            *caller == self.authority ==> result == Ok::<(), CustomError>(()),
            *caller != self.authority ==> result == Err::<(), CustomError>(
                CustomError::UnauthorizedAccess,
            ),
    {
        if *caller == self.authority {
            Ok(())
        } else {
            Err(CustomError::UnauthorizedAccess)
        }
    }

    /// Whether the record can hold the interest accrued up to `now`.
    pub fn can_accrue(&self, now: i64) -> (ok: bool)
        ensures
            ok == self@.accrue(now as int).fits(),
    {
        self.accrued_at(now) <= u64::MAX as u128
    }

    /// The interest that the vault has accrued by `now`, paid out or not: what
    /// the record holds and what the principal has earned since the last
    /// accrual.
    pub fn accrued_at(&self, now: i64) -> (total: u128)
        ensures
            total == self@.accrue(now as int).accrued_interest,
    {
        let due = interest_over(self.total_deposited, self.last_interest_claim_time, now);
        proof {
            let elapsed = now - self.last_interest_claim_time;
            lemma_interest_bound(self.total_deposited as nat, elapsed);
            if elapsed > 0 {
                assert(self.total_deposited * elapsed <= 0xffff_ffff_ffff_ffff
                    * 0xffff_ffff_ffff_ffff) by (nonlinear_arith)
                    requires
                        0 <= self.total_deposited <= 0xffff_ffff_ffff_ffff,
                        0 < elapsed <= 0xffff_ffff_ffff_ffff,
                ;
            }
        }
        self.accrued_interest as u128 + due
    }
}

/// Accrues the interest of `vault` up to `current_time`. A time that is not
/// later than the last accrual changes nothing.
pub fn update_interest(vault: &mut Vault, current_time: i64) -> (result: Result<(), CustomError>)
    requires
        old(vault)@.accrue(current_time as int).fits(),
    ensures
        result is Ok,
        final(vault)@ == old(vault)@.accrue(current_time as int),
{
    let total = vault.accrued_at(current_time);
    if current_time > vault.last_interest_claim_time {
        vault.accrued_interest = total as u64;
        vault.last_interest_claim_time = current_time;
    }
    Ok(())
}

/// Interest never exceeds the principal times the seconds it was earned in.
pub proof fn lemma_interest_bound(principal: nat, elapsed: int)
    ensures
        elapsed <= 0 ==> interest_due(principal, elapsed) == 0,
        elapsed > 0 ==> interest_due(principal, elapsed) <= principal * elapsed,
{
    if elapsed > 0 {
        let x = principal * elapsed;
        assert(0 <= x) by (nonlinear_arith)
            requires
                x == principal * elapsed,
                elapsed > 0,
        ;
        assert((x * 5) / 3_153_600_000 <= x);
    }
}

/// The interest is the rate of `APY_PERCENT` in a hundred, for each
/// `SECONDS_PER_YEAR` seconds, on the principal for the time that has passed,
/// and it is rounded down: it is the largest whole amount that does not
/// exceed that share, so the vault never earns more than the rate gives.
pub proof fn interest_is_the_yearly_rate_rounded_down(principal: nat, elapsed: int)
    requires
        elapsed > 0,
    ensures
        interest_due(principal, elapsed) * (100 * SECONDS_PER_YEAR) <= principal * elapsed
            * APY_PERCENT,
        principal * elapsed * APY_PERCENT < (interest_due(principal, elapsed) + 1) * (100
            * SECONDS_PER_YEAR),
{
    let x = principal * elapsed * 5;
    assert(0 <= x) by (nonlinear_arith)
        requires
            x == principal * elapsed * 5,
            elapsed > 0,
    ;
    assert(x == principal * elapsed * APY_PERCENT);
    assert(100 * SECONDS_PER_YEAR == 3_153_600_000);
    vstd::arithmetic::div_mod::lemma_fundamental_div_mod(x, 3_153_600_000);
}

/// The interest that `principal` earns from `since` to `now`.
pub fn interest_over(principal: u64, since: i64, now: i64) -> (due: u128)
    ensures
        due == interest_due(principal as nat, now - since),
{
    if now <= since {
        return 0;
    }
    let elapsed: u128 = (now as i128 - since as i128) as u128;
    let per_unit: u128 = 100 * (SECONDS_PER_YEAR as u128);
    let rate: u128 = APY_PERCENT as u128;
    assert(principal as u128 * elapsed <= 0xffff_ffff_ffff_ffff * 0xffff_ffff_ffff_ffff)
        by (nonlinear_arith)
        requires
            principal as u128 <= 0xffff_ffff_ffff_ffff,
            elapsed <= 0xffff_ffff_ffff_ffff,
    ;
    let product: u128 = principal as u128 * elapsed;
    let whole: u128 = product / per_unit;
    let rest: u128 = product % per_unit;
    assert(per_unit == 3_153_600_000 && rate == 5);
    assert(per_unit * whole <= product);
    let due: u128 = rate * whole + (rate * rest) / per_unit;
    proof {
        lemma_scaled_quotient(product as int, per_unit as int, rate as int);
        assert(principal * (now - since) * APY_PERCENT == product * rate) by (nonlinear_arith)
            requires
                product == principal * (now - since),
                rate == APY_PERCENT,
        ;
    }
    due
}

/// Dividing `k * x` by `d` is dividing `x` by `d`, times `k`, plus what the
/// remainder of `x`, times `k`, still holds of `d`.
proof fn lemma_scaled_quotient(x: int, d: int, k: int)
    requires
        0 <= x,
        0 < d,
        0 <= k,
    ensures
        (x * k) / d == k * (x / d) + (k * (x % d)) / d,
{
    let q = x / d;
    let r = x % d;
    assert(x == d * q + r) by {
        vstd::arithmetic::div_mod::lemma_fundamental_div_mod(x, d);
    }
    assert(x * k == d * (k * q) + k * r) by (nonlinear_arith)
        requires
            x == d * q + r,
    ;
    assert(0 <= k * r) by (nonlinear_arith)
        requires
            0 <= k,
            0 <= r,
    ;
    vstd::arithmetic::div_mod::lemma_fundamental_div_mod(k * r, d);
    let q2 = (k * r) / d;
    let r2 = (k * r) % d;
    assert(x * k == d * (k * q + q2) + r2) by (nonlinear_arith)
        requires
            x * k == d * (k * q) + k * r,
            k * r == d * q2 + r2,
    ;
    vstd::arithmetic::div_mod::lemma_fundamental_div_mod_converse(x * k, d, k * q + q2, r2);
}

} // verus!
