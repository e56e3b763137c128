use interest_vault::{
    claim_interest, deposit_sol, fund_contract_treasury, initialize, transfer_sol,
    withdraw_from_contract_treasury, Account, Address, Authorization, ClaimInterest, Clock,
    CustomError, DepositSol, FundContractTreasury, Initialize, InitializeBumps, Transfer,
    TransferSol, Vault, WithdrawFromContractTreasury,
};

const YEAR: i64 = 31_536_000;
const UNIT: u64 = 1_000_000_000;

fn key(fill: u8) -> Address {
    Address::new_from_array([fill; 32])
}

fn owner() -> Address {
    key(1)
}

fn stranger() -> Address {
    key(2)
}

fn holding(lamports: u64) -> Account {
    Account { key: key(10), lamports }
}

fn pool(lamports: u64) -> Account {
    Account { key: key(20), lamports }
}

fn at(unix_timestamp: i64) -> Clock {
    Clock { unix_timestamp }
}

fn vault_of(principal: u64, accrued: u64, last_accrual: i64) -> Vault {
    Vault {
        authority: owner(),
        bump: 255,
        treasury_bump: 254,
        contract_treasury_bump: 253,
        total_deposited: principal,
        accrued_interest: accrued,
        last_deposit_time: 0,
        last_interest_claim_time: last_accrual,
    }
}

fn balance_after(order: &Transfer, account: &Account) -> u64 {
    account.after(order).unwrap().lamports
}

#[test]
fn initialize_fills_an_empty_vault() {
    let mut ctx = Initialize {
        authority: owner(),
        vault: vault_of(77, 88, 99),
        bumps: InitializeBumps { vault: 3, treasury: 4, contract_treasury: 5 },
        clock: at(1_700_000_000),
    };
    assert_eq!(initialize(&mut ctx), Ok(()));
    assert_eq!(
        ctx.vault,
        Vault {
            authority: owner(),
            bump: 3,
            treasury_bump: 4,
            contract_treasury_bump: 5,
            total_deposited: 0,
            accrued_interest: 0,
            last_deposit_time: 1_700_000_000,
            last_interest_claim_time: 1_700_000_000,
        }
    );
    assert_eq!(ctx.authority, owner());
    assert_eq!(ctx.clock, at(1_700_000_000));
}

#[test]
fn first_deposit_orders_one_payment() {
    let mut ctx = DepositSol {
        sender: stranger(),
        vault: vault_of(0, 0, 100),
        treasury: holding(0),
        contract_treasury: pool(0),
        clock: at(500),
    };
    let orders = deposit_sol(&mut ctx, UNIT).unwrap();
    assert_eq!(orders.len(), 1);
    assert_eq!(orders[0], Transfer::new(stranger(), key(10), UNIT, Authorization::Source));
    assert_eq!(ctx.vault.total_deposited, UNIT);
    assert_eq!(ctx.vault.accrued_interest, 0);
    assert_eq!(ctx.vault.last_deposit_time, 500);
    // An empty vault is not accrued: the time of the last accrual stays.
    assert_eq!(ctx.vault.last_interest_claim_time, 100);
}

#[test]
fn deposit_into_an_empty_vault_keeps_interest_left_over() {
    let mut ctx = DepositSol {
        sender: owner(),
        vault: vault_of(0, 42, 0),
        treasury: holding(0),
        contract_treasury: pool(1_000),
        clock: at(YEAR),
    };
    let orders = deposit_sol(&mut ctx, 5).unwrap();
    assert_eq!(orders.len(), 1);
    assert_eq!(ctx.vault.accrued_interest, 42);
    assert_eq!(ctx.vault.total_deposited, 5);
    assert_eq!(ctx.vault.last_interest_claim_time, 0);
}

#[test]
fn later_deposit_settles_the_interest_first() {
    let mut ctx = DepositSol {
        sender: stranger(),
        vault: vault_of(UNIT, 7, 0),
        treasury: holding(UNIT),
        contract_treasury: pool(100 * UNIT),
        clock: at(YEAR),
    };
    let orders = deposit_sol(&mut ctx, 2 * UNIT).unwrap();
    assert_eq!(
        orders,
        vec![
            Transfer::new(key(20), key(10), 50_000_007, Authorization::ContractTreasury { bump: 253 }),
            Transfer::new(stranger(), key(10), 2 * UNIT, Authorization::Source),
        ]
    );
    assert_eq!(ctx.vault.total_deposited, 3 * UNIT);
    assert_eq!(ctx.vault.accrued_interest, 0);
    assert_eq!(ctx.vault.last_deposit_time, YEAR);
    assert_eq!(ctx.vault.last_interest_claim_time, YEAR);
    assert_eq!(ctx.vault.authority, owner());
    assert_eq!(ctx.treasury, holding(UNIT));
    assert_eq!(ctx.contract_treasury, pool(100 * UNIT));
}

#[test]
fn deposit_with_nothing_accrued_orders_no_interest() {
    let mut ctx = DepositSol {
        sender: owner(),
        vault: vault_of(10, 0, 0),
        treasury: holding(10),
        contract_treasury: pool(0),
        clock: at(YEAR),
    };
    let orders = deposit_sol(&mut ctx, 1).unwrap();
    assert_eq!(orders, vec![Transfer::new(owner(), key(10), 1, Authorization::Source)]);
    assert_eq!(ctx.vault.total_deposited, 11);
    assert_eq!(ctx.vault.accrued_interest, 0);
    assert_eq!(ctx.vault.last_interest_claim_time, YEAR);
}

#[test]
fn deposit_of_nothing_still_marks_the_time() {
    let mut ctx = DepositSol {
        sender: owner(),
        vault: vault_of(0, 0, 0),
        treasury: holding(0),
        contract_treasury: pool(0),
        clock: at(9),
    };
    let orders = deposit_sol(&mut ctx, 0).unwrap();
    assert_eq!(orders.len(), 1);
    assert_eq!(orders[0].lamports, 0);
    assert_eq!(ctx.vault.total_deposited, 0);
    assert_eq!(ctx.vault.last_deposit_time, 9);
}

#[test]
fn transfer_out_pays_from_the_holding_account() {
    let mut ctx = TransferSol {
        authority: owner(),
        vault: vault_of(3 * UNIT, 0, 0),
        treasury: holding(3 * UNIT),
        clock: at(YEAR),
    };
    let order = transfer_sol(&mut ctx, UNIT, key(30)).unwrap();
    assert_eq!(
        order,
        Transfer::new(
            key(10),
            key(30),
            UNIT,
            Authorization::Treasury { authority: owner(), bump: 254 }
        )
    );
    assert_eq!(ctx.vault.total_deposited, 2 * UNIT);
    // Interest is accrued on the principal as it was before the payment.
    assert_eq!(ctx.vault.accrued_interest, 150_000_000);
    assert_eq!(ctx.vault.last_interest_claim_time, YEAR);
    assert_eq!(ctx.vault.last_deposit_time, 0);
    assert_eq!(ctx.treasury, holding(3 * UNIT));
}

#[test]
fn transfer_out_of_everything_is_allowed() {
    let mut ctx = TransferSol {
        authority: owner(),
        vault: vault_of(UNIT, 0, 0),
        treasury: holding(UNIT),
        clock: at(0),
    };
    let order = transfer_sol(&mut ctx, UNIT, owner()).unwrap();
    assert_eq!(order.lamports, UNIT);
    assert_eq!(ctx.vault.total_deposited, 0);
    assert_eq!(balance_after(&order, &ctx.treasury), 0);
}

#[test]
fn transfer_out_of_more_than_the_principal_is_refused() {
    let mut ctx = TransferSol {
        authority: owner(),
        vault: vault_of(UNIT, 5, 0),
        treasury: holding(10 * UNIT),
        clock: at(YEAR),
    };
    let before = ctx;
    assert_eq!(transfer_sol(&mut ctx, UNIT + 1, key(30)), Err(CustomError::InsufficientFunds));
    assert_eq!(ctx, before);
}

#[test]
fn transfer_out_of_more_than_the_holding_account_has_is_refused() {
    let mut ctx = TransferSol {
        authority: owner(),
        vault: vault_of(UNIT, 5, 0),
        treasury: holding(UNIT - 1),
        clock: at(YEAR),
    };
    let before = ctx;
    assert_eq!(transfer_sol(&mut ctx, UNIT, key(30)), Err(CustomError::InsufficientFunds));
    assert_eq!(ctx, before);
}

#[test]
fn transfer_out_by_a_stranger_is_refused_whatever_the_balances() {
    for (principal, amount, live) in [(UNIT, 1, UNIT), (0, 1, 0), (UNIT, UNIT + 1, 0), (5, 0, 5)] {
        let mut ctx = TransferSol {
            authority: stranger(),
            vault: vault_of(principal, 0, 0),
            treasury: holding(live),
            clock: at(YEAR),
        };
        let before = ctx;
        assert_eq!(transfer_sol(&mut ctx, amount, stranger()), Err(CustomError::UnauthorizedAccess));
        assert_eq!(ctx, before);
    }
}

#[test]
fn transfer_out_keeps_the_principal_covered() {
    for (principal, live, amount) in [(100u64, 100u64, 40u64), (100, 250, 100), (0, 7, 0), (9, 9, 9)] {
        let mut ctx = TransferSol {
            authority: owner(),
            vault: vault_of(principal, 0, 0),
            treasury: holding(live),
            clock: at(10),
        };
        let order = transfer_sol(&mut ctx, amount, key(30)).unwrap();
        assert!(ctx.vault.total_deposited <= balance_after(&order, &ctx.treasury));
        assert_eq!(balance_after(&order, &ctx.treasury), live - amount);
    }
}

#[test]
fn claim_merges_the_interest_into_the_principal() {
    let mut ctx = ClaimInterest {
        authority: owner(),
        vault: vault_of(UNIT, 0, 0),
        treasury: holding(UNIT),
        contract_treasury: pool(UNIT),
        clock: at(YEAR),
    };
    let order = claim_interest(&mut ctx).unwrap();
    assert_eq!(
        order,
        Transfer::new(key(20), key(10), 50_000_000, Authorization::ContractTreasury { bump: 253 })
    );
    assert_eq!(ctx.vault.total_deposited, 1_050_000_000);
    assert_eq!(ctx.vault.accrued_interest, 0);
    assert_eq!(ctx.vault.last_interest_claim_time, YEAR);
    assert_eq!(ctx.vault.last_deposit_time, 0);
    assert!(ctx.vault.total_deposited <= balance_after(&order, &ctx.treasury));
}

#[test]
fn claim_pays_interest_accrued_earlier_without_new_time() {
    let mut ctx = ClaimInterest {
        authority: owner(),
        vault: vault_of(UNIT, 12, 500),
        treasury: holding(UNIT),
        contract_treasury: pool(UNIT),
        clock: at(400),
    };
    let order = claim_interest(&mut ctx).unwrap();
    assert_eq!(order.lamports, 12);
    assert_eq!(ctx.vault.total_deposited, UNIT + 12);
    assert_eq!(ctx.vault.accrued_interest, 0);
    assert_eq!(ctx.vault.last_interest_claim_time, 500);
}

#[test]
fn claim_of_no_interest_is_refused() {
    let mut ctx = ClaimInterest {
        authority: owner(),
        vault: vault_of(UNIT, 0, YEAR),
        treasury: holding(UNIT),
        contract_treasury: pool(UNIT),
        clock: at(YEAR),
    };
    let before = ctx;
    assert_eq!(claim_interest(&mut ctx), Err(CustomError::NoInterestToClaimYet));
    assert_eq!(ctx, before);
}

#[test]
fn claim_of_interest_that_rounds_to_nothing_is_refused() {
    let mut ctx = ClaimInterest {
        authority: owner(),
        vault: vault_of(19, 0, 0),
        treasury: holding(19),
        contract_treasury: pool(UNIT),
        clock: at(YEAR),
    };
    let before = ctx;
    assert_eq!(claim_interest(&mut ctx), Err(CustomError::NoInterestToClaimYet));
    assert_eq!(ctx, before);
}

#[test]
fn claim_by_a_stranger_is_refused_whatever_the_balances() {
    for (principal, accrued) in [(UNIT, 0), (UNIT, 500), (0, 0), (u64::MAX, u64::MAX)] {
        let mut ctx = ClaimInterest {
            authority: stranger(),
            vault: vault_of(principal, accrued, 0),
            treasury: holding(principal),
            contract_treasury: pool(UNIT),
            clock: at(YEAR),
        };
        let before = ctx;
        assert_eq!(claim_interest(&mut ctx), Err(CustomError::UnauthorizedAccess));
        assert_eq!(ctx, before);
    }
}

#[test]
fn funding_the_pool_is_open_to_anyone() {
    let ctx = FundContractTreasury { sender: stranger(), contract_treasury: pool(0) };
    assert_eq!(
        fund_contract_treasury(&ctx, 123),
        Ok(Transfer::new(stranger(), key(20), 123, Authorization::Source))
    );
}

#[test]
fn withdrawal_from_the_pool_pays_the_recipient() {
    let ctx = WithdrawFromContractTreasury {
        admin: owner(),
        vault: vault_of(0, 0, 0),
        authority: owner(),
        contract_treasury: pool(500),
        recipient: key(40),
    };
    assert_eq!(
        withdraw_from_contract_treasury(&ctx, 500),
        Ok(Transfer::new(key(20), key(40), 500, Authorization::ContractTreasury { bump: 253 }))
    );
}

#[test]
fn withdrawal_of_more_than_the_pool_holds_is_refused() {
    let ctx = WithdrawFromContractTreasury {
        admin: owner(),
        vault: vault_of(UNIT, 0, 0),
        authority: owner(),
        contract_treasury: pool(500),
        recipient: key(40),
    };
    assert_eq!(withdraw_from_contract_treasury(&ctx, 501), Err(CustomError::InsufficientFunds));
}

#[test]
fn withdrawal_by_a_stranger_is_refused() {
    let by_stranger = WithdrawFromContractTreasury {
        admin: stranger(),
        vault: vault_of(UNIT, 0, 0),
        authority: owner(),
        contract_treasury: pool(500),
        recipient: key(40),
    };
    assert_eq!(withdraw_from_contract_treasury(&by_stranger, 1), Err(CustomError::UnauthorizedAccess));
    let wrong_owner = WithdrawFromContractTreasury { admin: owner(), authority: stranger(), ..by_stranger };
    assert_eq!(withdraw_from_contract_treasury(&wrong_owner, 1), Err(CustomError::UnauthorizedAccess));
    // The caller is tested before the balance of the pool.
    assert_eq!(
        withdraw_from_contract_treasury(&by_stranger, 501),
        Err(CustomError::UnauthorizedAccess)
    );
}

#[test]
fn deposit_then_transfer_out_restores_the_principal() {
    let mut deposit = DepositSol {
        sender: stranger(),
        vault: vault_of(3 * UNIT, 0, 0),
        treasury: holding(3 * UNIT),
        contract_treasury: pool(UNIT),
        clock: at(1_000),
    };
    let mut live = deposit.treasury;
    for order in deposit_sol(&mut deposit, UNIT).unwrap() {
        live.lamports = balance_after(&order, &live);
    }
    assert_eq!(deposit.vault.total_deposited, 4 * UNIT);
    let mut transfer =
        TransferSol { authority: owner(), vault: deposit.vault, treasury: live, clock: at(1_000) };
    let order = transfer_sol(&mut transfer, UNIT, key(30)).unwrap();
    assert_eq!(transfer.vault.total_deposited, 3 * UNIT);
    assert_eq!(order.lamports, UNIT);
    assert_eq!(order.from, live.key);
    assert_eq!(order.to, key(30));
    assert_eq!(live.lamports - balance_after(&order, &live), UNIT);
    // The interest settled by the deposit stays in the holding account.
    assert_eq!(balance_after(&order, &live), 3 * UNIT + 4_756);
}

#[test]
fn interest_grows_until_it_is_settled() {
    let mut vault = vault_of(UNIT, 0, 0);
    let mut live = holding(UNIT);
    let mut last = 0;
    for day in 1..=10i64 {
        let mut ctx =
            TransferSol { authority: owner(), vault, treasury: live, clock: at(day * 86_400) };
        let order = transfer_sol(&mut ctx, 1_000, key(30)).unwrap();
        live.lamports = balance_after(&order, &live);
        vault = ctx.vault;
        assert!(vault.accrued_interest >= last);
        last = vault.accrued_interest;
    }
    assert!(last > 0);
    let mut claim = ClaimInterest {
        authority: owner(),
        vault,
        treasury: live,
        contract_treasury: pool(UNIT),
        clock: at(10 * 86_400),
    };
    let order = claim_interest(&mut claim).unwrap();
    assert_eq!(order.lamports, last);
    assert_eq!(claim.vault.accrued_interest, 0);
    let mut deposit = DepositSol {
        sender: stranger(),
        vault: claim.vault,
        treasury: live,
        contract_treasury: pool(UNIT),
        clock: at(11 * 86_400),
    };
    let orders = deposit_sol(&mut deposit, 1).unwrap();
    assert_eq!(orders.len(), 2);
    assert!(orders[0].lamports > 0);
    assert_eq!(deposit.vault.accrued_interest, 0);
}

#[test]
fn an_account_pays_and_receives_what_an_order_moves() {
    let order = Transfer::new(key(10), key(30), 40, Authorization::Source);
    assert_eq!(holding(100).after(&order), Some(holding(60)));
    assert_eq!(holding(40).after(&order), Some(holding(0)));
    assert_eq!(
        Account { key: key(30), lamports: 5 }.after(&order),
        Some(Account { key: key(30), lamports: 45 })
    );
    assert_eq!(pool(7).after(&order), Some(pool(7)));
}

#[test]
fn an_account_that_cannot_pay_or_hold_is_left_out() {
    let order = Transfer::new(key(10), key(30), 40, Authorization::Source);
    assert_eq!(holding(39).after(&order), None);
    assert_eq!(Account { key: key(30), lamports: u64::MAX - 39 }.after(&order), None);
    assert_eq!(
        Account { key: key(30), lamports: u64::MAX - 40 }.after(&order),
        Some(Account { key: key(30), lamports: u64::MAX })
    );
    let to_itself = Transfer::new(key(10), key(10), 40, Authorization::Source);
    assert_eq!(holding(40).after(&to_itself), Some(holding(40)));
    assert_eq!(holding(u64::MAX).after(&to_itself), Some(holding(u64::MAX)));
    assert_eq!(holding(39).after(&to_itself), None);
}

#[test]
fn only_the_owner_is_let_through() {
    let vault = vault_of(0, 0, 0);
    assert_eq!(vault.authorize(&owner()), Ok(()));
    assert_eq!(vault.authorize(&stranger()), Err(CustomError::UnauthorizedAccess));
}

#[test]
fn claim_keeps_the_principal_covered() {
    let mut ctx = ClaimInterest {
        authority: owner(),
        vault: vault_of(7 * UNIT, 3, 0),
        treasury: holding(7 * UNIT),
        contract_treasury: pool(UNIT),
        clock: at(YEAR / 2),
    };
    let order = claim_interest(&mut ctx).unwrap();
    let live = ctx.treasury.after(&order).unwrap();
    assert_eq!(order.lamports, 175_000_003);
    assert_eq!(ctx.vault.total_deposited, 7 * UNIT + 175_000_003);
    assert_eq!(live.lamports, ctx.vault.total_deposited);
    assert_eq!(ctx.contract_treasury.after(&order), Some(pool(UNIT - 175_000_003)));
}

#[test]
fn deposit_keeps_the_principal_covered() {
    let mut ctx = DepositSol {
        sender: stranger(),
        vault: vault_of(UNIT, 0, 0),
        treasury: holding(UNIT),
        contract_treasury: pool(UNIT),
        clock: at(YEAR),
    };
    let mut live = ctx.treasury;
    for order in deposit_sol(&mut ctx, 5).unwrap() {
        live = live.after(&order).unwrap();
    }
    assert_eq!(ctx.vault.total_deposited, UNIT + 5);
    assert_eq!(live.lamports, UNIT + 50_000_000 + 5);
    assert!(ctx.vault.total_deposited <= live.lamports);
}

#[test]
fn operations_say_beforehand_whether_their_result_fits() {
    let transfer = TransferSol {
        authority: owner(),
        vault: vault_of(u64::MAX, u64::MAX, 0),
        treasury: holding(u64::MAX),
        clock: at(1),
    };
    // One second on the largest principal earns 29,247,120,867 units.
    assert!(!transfer.can_hold_result(1));
    assert!(TransferSol { clock: at(0), ..transfer }.can_hold_result(1));
    assert!(TransferSol { authority: stranger(), ..transfer }.can_hold_result(1));
    assert!(TransferSol { treasury: holding(0), ..transfer }.can_hold_result(1));
    let room = vault_of(u64::MAX, u64::MAX - 29_247_120_867, 0);
    assert!(TransferSol { vault: room, ..transfer }.can_hold_result(1));
    assert!(room.can_accrue(1));
    assert!(!room.can_accrue(2));

    let deposit = DepositSol {
        sender: stranger(),
        vault: vault_of(u64::MAX - 5, 0, 0),
        treasury: holding(0),
        contract_treasury: pool(0),
        clock: at(0),
    };
    assert!(deposit.can_hold_result(5));
    assert!(!deposit.can_hold_result(6));
    assert!(!DepositSol { vault: vault_of(1, u64::MAX, 0), clock: at(YEAR * 20), ..deposit }
        .can_hold_result(0));
    // An empty vault is not accrued, so interest left over does not count.
    assert!(DepositSol { vault: vault_of(0, u64::MAX, 0), clock: at(YEAR), ..deposit }
        .can_hold_result(u64::MAX));

    let claim = ClaimInterest {
        authority: owner(),
        vault: vault_of(u64::MAX - 10, 10, 0),
        treasury: holding(0),
        contract_treasury: pool(0),
        clock: at(0),
    };
    assert!(claim.can_hold_result());
    assert!(!ClaimInterest { vault: vault_of(u64::MAX - 10, 11, 0), ..claim }.can_hold_result());
    assert!(ClaimInterest { authority: stranger(), vault: vault_of(u64::MAX, 11, 0), ..claim }
        .can_hold_result());
    assert!(ClaimInterest { vault: vault_of(u64::MAX, 0, 0), ..claim }.can_hold_result());
}
