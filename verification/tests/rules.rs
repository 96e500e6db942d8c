use escrow_core::cancel_escrow;
use escrow_core::complete_swap;
use escrow_core::create_escrow;
use escrow_core::fund_escrow;
use escrow_core::open_escrow;
use escrow_core::refund_after_expiry;
use escrow_core::transfer;
use escrow_core::CancelEscrow;
use escrow_core::CompleteSwap;
use escrow_core::CreateEscrow;
use escrow_core::EscrowAccount;
use escrow_core::EscrowError;
use escrow_core::EscrowVault;
use escrow_core::Failure;
use escrow_core::FundEscrow;
use escrow_core::Identity;
use escrow_core::RefundAfterExpiry;
use escrow_core::Wallet;

const NOW: i64 = 5_000;

fn key(tag: u8) -> Identity {
    Identity::new([tag; 32])
}

fn rule(error: EscrowError) -> Failure {
    Failure::Rule(error)
}

/// An open, unfunded record of 100 against 50, maker 1, taker 2, expiry 9000.
fn open_record() -> EscrowAccount {
    EscrowAccount {
        maker: key(1),
        taker: Some(key(2)),
        escrow_id: 3,
        amount_a: 100,
        amount_b_expected: 50,
        is_funded: false,
        is_active: true,
        is_completed: false,
        expiry_ts: 9_000,
        bump: 254,
    }
}

fn funded_record() -> EscrowAccount {
    EscrowAccount { is_funded: true, ..open_record() }
}

fn vault(lamports: u64, record: EscrowAccount) -> EscrowVault {
    EscrowVault { key: key(7), lamports, data: Some(record) }
}

fn wallet(tag: u8, lamports: u64) -> Wallet {
    Wallet { key: key(tag), lamports }
}

fn fresh(maker_lamports: u64) -> CreateEscrow {
    CreateEscrow {
        program_id: key(9),
        escrow: EscrowVault::vacant(key(0), 0),
        maker: wallet(1, maker_lamports),
    }
}

#[test]
fn transfer_moves_the_amount() {
    let mut from = 70;
    let mut to = 5;
    assert_eq!(transfer(&mut from, &mut to, 30), Ok(()));
    assert_eq!((from, to), (40, 35));
    assert_eq!(transfer(&mut from, &mut to, 40), Ok(()));
    assert_eq!((from, to), (0, 75));
    assert_eq!(transfer(&mut from, &mut to, 0), Ok(()));
    assert_eq!((from, to), (0, 75));
}

#[test]
fn transfer_fails_on_a_short_balance() {
    let mut from = 29;
    let mut to = 5;
    assert_eq!(transfer(&mut from, &mut to, 30), Err(Failure::InsufficientFunds));
    assert_eq!((from, to), (29, 5));
}

#[test]
fn transfer_fails_where_the_receiver_would_overflow() {
    let mut from = 10;
    let mut to = u64::MAX - 9;
    assert_eq!(transfer(&mut from, &mut to, 10), Err(Failure::BalanceOverflow));
    assert_eq!((from, to), (10, u64::MAX - 9));
    assert_eq!(transfer(&mut from, &mut to, 9), Ok(()));
    assert_eq!((from, to), (1, u64::MAX));
}

#[test]
fn transfer_reports_the_short_balance_before_the_overflow() {
    let mut from = 1;
    let mut to = u64::MAX;
    assert_eq!(transfer(&mut from, &mut to, 2), Err(Failure::InsufficientFunds));
}

#[test]
fn create_rejects_a_zero_amount() {
    let mut ctx = fresh(1_000);
    let before = ctx;
    assert_eq!(
        create_escrow(&mut ctx, 3, 0, 50, 9_000, key(2), NOW),
        Err(rule(EscrowError::InvalidAmount))
    );
    assert_eq!(
        create_escrow(&mut ctx, 3, 100, 0, 9_000, key(2), NOW),
        Err(rule(EscrowError::InvalidAmount))
    );
    assert_eq!(ctx, before);
}

#[test]
fn create_checks_the_amounts_before_the_expiry() {
    let mut ctx = fresh(1_000);
    assert_eq!(
        create_escrow(&mut ctx, 3, 0, 50, NOW - 1, key(2), NOW),
        Err(rule(EscrowError::InvalidAmount))
    );
}

#[test]
fn create_rejects_an_expiry_that_is_not_in_the_future() {
    let mut ctx = fresh(1_000);
    let before = ctx;
    assert_eq!(
        create_escrow(&mut ctx, 3, 100, 50, NOW, key(2), NOW),
        Err(rule(EscrowError::InvalidExpiry))
    );
    assert_eq!(
        create_escrow(&mut ctx, 3, 100, 50, NOW - 1, key(2), NOW),
        Err(rule(EscrowError::InvalidExpiry))
    );
    assert_eq!(ctx, before);
    assert!(create_escrow(&mut ctx, 3, 100, 50, NOW + 1, key(2), NOW).is_ok());
}

#[test]
fn create_refuses_a_vault_with_an_active_record() {
    let mut ctx = CreateEscrow {
        program_id: key(9),
        escrow: vault(100, open_record()),
        maker: wallet(1, 1_000),
    };
    let before = ctx;
    assert_eq!(
        create_escrow(&mut ctx, 3, 100, 50, 9_000, key(2), NOW),
        Err(Failure::RecordExists)
    );
    assert_eq!(
        create_escrow(&mut ctx, 3, 0, 50, 9_000, key(2), NOW),
        Err(Failure::RecordExists)
    );
    assert_eq!(ctx, before);
}

#[test]
fn create_refuses_a_vault_with_an_ended_record() {
    let ended = EscrowAccount { is_active: false, ..open_record() };
    let mut ctx =
        CreateEscrow { program_id: key(9), escrow: vault(0, ended), maker: wallet(1, 1_000) };
    let before = ctx;
    assert_eq!(
        create_escrow(&mut ctx, 3, 100, 50, 9_000, key(2), NOW),
        Err(rule(EscrowError::NotActive))
    );
    assert_eq!(ctx, before);
}

#[test]
fn open_without_an_identity_fails() {
    let mut ctx = fresh(1_000);
    let before = ctx;
    assert_eq!(
        open_escrow(&mut ctx, None, 3, 100, 50, 9_000, key(2), NOW),
        Err(Failure::NoIdentity)
    );
    assert_eq!(ctx, before);
    assert_eq!(
        open_escrow(&mut ctx, None, 3, 0, 50, 9_000, key(2), NOW),
        Err(rule(EscrowError::InvalidAmount))
    );
}

#[test]
fn open_takes_the_identity_and_nonce_it_is_given() {
    let mut ctx = fresh(1_000);
    let created = open_escrow(&mut ctx, Some((key(44), 201)), 3, 100, 50, 9_000, key(2), NOW);
    assert_eq!(created.unwrap().escrow, key(44));
    assert_eq!(ctx.escrow.key, key(44));
    assert_eq!(ctx.escrow.lamports, 100);
    assert_eq!(ctx.maker.lamports, 900);
    assert_eq!(
        ctx.escrow.data,
        Some(EscrowAccount { bump: 201, ..open_record() })
    );
}

#[test]
fn create_fails_where_the_maker_cannot_pay() {
    let mut ctx = fresh(99);
    let before = ctx;
    assert_eq!(
        create_escrow(&mut ctx, 3, 100, 50, 9_000, key(2), NOW),
        Err(Failure::InsufficientFunds)
    );
    assert_eq!(ctx, before);
    let mut exact = fresh(100);
    assert!(create_escrow(&mut exact, 3, 100, 50, 9_000, key(2), NOW).is_ok());
    assert_eq!(exact.maker.lamports, 0);
}

#[test]
fn create_fails_where_the_vault_cannot_hold_the_deposit() {
    let mut ctx = CreateEscrow {
        program_id: key(9),
        escrow: EscrowVault::vacant(key(0), u64::MAX - 99),
        maker: wallet(1, 1_000),
    };
    let before = ctx;
    assert_eq!(
        create_escrow(&mut ctx, 3, 100, 50, 9_000, key(2), NOW),
        Err(Failure::BalanceOverflow)
    );
    assert_eq!(ctx, before);
}

#[test]
fn fund_refuses_a_vault_without_a_record() {
    let mut ctx = FundEscrow { escrow: EscrowVault::vacant(key(7), 0), taker: wallet(2, 500) };
    let before = ctx;
    assert_eq!(fund_escrow(&mut ctx, NOW), Err(rule(EscrowError::NotActive)));
    assert_eq!(ctx, before);
}

#[test]
fn fund_checks_its_rules_in_order() {
    // inactive and funded and a stranger and too late: inactive comes first
    let all_wrong = EscrowAccount { is_active: false, is_funded: true, ..open_record() };
    let mut ctx = FundEscrow { escrow: vault(150, all_wrong), taker: wallet(3, 500) };
    assert_eq!(fund_escrow(&mut ctx, 9_001), Err(rule(EscrowError::NotActive)));
    // funded and a stranger and too late
    let mut ctx = FundEscrow { escrow: vault(150, funded_record()), taker: wallet(3, 500) };
    assert_eq!(fund_escrow(&mut ctx, 9_001), Err(rule(EscrowError::AlreadyFunded)));
    // a stranger and too late
    let mut ctx = FundEscrow { escrow: vault(100, open_record()), taker: wallet(3, 500) };
    assert_eq!(fund_escrow(&mut ctx, 9_001), Err(rule(EscrowError::Unauthorized)));
    // too late
    let mut ctx = FundEscrow { escrow: vault(100, open_record()), taker: wallet(2, 500) };
    let before = ctx;
    assert_eq!(fund_escrow(&mut ctx, 9_001), Err(rule(EscrowError::EscrowExpired)));
    assert_eq!(ctx, before);
}

#[test]
fn fund_refuses_a_record_without_a_taker() {
    let nobody = EscrowAccount { taker: None, ..open_record() };
    let mut ctx = FundEscrow { escrow: vault(100, nobody), taker: wallet(2, 500) };
    assert_eq!(fund_escrow(&mut ctx, NOW), Err(rule(EscrowError::Unauthorized)));
}

#[test]
fn fund_fails_where_the_taker_cannot_pay() {
    let mut ctx = FundEscrow { escrow: vault(100, open_record()), taker: wallet(2, 49) };
    let before = ctx;
    assert_eq!(fund_escrow(&mut ctx, NOW), Err(Failure::InsufficientFunds));
    assert_eq!(ctx, before);
}

#[test]
fn fund_changes_only_the_funded_flag() {
    let mut ctx = FundEscrow { escrow: vault(100, open_record()), taker: wallet(2, 50) };
    fund_escrow(&mut ctx, NOW).unwrap();
    assert_eq!(ctx.escrow.data, Some(funded_record()));
    assert_eq!(ctx.escrow.key, key(7));
    assert_eq!(ctx.taker, wallet(2, 0));
}

#[test]
fn complete_checks_its_rules_in_order() {
    let mut ctx = CompleteSwap {
        escrow: EscrowVault::vacant(key(7), 0),
        taker: wallet(2, 0),
        maker: wallet(1, 0),
    };
    assert_eq!(complete_swap(&mut ctx, NOW), Err(rule(EscrowError::NotActive)));

    let ended = EscrowAccount { is_active: false, is_funded: false, ..open_record() };
    let mut ctx = CompleteSwap { escrow: vault(0, ended), taker: wallet(3, 0), maker: wallet(1, 0) };
    assert_eq!(complete_swap(&mut ctx, NOW), Err(rule(EscrowError::NotActive)));

    let mut ctx =
        CompleteSwap { escrow: vault(100, open_record()), taker: wallet(3, 0), maker: wallet(1, 0) };
    assert_eq!(complete_swap(&mut ctx, NOW), Err(rule(EscrowError::NotFunded)));

    let nobody = EscrowAccount { taker: None, ..funded_record() };
    let mut ctx = CompleteSwap { escrow: vault(150, nobody), taker: wallet(2, 0), maker: wallet(1, 0) };
    let before = ctx;
    assert_eq!(complete_swap(&mut ctx, NOW), Err(rule(EscrowError::TakerNotSet)));
    assert_eq!(ctx, before);
}

#[test]
fn complete_is_for_the_taker_alone() {
    // a stranger
    let mut ctx = CompleteSwap {
        escrow: vault(150, funded_record()),
        taker: wallet(3, 0),
        maker: wallet(1, 0),
    };
    let before = ctx;
    assert_eq!(complete_swap(&mut ctx, NOW), Err(rule(EscrowError::Unauthorized)));
    assert_eq!(ctx, before);
    // the maker
    let mut ctx = CompleteSwap {
        escrow: vault(150, funded_record()),
        taker: wallet(1, 0),
        maker: wallet(1, 0),
    };
    let before = ctx;
    assert_eq!(complete_swap(&mut ctx, NOW), Err(rule(EscrowError::Unauthorized)));
    assert_eq!(ctx, before);
}

#[test]
fn complete_pays_only_the_maker_of_the_record() {
    let mut ctx = CompleteSwap {
        escrow: vault(150, funded_record()),
        taker: wallet(2, 0),
        maker: wallet(3, 0),
    };
    let before = ctx;
    assert_eq!(complete_swap(&mut ctx, NOW), Err(Failure::WrongAccount));
    assert_eq!(ctx, before);
}

#[test]
fn complete_works_after_the_expiry_too() {
    let mut ctx = CompleteSwap {
        escrow: vault(150, funded_record()),
        taker: wallet(2, 1),
        maker: wallet(1, 2),
    };
    assert!(complete_swap(&mut ctx, 9_999).is_ok());
    assert_eq!(ctx.taker.lamports, 101);
    assert_eq!(ctx.maker.lamports, 52);
    assert_eq!(ctx.escrow.lamports, 0);
}

#[test]
fn complete_pays_both_or_neither() {
    // the vault can pay the taker but not the maker as well
    let mut ctx = CompleteSwap {
        escrow: vault(149, funded_record()),
        taker: wallet(2, 0),
        maker: wallet(1, 0),
    };
    let before = ctx;
    assert_eq!(complete_swap(&mut ctx, NOW), Err(Failure::InsufficientFunds));
    assert_eq!(ctx, before);
    // the vault cannot even pay the taker
    let mut ctx = CompleteSwap {
        escrow: vault(99, funded_record()),
        taker: wallet(2, 0),
        maker: wallet(1, 0),
    };
    let before = ctx;
    assert_eq!(complete_swap(&mut ctx, NOW), Err(Failure::InsufficientFunds));
    assert_eq!(ctx, before);
    // the maker's balance cannot hold the payment
    let mut ctx = CompleteSwap {
        escrow: vault(150, funded_record()),
        taker: wallet(2, 0),
        maker: wallet(1, u64::MAX - 49),
    };
    let before = ctx;
    assert_eq!(complete_swap(&mut ctx, NOW), Err(Failure::BalanceOverflow));
    assert_eq!(ctx, before);
    // the taker's balance cannot hold the payment
    let mut ctx = CompleteSwap {
        escrow: vault(150, funded_record()),
        taker: wallet(2, u64::MAX - 99),
        maker: wallet(1, 0),
    };
    let before = ctx;
    assert_eq!(complete_swap(&mut ctx, NOW), Err(Failure::BalanceOverflow));
    assert_eq!(ctx, before);
}

#[test]
fn cancel_checks_its_rules_in_order() {
    let mut ctx = CancelEscrow { escrow: EscrowVault::vacant(key(7), 0), maker: wallet(1, 0) };
    assert_eq!(cancel_escrow(&mut ctx, NOW), Err(rule(EscrowError::Unauthorized)));

    // a stranger, on an ended record: the caller is asked first
    let ended = EscrowAccount { is_active: false, ..open_record() };
    let mut ctx = CancelEscrow { escrow: vault(0, ended), maker: wallet(2, 0) };
    assert_eq!(cancel_escrow(&mut ctx, NOW), Err(rule(EscrowError::Unauthorized)));

    let mut ctx = CancelEscrow { escrow: vault(0, ended), maker: wallet(1, 0) };
    assert_eq!(cancel_escrow(&mut ctx, NOW), Err(rule(EscrowError::NotActive)));

    let mut ctx = CancelEscrow { escrow: vault(150, funded_record()), maker: wallet(1, 0) };
    let before = ctx;
    assert_eq!(cancel_escrow(&mut ctx, NOW), Err(rule(EscrowError::AlreadyFunded)));
    assert_eq!(ctx, before);
}

#[test]
fn cancel_is_not_for_the_taker() {
    let mut ctx = CancelEscrow { escrow: vault(100, open_record()), maker: wallet(2, 0) };
    let before = ctx;
    assert_eq!(cancel_escrow(&mut ctx, NOW), Err(rule(EscrowError::Unauthorized)));
    assert_eq!(ctx, before);
}

#[test]
fn cancel_works_before_and_after_the_expiry() {
    let mut ctx = CancelEscrow { escrow: vault(100, open_record()), maker: wallet(1, 5) };
    assert!(cancel_escrow(&mut ctx, 10).is_ok());
    assert_eq!(ctx.maker.lamports, 105);
    let mut ctx = CancelEscrow { escrow: vault(100, open_record()), maker: wallet(1, 5) };
    assert!(cancel_escrow(&mut ctx, 9_001).is_ok());
    assert_eq!(ctx.escrow.data, Some(EscrowAccount { is_active: false, ..open_record() }));
}

#[test]
fn cancel_fails_where_the_vault_is_short() {
    let mut ctx = CancelEscrow { escrow: vault(99, open_record()), maker: wallet(1, 5) };
    let before = ctx;
    assert_eq!(cancel_escrow(&mut ctx, NOW), Err(Failure::InsufficientFunds));
    assert_eq!(ctx, before);
}

#[test]
fn refund_checks_its_rules_in_order() {
    let mut ctx = RefundAfterExpiry { escrow: EscrowVault::vacant(key(7), 0), maker: wallet(1, 0) };
    assert_eq!(refund_after_expiry(&mut ctx, 9_001), Err(rule(EscrowError::Unauthorized)));

    let mut ctx = RefundAfterExpiry { escrow: vault(100, open_record()), maker: wallet(2, 0) };
    assert_eq!(refund_after_expiry(&mut ctx, 9_001), Err(rule(EscrowError::Unauthorized)));

    let ended = EscrowAccount { is_active: false, ..open_record() };
    let mut ctx = RefundAfterExpiry { escrow: vault(0, ended), maker: wallet(1, 0) };
    assert_eq!(refund_after_expiry(&mut ctx, 10), Err(rule(EscrowError::NotActive)));

    let mut ctx = RefundAfterExpiry { escrow: vault(150, funded_record()), maker: wallet(1, 0) };
    let before = ctx;
    assert_eq!(refund_after_expiry(&mut ctx, 10), Err(rule(EscrowError::AlreadyFunded)));
    assert_eq!(refund_after_expiry(&mut ctx, 9_001), Err(rule(EscrowError::AlreadyFunded)));
    assert_eq!(ctx, before);

    let mut ctx = RefundAfterExpiry { escrow: vault(100, open_record()), maker: wallet(1, 0) };
    let before = ctx;
    assert_eq!(refund_after_expiry(&mut ctx, 9_000), Err(rule(EscrowError::NotExpired)));
    assert_eq!(ctx, before);
    assert!(refund_after_expiry(&mut ctx, 9_001).is_ok());
    assert_eq!(ctx.maker.lamports, 100);
    assert_eq!(ctx.escrow.lamports, 0);
}

#[test]
fn refund_fails_where_the_maker_balance_would_overflow() {
    let mut ctx =
        RefundAfterExpiry { escrow: vault(100, open_record()), maker: wallet(1, u64::MAX) };
    let before = ctx;
    assert_eq!(refund_after_expiry(&mut ctx, 9_001), Err(Failure::BalanceOverflow));
    assert_eq!(ctx, before);
}

#[test]
fn the_space_of_a_record_is_237_bytes() {
    assert_eq!(EscrowAccount::calculate_max_space(), 237);
    assert_eq!(EscrowAccount::calculate_max_space(), 8 + 32 + 33 + 8 + 16 + 3 + 8 + 1 + 128);
}

#[test]
fn every_error_has_its_message() {
    assert_eq!(EscrowError::InvalidAmount.message(), "Invalid zero amount");
    assert_eq!(EscrowError::InvalidExpiry.message(), "Invalid expiry timestamp");
    assert_eq!(EscrowError::NotActive.message(), "Escrow is not active");
    assert_eq!(EscrowError::AlreadyFunded.message(), "Escrow is already funded");
    assert_eq!(EscrowError::NotFunded.message(), "Escrow is not funded yet");
    assert_eq!(EscrowError::Unauthorized.message(), "Only taker can call this");
    assert_eq!(EscrowError::TakerNotSet.message(), "Taker not set");
    assert_eq!(EscrowError::NotExpired.message(), "Escrow has not expired yet");
    assert_eq!(EscrowError::EscrowExpired.message(), "Escrow has expired and cannot be funded");
}
