//! End-to-end scenarios over the transition handlers, one deployment per
//! test, driven through the dispatcher.

use serum_safe::accounts::{SafeState, Tranche};
use serum_safe::error::ErrorKind;
use serum_safe::instruction::{deposit, SrmSafeInstruction, TransferRequest};
use serum_safe::process_instruction;

const PROGRAM: u64 = 1;
const AUTHORITY: u64 = 2;
const ASSET: u64 = 3;
const VAULT: u64 = 4;
const NONCE: u64 = 9;
const BENEFICIARY: u64 = 5;
const SOURCE: u64 = 6;
const SOURCE_OWNER: u64 = 7;
const DESTINATION: u64 = 8;
const HOLDER: u64 = 10;
const RECEIPT_ASSET: u64 = 11;
const STRANGER: u64 = 12;

fn fresh_safe() -> SafeState {
    let mut state = SafeState::new(PROGRAM);
    process_instruction(
        &mut state,
        PROGRAM,
        0,
        SrmSafeInstruction::Initialize {
            custodied_asset: ASSET,
            authority: AUTHORITY,
            vault: VAULT,
            signer_nonce: NONCE,
        },
    )
    .unwrap();
    state
}

fn two_tranche_schedule() -> Vec<Tranche> {
    vec![
        Tranche { unlock_time: 10, amount: 400 },
        Tranche { unlock_time: 20, amount: 600 },
    ]
}

fn deposit_two_tranches(state: &mut SafeState) {
    let r = process_instruction(
        state,
        PROGRAM,
        0,
        deposit(BENEFICIARY, two_tranche_schedule(), SOURCE, SOURCE_OWNER, SOURCE_OWNER, true),
    );
    assert_eq!(r, Ok(TransferRequest::Transfer { from: SOURCE, to: VAULT, amount: 1000 }));
}

fn withdraw_instruction(amount: u64, signer: u64) -> SrmSafeInstruction {
    SrmSafeInstruction::WithdrawSrm {
        ledger: 0,
        amount,
        destination: DESTINATION,
        signer,
        signer_signed: true,
    }
}

fn mint_one(state: &mut SafeState, now: u64) {
    let r = process_instruction(
        state,
        PROGRAM,
        now,
        SrmSafeInstruction::MintLockedSrm {
            ledger: 0,
            units: 1,
            destination: HOLDER,
            receipt_asset: RECEIPT_ASSET,
            signer: BENEFICIARY,
            signer_signed: true,
        },
    );
    assert_eq!(
        r,
        Ok(TransferRequest::MintUnits { asset: RECEIPT_ASSET, destination: HOLDER, count: 1 })
    );
}

fn burn_instruction(signer: u64, holder_account: u64, expected_asset: u64) -> SrmSafeInstruction {
    SrmSafeInstruction::BurnLockedSrm {
        receipt: 0,
        holder_account,
        expected_asset,
        signer,
        signer_signed: true,
    }
}

#[test]
fn deposit_then_withdraw_first_tranche() {
    // Scenario: deposit 1000 under [(10, 400), (20, 600)]; at now = 10 the
    // first tranche is withdrawable in full and not one unit more.
    let mut state = fresh_safe();
    deposit_two_tranches(&mut state);
    assert_eq!(state.registry.total_outstanding_value, 1000);
    assert_eq!(state.ledgers[0].total_deposited, 1000);

    let r = process_instruction(&mut state, PROGRAM, 10, withdraw_instruction(400, BENEFICIARY));
    assert_eq!(r, Ok(TransferRequest::Transfer { from: VAULT, to: DESTINATION, amount: 400 }));
    assert_eq!(state.ledgers[0].withdrawn, 400);
    assert_eq!(state.registry.total_outstanding_value, 600);

    let r = process_instruction(&mut state, PROGRAM, 10, withdraw_instruction(1, BENEFICIARY));
    assert_eq!(r, Err(ErrorKind::InsufficientUnlockedBalance));
    assert_eq!(state.ledgers[0].withdrawn, 400);
}

#[test]
fn outstanding_receipt_blocks_one_unit() {
    // Scenario: after withdrawing the first tranche, mint one receipt while
    // the second tranche is still locked; once it unlocks, only 599 of its
    // 600 are withdrawable until the receipt is burned.
    let mut state = fresh_safe();
    deposit_two_tranches(&mut state);
    process_instruction(&mut state, PROGRAM, 10, withdraw_instruction(400, BENEFICIARY)).unwrap();
    mint_one(&mut state, 10);
    assert_eq!(state.ledgers[0].locked_claim_amount, 1);
    assert_eq!(state.ledgers[0].outstanding_receipt_count, 1);

    let r = process_instruction(&mut state, PROGRAM, 20, withdraw_instruction(600, BENEFICIARY));
    assert_eq!(r, Err(ErrorKind::InsufficientUnlockedBalance));

    let r = process_instruction(&mut state, PROGRAM, 20, withdraw_instruction(599, BENEFICIARY));
    assert_eq!(r, Ok(TransferRequest::Transfer { from: VAULT, to: DESTINATION, amount: 599 }));
    assert_eq!(state.ledgers[0].withdrawn, 999);
}

#[test]
fn burn_restores_withdrawable_balance() {
    // Scenario: a stranger cannot burn the receipt; the beneficiary can,
    // and the burn restores the one claimed unit to the withdrawable
    // balance.
    let mut state = fresh_safe();
    deposit_two_tranches(&mut state);
    process_instruction(&mut state, PROGRAM, 10, withdraw_instruction(400, BENEFICIARY)).unwrap();
    mint_one(&mut state, 10);
    process_instruction(&mut state, PROGRAM, 20, withdraw_instruction(599, BENEFICIARY)).unwrap();

    let r = process_instruction(
        &mut state,
        PROGRAM,
        20,
        burn_instruction(STRANGER, HOLDER, RECEIPT_ASSET),
    );
    assert_eq!(r, Err(ErrorKind::Unauthorized));
    assert_eq!(state.receipts[0].burned, false);

    let r = process_instruction(
        &mut state,
        PROGRAM,
        20,
        burn_instruction(BENEFICIARY, HOLDER, RECEIPT_ASSET),
    );
    assert_eq!(r, Ok(TransferRequest::BurnUnit { asset: RECEIPT_ASSET, source: HOLDER }));
    assert_eq!(state.receipts[0].burned, true);
    assert_eq!(state.ledgers[0].locked_claim_amount, 0);

    let r = process_instruction(&mut state, PROGRAM, 20, withdraw_instruction(1, BENEFICIARY));
    assert_eq!(r, Ok(TransferRequest::Transfer { from: VAULT, to: DESTINATION, amount: 1 }));
    assert_eq!(state.ledgers[0].withdrawn, 1000);
}

#[test]
fn slash_forfeits_future_withdrawals() {
    // Scenario: only the registry's authority can slash, and a 200-unit
    // slash drops the maximum withdrawable amount by 200.
    let mut state = fresh_safe();
    deposit_two_tranches(&mut state);
    assert_eq!(state.ledgers[0].withdrawn, 0);
    assert_eq!(state.ledgers[0].locked_claim_amount, 0);

    let slash_by = |signer: u64| SrmSafeInstruction::Slash {
        ledger: 0,
        amount: 200,
        signer,
        signer_signed: true,
    };
    let r = process_instruction(&mut state, PROGRAM, 20, slash_by(BENEFICIARY));
    assert_eq!(r, Err(ErrorKind::Unauthorized));
    assert_eq!(state.ledgers[0].withdrawn, 0);

    let r = process_instruction(&mut state, PROGRAM, 20, slash_by(AUTHORITY));
    assert_eq!(r, Ok(TransferRequest::NoExternalAction));
    assert_eq!(state.ledgers[0].withdrawn, 200);
    assert_eq!(state.registry.total_outstanding_value, 800);

    let r = process_instruction(&mut state, PROGRAM, 20, withdraw_instruction(801, BENEFICIARY));
    assert_eq!(r, Err(ErrorKind::InsufficientUnlockedBalance));
    let r = process_instruction(&mut state, PROGRAM, 20, withdraw_instruction(800, BENEFICIARY));
    assert_eq!(r, Ok(TransferRequest::Transfer { from: VAULT, to: DESTINATION, amount: 800 }));
}

#[test]
fn double_initialize_keeps_first_configuration() {
    // Scenario: the second initialize of the same registry fails and the
    // first call's configuration survives untouched.
    let mut state = fresh_safe();
    let r = process_instruction(
        &mut state,
        PROGRAM,
        0,
        SrmSafeInstruction::Initialize {
            custodied_asset: 77,
            authority: STRANGER,
            vault: 78,
            signer_nonce: 79,
        },
    );
    assert_eq!(r, Err(ErrorKind::AlreadyInitialized));
    assert_eq!(state.registry.authority, AUTHORITY);
    assert_eq!(state.registry.custodied_asset, ASSET);
    assert_eq!(state.registry.vault, VAULT);
    assert_eq!(state.registry.signer_nonce, NONCE);
    assert_eq!(state.registry.initialized, true);
}

#[test]
fn mint_and_burn_conserve_claimed_amount() {
    // Three units minted and one burned leave a claim of exactly two.
    let mut state = fresh_safe();
    deposit_two_tranches(&mut state);
    let r = process_instruction(
        &mut state,
        PROGRAM,
        0,
        SrmSafeInstruction::MintLockedSrm {
            ledger: 0,
            units: 3,
            destination: HOLDER,
            receipt_asset: RECEIPT_ASSET,
            signer: BENEFICIARY,
            signer_signed: true,
        },
    );
    assert_eq!(
        r,
        Ok(TransferRequest::MintUnits { asset: RECEIPT_ASSET, destination: HOLDER, count: 3 })
    );
    assert_eq!(state.receipts.len(), 3);
    assert_eq!(state.ledgers[0].locked_claim_amount, 3);
    assert_eq!(state.ledgers[0].outstanding_receipt_count, 3);
    for receipt in state.receipts.iter() {
        assert_eq!(receipt.originating_ledger, 0);
        assert_eq!(receipt.asset_identity, RECEIPT_ASSET);
        assert_eq!(receipt.holder_account, HOLDER);
        assert_eq!(receipt.initialized, true);
        assert_eq!(receipt.burned, false);
    }

    process_instruction(
        &mut state,
        PROGRAM,
        0,
        burn_instruction(BENEFICIARY, HOLDER, RECEIPT_ASSET),
    )
    .unwrap();
    assert_eq!(state.ledgers[0].locked_claim_amount, 2);
    assert_eq!(state.ledgers[0].outstanding_receipt_count, 2);
    assert_eq!(state.receipts.len(), 3);
}

#[test]
fn burned_receipt_stays_burned() {
    // The burn latch is one-shot: a second burn of the same receipt fails
    // with AlreadyBurned whoever signs it.
    let mut state = fresh_safe();
    deposit_two_tranches(&mut state);
    mint_one(&mut state, 0);
    process_instruction(
        &mut state,
        PROGRAM,
        0,
        burn_instruction(BENEFICIARY, HOLDER, RECEIPT_ASSET),
    )
    .unwrap();
    assert_eq!(state.receipts[0].burned, true);

    let r = process_instruction(
        &mut state,
        PROGRAM,
        0,
        burn_instruction(BENEFICIARY, HOLDER, RECEIPT_ASSET),
    );
    assert_eq!(r, Err(ErrorKind::AlreadyBurned));
    assert_eq!(state.receipts[0].burned, true);
}

#[test]
fn burn_checks_holder_and_asset() {
    // A burn presented under the wrong holder account or the wrong
    // receipt asset fails closed.
    let mut state = fresh_safe();
    deposit_two_tranches(&mut state);
    mint_one(&mut state, 0);

    let r = process_instruction(
        &mut state,
        PROGRAM,
        0,
        burn_instruction(BENEFICIARY, STRANGER, RECEIPT_ASSET),
    );
    assert_eq!(r, Err(ErrorKind::UnauthorizedReceipt));

    let r = process_instruction(&mut state, PROGRAM, 0, burn_instruction(BENEFICIARY, HOLDER, ASSET));
    assert_eq!(r, Err(ErrorKind::WrongAssetMint));
    assert_eq!(state.receipts[0].burned, false);
}

#[test]
fn mint_is_limited_to_unvested_unclaimed_value() {
    // A mint may only claim value that is still locked and unclaimed.
    let mut state = fresh_safe();
    deposit_two_tranches(&mut state);
    process_instruction(&mut state, PROGRAM, 10, withdraw_instruction(400, BENEFICIARY)).unwrap();

    let mint = |units: u64, signer: u64| SrmSafeInstruction::MintLockedSrm {
        ledger: 0,
        units,
        destination: HOLDER,
        receipt_asset: RECEIPT_ASSET,
        signer,
        signer_signed: true,
    };
    let r = process_instruction(&mut state, PROGRAM, 10, mint(601, BENEFICIARY));
    assert_eq!(r, Err(ErrorKind::InsufficientUnvestedBalance));
    assert_eq!(state.receipts.len(), 0);

    let r = process_instruction(&mut state, PROGRAM, 10, mint(600, STRANGER));
    assert_eq!(r, Err(ErrorKind::Unauthorized));

    let r = process_instruction(&mut state, PROGRAM, 10, mint(600, BENEFICIARY));
    assert_eq!(
        r,
        Ok(TransferRequest::MintUnits { asset: RECEIPT_ASSET, destination: HOLDER, count: 600 })
    );
    assert_eq!(state.ledgers[0].locked_claim_amount, 600);
}

#[test]
fn slash_is_limited_to_remaining_value() {
    // A slash may only forfeit value not yet withdrawn or claimed.
    let mut state = fresh_safe();
    deposit_two_tranches(&mut state);
    mint_one(&mut state, 0);
    let r = process_instruction(
        &mut state,
        PROGRAM,
        0,
        SrmSafeInstruction::Slash { ledger: 0, amount: 1000, signer: AUTHORITY, signer_signed: true },
    );
    assert_eq!(r, Err(ErrorKind::InsufficientBalance));
    let r = process_instruction(
        &mut state,
        PROGRAM,
        0,
        SrmSafeInstruction::Slash { ledger: 0, amount: 999, signer: AUTHORITY, signer_signed: true },
    );
    assert_eq!(r, Ok(TransferRequest::NoExternalAction));
    assert_eq!(state.ledgers[0].withdrawn, 999);
}

#[test]
fn deposit_rejects_invalid_schedules() {
    // The schedule must be non-empty with strictly increasing unlock
    // times, and the source balance's controller must sign.
    let mut state = fresh_safe();

    let r = process_instruction(
        &mut state,
        PROGRAM,
        0,
        deposit(BENEFICIARY, Vec::new(), SOURCE, SOURCE_OWNER, SOURCE_OWNER, true),
    );
    assert_eq!(r, Err(ErrorKind::InvalidSchedule));

    let equal_times = vec![
        Tranche { unlock_time: 10, amount: 400 },
        Tranche { unlock_time: 10, amount: 600 },
    ];
    let r = process_instruction(
        &mut state,
        PROGRAM,
        0,
        deposit(BENEFICIARY, equal_times, SOURCE, SOURCE_OWNER, SOURCE_OWNER, true),
    );
    assert_eq!(r, Err(ErrorKind::InvalidSchedule));

    let r = process_instruction(
        &mut state,
        PROGRAM,
        0,
        deposit(BENEFICIARY, two_tranche_schedule(), SOURCE, SOURCE_OWNER, STRANGER, true),
    );
    assert_eq!(r, Err(ErrorKind::Unauthorized));

    let r = process_instruction(
        &mut state,
        PROGRAM,
        0,
        deposit(BENEFICIARY, two_tranche_schedule(), SOURCE, SOURCE_OWNER, SOURCE_OWNER, false),
    );
    assert_eq!(r, Err(ErrorKind::Unauthorized));
    assert_eq!(state.ledgers.len(), 0);
}

#[test]
fn dangling_record_references_fail_decode() {
    // An instruction naming a record that does not exist is malformed.
    let mut state = fresh_safe();
    let r = process_instruction(&mut state, PROGRAM, 0, withdraw_instruction(1, BENEFICIARY));
    assert_eq!(r, Err(ErrorKind::Decode));
    let r = process_instruction(
        &mut state,
        PROGRAM,
        0,
        burn_instruction(BENEFICIARY, HOLDER, RECEIPT_ASSET),
    );
    assert_eq!(r, Err(ErrorKind::Decode));
}

#[test]
fn set_authority_hands_the_registry_over() {
    // Only the current authority can hand authority over; afterwards the
    // old authority has no power left.
    let mut state = fresh_safe();
    deposit_two_tranches(&mut state);
    let new_authority: u64 = 55;

    let r = process_instruction(
        &mut state,
        PROGRAM,
        0,
        SrmSafeInstruction::SetAuthority { new_authority, signer: STRANGER, signer_signed: true },
    );
    assert_eq!(r, Err(ErrorKind::Unauthorized));

    let r = process_instruction(
        &mut state,
        PROGRAM,
        0,
        SrmSafeInstruction::SetAuthority { new_authority, signer: AUTHORITY, signer_signed: true },
    );
    assert_eq!(r, Ok(TransferRequest::NoExternalAction));
    assert_eq!(state.registry.authority, new_authority);

    let r = process_instruction(
        &mut state,
        PROGRAM,
        0,
        SrmSafeInstruction::Slash { ledger: 0, amount: 1, signer: AUTHORITY, signer_signed: true },
    );
    assert_eq!(r, Err(ErrorKind::Unauthorized));
    let r = process_instruction(
        &mut state,
        PROGRAM,
        0,
        SrmSafeInstruction::Slash { ledger: 0, amount: 1, signer: new_authority, signer_signed: true },
    );
    assert_eq!(r, Ok(TransferRequest::NoExternalAction));
}

#[test]
fn deposit_builder_carries_every_field() {
    let instr = deposit(BENEFICIARY, two_tranche_schedule(), SOURCE, SOURCE_OWNER, SOURCE_OWNER, true);
    match instr {
        SrmSafeInstruction::DepositSrm {
            beneficiary,
            schedule,
            source_balance,
            source_owner,
            signer,
            signer_signed,
        } => {
            assert_eq!(beneficiary, BENEFICIARY);
            assert_eq!(schedule, two_tranche_schedule());
            assert_eq!(source_balance, SOURCE);
            assert_eq!(source_owner, SOURCE_OWNER);
            assert_eq!(signer, SOURCE_OWNER);
            assert_eq!(signer_signed, true);
        }
        _ => panic!("wrong instruction kind"),
    }
}

#[test]
fn access_control_phases_are_pure() {
    // The access-control phase of a handler can be consulted on its own
    // and mutates nothing.
    let mut state = fresh_safe();
    deposit_two_tranches(&mut state);

    let r = serum_safe::deposit::access_control(&Vec::new(), SOURCE_OWNER, SOURCE_OWNER, true);
    assert_eq!(r, Err(ErrorKind::InvalidSchedule));
    let r = serum_safe::deposit::access_control(
        &two_tranche_schedule(),
        SOURCE_OWNER,
        SOURCE_OWNER,
        true,
    );
    assert_eq!(r, Ok(()));

    let r = serum_safe::initialize::access_control(&state, PROGRAM);
    assert_eq!(r, Err(ErrorKind::AlreadyInitialized));
    let r = serum_safe::withdraw::access_control(&state, 0, 400, 10, BENEFICIARY, true);
    assert_eq!(r, Ok(()));
    let r = serum_safe::withdraw::access_control(&state, 0, 401, 10, BENEFICIARY, true);
    assert_eq!(r, Err(ErrorKind::InsufficientUnlockedBalance));
    let r = serum_safe::mint::access_control(&state, 0, 1001, BENEFICIARY, true);
    assert_eq!(r, Err(ErrorKind::InsufficientUnvestedBalance));
    let r = serum_safe::slash::access_control(&state, 0, 1000, AUTHORITY, true);
    assert_eq!(r, Ok(()));
    let r = serum_safe::set_authority::access_control(&state, AUTHORITY, false);
    assert_eq!(r, Err(ErrorKind::Unauthorized));
    assert_eq!(state.ledgers[0].withdrawn, 0);
}

#[test]
fn unlocked_balance_follows_the_clock() {
    // The unlocked amount is the exact sum of the tranches whose unlock
    // time has passed.
    let mut state = fresh_safe();
    deposit_two_tranches(&mut state);
    let ledger = &state.ledgers[0];
    assert_eq!(serum_safe::withdraw::unlocked_balance(ledger, 9), 0);
    assert_eq!(serum_safe::withdraw::unlocked_balance(ledger, 10), 400);
    assert_eq!(serum_safe::withdraw::unlocked_balance(ledger, 19), 400);
    assert_eq!(serum_safe::withdraw::unlocked_balance(ledger, 20), 1000);
    assert_eq!(serum_safe::withdraw::unlocked_balance(ledger, u64::MAX), 1000);
}
