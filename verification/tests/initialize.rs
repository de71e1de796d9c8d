//! The initialization lifecycle: the one-shot configuration of a
//! deployment's registry.

use serum_safe::accounts::SafeState;
use serum_safe::error::ErrorKind;
use serum_safe::instruction::{SrmSafeInstruction, TransferRequest};
use serum_safe::process_instruction;

const PROGRAM_ID: u64 = 7;
const SRM_MINT: u64 = 21;
const VAULT: u64 = 31;
const SAFE_AUTHORITY: u64 = 11;
const NONCE: u64 = 5;

fn initialize_instruction(authority: u64, nonce: u64) -> SrmSafeInstruction {
    SrmSafeInstruction::Initialize {
        custodied_asset: SRM_MINT,
        authority,
        vault: VAULT,
        signer_nonce: nonce,
    }
}

#[test]
fn initialized() {
    // Given: a freshly created registry record owned by the program.
    let mut state = SafeState::new(PROGRAM_ID);

    // When: I initialize it.
    let result = process_instruction(
        &mut state,
        PROGRAM_ID,
        0,
        initialize_instruction(SAFE_AUTHORITY, NONCE),
    );

    // Then.
    assert_eq!(result, Ok(TransferRequest::NoExternalAction));
    assert_eq!(state.registry_owner, PROGRAM_ID);
    assert_eq!(state.registry.custodied_asset, SRM_MINT);
    assert_eq!(state.registry.authority, SAFE_AUTHORITY);
    assert_eq!(state.registry.total_outstanding_value, 0);
    assert_eq!(state.registry.initialized, true);
    assert_eq!(state.registry.signer_nonce, NONCE);
}

#[test]
fn initialized_already() {
    // Given: an initialized registry.
    let mut state = SafeState::new(PROGRAM_ID);
    process_instruction(
        &mut state,
        PROGRAM_ID,
        0,
        initialize_instruction(SAFE_AUTHORITY, NONCE),
    )
    .unwrap();

    // When: I try to initialize it a second time.
    let new_safe_authority: u64 = 12;
    match process_instruction(
        &mut state,
        PROGRAM_ID,
        0,
        initialize_instruction(new_safe_authority, NONCE),
    ) {
        Ok(_) => panic!("transaction should fail"),
        Err(e) => {
            // Then: it should error.
            assert_eq!(e, ErrorKind::AlreadyInitialized);
        }
    };
}

#[test]
fn initialized_not_rent_exempt() {
    // Rent exemption funds the registry's backing record in the external
    // account store; the store refuses the record's creation before any
    // instruction reaches the ledger, so there is nothing to observe here.
}

#[test]
fn initialized_program_not_safe_account_owner() {
    // Given: a registry record whose backing store entry is owned by
    // someone other than the program.
    let foreign_owner: u64 = 8;
    let mut state = SafeState::new(foreign_owner);

    // When: I try to initialize it.
    let result = process_instruction(
        &mut state,
        PROGRAM_ID,
        0,
        initialize_instruction(SAFE_AUTHORITY, NONCE),
    );

    // Then: the transition fails closed and sets nothing.
    assert_eq!(result, Err(ErrorKind::InvalidOwner));
    assert_eq!(state.registry.initialized, false);
    assert_eq!(state.registry.authority, 0);
}
