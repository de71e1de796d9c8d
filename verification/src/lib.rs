//! A custodial vesting/escrow ledger.
//!
//! The library is the state machine governing custody accounts: a singleton
//! [`SafeRegistry`](accounts::SafeRegistry) per deployment, one
//! [`VestingLedger`](accounts::VestingLedger) per depositor position, and one
//! [`Receipt`](accounts::Receipt) per minted locked-value unit.  Seven
//! access-control-gated transitions (initialize, deposit, mint, burn,
//! withdraw, slash, set-authority) mutate those records; every transition
//! either fully applies or fails with exactly one
//! [`ErrorKind`](error::ErrorKind) and leaves every record unchanged.
//!
//! External collaborators stay outside the library: the clock oracle hands
//! the dispatcher the current time as a plain value, the account store hands
//! it the records and the identities of the participants, and the asset
//! transfer primitive receives the [`TransferRequest`](instruction::TransferRequest)
//! a successful transition returns.  A host that performs the requested
//! transfer and finds it refused discards the mutated records and reports
//! [`ErrorKind::TransferFailed`](error::ErrorKind::TransferFailed), so that
//! no transition partially applies.

use vstd::prelude::*;

pub mod accounts;
pub mod burn;
pub mod deposit;
pub mod error;
pub mod initialize;
pub mod instruction;
pub mod laws;
pub mod mint;
pub mod set_authority;
pub mod slash;
pub mod totals;
pub mod withdraw;

use crate::accounts::{SafeState, StateView, state_wf};
use crate::error::ErrorKind;
use crate::instruction::{SrmSafeInstruction, TransferRequest};
use crate::totals::sum_amounts;

verus! {

/// What the host owes the dispatcher for one instruction, beyond a
/// well-formed state: the registry is co-created with its backing record and
/// initialized atomically, so every transition but `Initialize` observes an
/// initialized registry; a deposit's value must still be representable in
/// the registry's aggregate; a mint asks for at least one unit.
pub open spec fn step_allowed(s: StateView, instr: SrmSafeInstruction) -> bool {
    &&& !(instr is Initialize) ==> s.registry.initialized
    &&& (instr matches SrmSafeInstruction::DepositSrm { schedule, .. } ==>
            (crate::accounts::schedule_wf(schedule@) ==>
                s.registry.total_outstanding_value + sum_amounts(schedule@) <= u64::MAX))
    &&& (instr matches SrmSafeInstruction::MintLockedSrm { units, .. } ==> units >= 1)
}

/// The effect of one instruction on the abstract state: the new state and
/// the result handed back to the caller.  A record reference that resolves
/// to no record fails with `Decode`; everything else is decided by the
/// matching transition.
pub open spec fn step(s: StateView, program_id: u64, now: u64, instr: SrmSafeInstruction) -> (StateView, Result<
    TransferRequest,
    ErrorKind,
>) {
    match instr {
        SrmSafeInstruction::Initialize { custodied_asset, authority, vault, signer_nonce } => crate::initialize::initialize_step(
            s,
            program_id,
            custodied_asset,
            authority,
            vault,
            signer_nonce,
        ),
        SrmSafeInstruction::DepositSrm {
            beneficiary,
            schedule,
            source_balance,
            source_owner,
            signer,
            signer_signed,
        } => crate::deposit::deposit_step(
            s,
            beneficiary,
            schedule@,
            source_balance,
            source_owner,
            signer,
            signer_signed,
        ),
        SrmSafeInstruction::MintLockedSrm {
            ledger,
            units,
            destination,
            receipt_asset,
            signer,
            signer_signed,
        } => if ledger < s.ledgers.len() {
            crate::mint::mint_step(s, ledger, units, destination, receipt_asset, signer, signer_signed)
        } else {
            (s, Err(ErrorKind::Decode))
        },
        SrmSafeInstruction::BurnLockedSrm { receipt, holder_account, expected_asset, signer, signer_signed } => if receipt
            < s.receipts.len() {
            crate::burn::burn_step(s, receipt, holder_account, expected_asset, signer, signer_signed)
        } else {
            (s, Err(ErrorKind::Decode))
        },
        SrmSafeInstruction::WithdrawSrm { ledger, amount, destination, signer, signer_signed } => if ledger
            < s.ledgers.len() {
            crate::withdraw::withdraw_step(s, ledger, amount, destination, now, signer, signer_signed)
        } else {
            (s, Err(ErrorKind::Decode))
        },
        SrmSafeInstruction::Slash { ledger, amount, signer, signer_signed } => if ledger < s.ledgers.len() {
            crate::slash::slash_step(s, ledger, amount, signer, signer_signed)
        } else {
            (s, Err(ErrorKind::Decode))
        },
        SrmSafeInstruction::SetAuthority { new_authority, signer, signer_signed } => crate::set_authority::set_authority_step(
            s,
            new_authority,
            signer,
            signer_signed,
        ),
    }
}

/// Decodes an instruction, resolves the records it names and routes it to
/// exactly one transition handler.  The dispatcher performs no business
/// logic: the returned result and the new state are exactly those of
/// [`step`], and the one-shot latches only ever move from unset to set.
pub fn process_instruction(
    state: &mut SafeState,
    program_id: u64,
    now: u64,
    instr: SrmSafeInstruction,
) -> (r: Result<TransferRequest, ErrorKind>)
    requires
        state_wf(old(state)@),
        step_allowed(old(state)@, instr),
    ensures
        final(state)@ == step(old(state)@, program_id, now, instr).0,
        r == step(old(state)@, program_id, now, instr).1,
        state_wf(final(state)@),
        old(state)@.registry.initialized ==> final(state)@.registry.initialized,
        forall|k: int|
            0 <= k < old(state)@.receipts.len() && old(state)@.receipts[k].burned ==> final(state)@.receipts[k].burned,
{
    let r = match instr {
        SrmSafeInstruction::Initialize { custodied_asset, authority, vault, signer_nonce } => crate::initialize::handler(
            state,
            program_id,
            custodied_asset,
            authority,
            vault,
            signer_nonce,
        ),
        SrmSafeInstruction::DepositSrm {
            beneficiary,
            schedule,
            source_balance,
            source_owner,
            signer,
            signer_signed,
        } => crate::deposit::handler(
            state,
            beneficiary,
            schedule,
            source_balance,
            source_owner,
            signer,
            signer_signed,
        ),
        SrmSafeInstruction::MintLockedSrm {
            ledger,
            units,
            destination,
            receipt_asset,
            signer,
            signer_signed,
        } => if ledger < state.ledgers.len() {
            crate::mint::handler(state, ledger, units, destination, receipt_asset, signer, signer_signed)
        } else {
            Err(ErrorKind::Decode)
        },
        SrmSafeInstruction::BurnLockedSrm {
            receipt,
            holder_account,
            expected_asset,
            signer,
            signer_signed,
        } => if receipt < state.receipts.len() {
            crate::burn::handler(state, receipt, holder_account, expected_asset, signer, signer_signed)
        } else {
            Err(ErrorKind::Decode)
        },
        SrmSafeInstruction::WithdrawSrm { ledger, amount, destination, signer, signer_signed } => if ledger
            < state.ledgers.len() {
            crate::withdraw::handler(state, ledger, amount, destination, now, signer, signer_signed)
        } else {
            Err(ErrorKind::Decode)
        },
        SrmSafeInstruction::Slash { ledger, amount, signer, signer_signed } => if ledger
            < state.ledgers.len() {
            crate::slash::handler(state, ledger, amount, signer, signer_signed)
        } else {
            Err(ErrorKind::Decode)
        },
        SrmSafeInstruction::SetAuthority { new_authority, signer, signer_signed } => crate::set_authority::handler(
            state,
            new_authority,
            signer,
            signer_signed,
        ),
    };
    r
}

} // verus!
