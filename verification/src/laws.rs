//! The deployment-wide laws: solvency, latch monotonicity, mint/burn
//! conservation and unlock correctness, stated over the abstract transition
//! relation and proved for every sequence of transitions.

use vstd::prelude::*;

use crate::accounts::{StateView, ledger_wf, state_wf};
use crate::error::ErrorKind;
use crate::instruction::SrmSafeInstruction;
use crate::totals::{
    burned_count, lemma_live_minted_burned, lemma_sum_withdrawn_locked_le, minted_count,
    sum_deposited, sum_outstanding, sum_withdrawn_locked, unlocked_amount,
};
use crate::{step, step_allowed};

verus! {

/// Solvency: a well-formed deployment never promises more value than it
/// custodies.  What was withdrawn plus what outstanding receipts claim
/// never exceeds what was deposited, and the registry's aggregate equals
/// the ledgers' outstanding value — the balance the vault is owed, since
/// the host performs exactly the transfers the transitions request.
pub proof fn lemma_solvency(s: StateView)
    requires
        state_wf(s),
    ensures
        sum_withdrawn_locked(s.ledgers) <= sum_deposited(s.ledgers),
        s.registry.total_outstanding_value as int == sum_outstanding(s.ledgers),
{
    assert forall|i: int|
        0 <= i < s.ledgers.len() implies (#[trigger] s.ledgers[i].withdrawn)
        + s.ledgers[i].locked_claim_amount <= s.ledgers[i].total_deposited by {
        assert(ledger_wf(s.ledgers[i]));
    }
    lemma_sum_withdrawn_locked_le(s.ledgers);
}

/// Mint/burn conservation: at any time, a well-formed ledger's claimed
/// amount equals the number of receipts ever minted against it minus the
/// number burned, each receipt worth one unit.
pub proof fn lemma_mint_burn_conservation(s: StateView)
    requires
        state_wf(s),
    ensures
        forall|j: int|
            0 <= j < s.ledgers.len() ==> (#[trigger] s.ledgers[j].locked_claim_amount) as int
                == minted_count(s.receipts, j) - burned_count(s.receipts, j),
{
    assert forall|j: int|
        0 <= j < s.ledgers.len() implies (#[trigger] s.ledgers[j].locked_claim_amount) as int
        == minted_count(s.receipts, j) - burned_count(s.receipts, j) by {
        assert(ledger_wf(s.ledgers[j]));
        lemma_live_minted_burned(s.receipts, j);
    }
}

/// Burning a receipt twice fails: once a burn succeeds, a second burn of
/// the same receipt, however well authorized by the originating ledger's
/// beneficiary, fails with `AlreadyBurned` and changes nothing.
pub proof fn lemma_burn_twice_fails(
    s: StateView,
    receipt_index: usize,
    holder_account: u64,
    expected_asset: u64,
    signer: u64,
    holder_account2: u64,
    expected_asset2: u64,
    signer2: u64,
)
    requires
        (receipt_index as int) < s.receipts.len(),
        crate::burn::burn_step(s, receipt_index, holder_account, expected_asset, signer, true).1
            is Ok,
        signer2 == crate::burn::burn_step(
            s,
            receipt_index,
            holder_account,
            expected_asset,
            signer,
            true,
        ).0.ledgers[s.receipts[receipt_index as int].originating_ledger as int].beneficiary,
    ensures
        crate::burn::burn_step(
            crate::burn::burn_step(s, receipt_index, holder_account, expected_asset, signer, true).0,
            receipt_index,
            holder_account2,
            expected_asset2,
            signer2,
            true,
        ).1 == Err::<crate::instruction::TransferRequest, ErrorKind>(ErrorKind::AlreadyBurned),
        crate::burn::burn_step(
            crate::burn::burn_step(s, receipt_index, holder_account, expected_asset, signer, true).0,
            receipt_index,
            holder_account2,
            expected_asset2,
            signer2,
            true,
        ).0 == crate::burn::burn_step(s, receipt_index, holder_account, expected_asset, signer, true).0,
{
}

/// Unlock correctness: withdrawing more than the unlocked amount minus
/// what is already withdrawn or claimed fails with
/// `InsufficientUnlockedBalance` and changes nothing; withdrawing exactly
/// the unlocked-minus-claimed remainder succeeds.
pub proof fn lemma_unlock_correctness(
    s: StateView,
    ledger_index: usize,
    amount: u64,
    destination: u64,
    now: u64,
)
    requires
        (ledger_index as int) < s.ledgers.len(),
    ensures
        amount + s.ledgers[ledger_index as int].withdrawn + s.ledgers[ledger_index as int].locked_claim_amount
            > unlocked_amount(s.ledgers[ledger_index as int].schedule, now) ==> {
            let out = crate::withdraw::withdraw_step(
                s,
                ledger_index,
                amount,
                destination,
                now,
                s.ledgers[ledger_index as int].beneficiary,
                true,
            );
            out.1 == Err::<crate::instruction::TransferRequest, ErrorKind>(
                ErrorKind::InsufficientUnlockedBalance,
            ) && out.0 == s
        },
        amount == unlocked_amount(s.ledgers[ledger_index as int].schedule, now)
            - s.ledgers[ledger_index as int].withdrawn
            - s.ledgers[ledger_index as int].locked_claim_amount ==> crate::withdraw::withdraw_step(
            s,
            ledger_index,
            amount,
            destination,
            now,
            s.ledgers[ledger_index as int].beneficiary,
            true,
        ).1 is Ok,
{
}

/// One allowed transition from a well-formed state leaves the state well
/// formed, whatever its instruction and whatever its outcome.
pub proof fn lemma_step_preserves_wf(s: StateView, program_id: u64, now: u64, instr: SrmSafeInstruction)
    requires
        state_wf(s),
        step_allowed(s, instr),
    ensures
        state_wf(step(s, program_id, now, instr).0),
{
    match instr {
        SrmSafeInstruction::Initialize { custodied_asset, authority, vault, signer_nonce } => {
            crate::initialize::lemma_initialize_preserves_wf(
                s,
                program_id,
                custodied_asset,
                authority,
                vault,
                signer_nonce,
            );
        },
        SrmSafeInstruction::DepositSrm {
            beneficiary,
            schedule,
            source_balance,
            source_owner,
            signer,
            signer_signed,
        } => {
            crate::deposit::lemma_deposit_preserves_wf(
                s,
                beneficiary,
                schedule@,
                source_balance,
                source_owner,
                signer,
                signer_signed,
            );
        },
        SrmSafeInstruction::MintLockedSrm {
            ledger,
            units,
            destination,
            receipt_asset,
            signer,
            signer_signed,
        } => {
            if ledger < s.ledgers.len() {
                crate::mint::lemma_mint_preserves_wf(
                    s,
                    ledger,
                    units,
                    destination,
                    receipt_asset,
                    signer,
                    signer_signed,
                );
            }
        },
        SrmSafeInstruction::BurnLockedSrm {
            receipt,
            holder_account,
            expected_asset,
            signer,
            signer_signed,
        } => {
            if receipt < s.receipts.len() {
                crate::burn::lemma_burn_preserves_wf(
                    s,
                    receipt,
                    holder_account,
                    expected_asset,
                    signer,
                    signer_signed,
                );
            }
        },
        SrmSafeInstruction::WithdrawSrm { ledger, amount, destination, signer, signer_signed } => {
            if ledger < s.ledgers.len() {
                crate::withdraw::lemma_withdraw_preserves_wf(
                    s,
                    ledger,
                    amount,
                    destination,
                    now,
                    signer,
                    signer_signed,
                );
            }
        },
        SrmSafeInstruction::Slash { ledger, amount, signer, signer_signed } => {
            if ledger < s.ledgers.len() {
                crate::slash::lemma_slash_preserves_wf(s, ledger, amount, signer, signer_signed);
            }
        },
        SrmSafeInstruction::SetAuthority { new_authority, signer, signer_signed } => {
            crate::set_authority::lemma_set_authority_preserves_wf(
                s,
                new_authority,
                signer,
                signer_signed,
            );
        },
    }
}

/// Monotonic latches, one transition at a time: records are never
/// destroyed, `initialized` never falls back to unset, and a burned
/// receipt stays burned.
pub proof fn lemma_step_latches(s: StateView, program_id: u64, now: u64, instr: SrmSafeInstruction)
    ensures
        step(s, program_id, now, instr).0.receipts.len() >= s.receipts.len(),
        s.registry.initialized ==> step(s, program_id, now, instr).0.registry.initialized,
        forall|k: int|
            0 <= k < s.receipts.len() && s.receipts[k].burned ==> step(
                s,
                program_id,
                now,
                instr,
            ).0.receipts[k].burned,
        forall|k: int|
            0 <= k < s.receipts.len() && s.receipts[k].initialized ==> step(
                s,
                program_id,
                now,
                instr,
            ).0.receipts[k].initialized,
{
}

/// The state a sequence of timed instructions leads to, each applied by
/// [`step`] with its own clock reading.
pub open spec fn apply_trace(s: StateView, program_id: u64, trace: Seq<(u64, SrmSafeInstruction)>) -> StateView
    decreases trace.len(),
{
    if trace.len() == 0 {
        s
    } else {
        apply_trace(
            step(s, program_id, trace.first().0, trace.first().1).0,
            program_id,
            trace.drop_first(),
        )
    }
}

/// Whether the host's obligations of [`step_allowed`] hold at every point
/// of a trace.
pub open spec fn trace_allowed(s: StateView, program_id: u64, trace: Seq<(u64, SrmSafeInstruction)>) -> bool
    decreases trace.len(),
{
    trace.len() == 0 || (step_allowed(s, trace.first().1) && trace_allowed(
        step(s, program_id, trace.first().0, trace.first().1).0,
        program_id,
        trace.drop_first(),
    ))
}

/// Every allowed sequence of transitions preserves well-formedness.
pub proof fn lemma_trace_preserves_wf(s: StateView, program_id: u64, trace: Seq<(u64, SrmSafeInstruction)>)
    requires
        state_wf(s),
        trace_allowed(s, program_id, trace),
    ensures
        state_wf(apply_trace(s, program_id, trace)),
    decreases trace.len(),
{
    if trace.len() > 0 {
        lemma_step_preserves_wf(s, program_id, trace.first().0, trace.first().1);
        lemma_trace_preserves_wf(
            step(s, program_id, trace.first().0, trace.first().1).0,
            program_id,
            trace.drop_first(),
        );
    }
}

/// Solvency for all sequences of transitions: from a well-formed state,
/// every allowed trace ends in a state whose ledgers' withdrawn-plus-claimed
/// total never exceeds their deposits, with the registry's aggregate still
/// mirroring the outstanding value the vault is owed.
pub proof fn lemma_trace_solvency(s: StateView, program_id: u64, trace: Seq<(u64, SrmSafeInstruction)>)
    requires
        state_wf(s),
        trace_allowed(s, program_id, trace),
    ensures
        sum_withdrawn_locked(apply_trace(s, program_id, trace).ledgers) <= sum_deposited(
            apply_trace(s, program_id, trace).ledgers,
        ),
        apply_trace(s, program_id, trace).registry.total_outstanding_value as int
            == sum_outstanding(apply_trace(s, program_id, trace).ledgers),
{
    lemma_trace_preserves_wf(s, program_id, trace);
    lemma_solvency(apply_trace(s, program_id, trace));
}

/// Monotonic latches for all sequences of transitions: once `initialized`
/// or a receipt's `burned` latch is set, no later transition unsets it.
pub proof fn lemma_trace_latches(s: StateView, program_id: u64, trace: Seq<(u64, SrmSafeInstruction)>)
    ensures
        apply_trace(s, program_id, trace).receipts.len() >= s.receipts.len(),
        s.registry.initialized ==> apply_trace(s, program_id, trace).registry.initialized,
        forall|k: int|
            0 <= k < s.receipts.len() && s.receipts[k].burned ==> apply_trace(
                s,
                program_id,
                trace,
            ).receipts[k].burned,
        forall|k: int|
            0 <= k < s.receipts.len() && s.receipts[k].initialized ==> apply_trace(
                s,
                program_id,
                trace,
            ).receipts[k].initialized,
    decreases trace.len(),
{
    if trace.len() > 0 {
        let s1 = step(s, program_id, trace.first().0, trace.first().1).0;
        lemma_step_latches(s, program_id, trace.first().0, trace.first().1);
        lemma_trace_latches(s1, program_id, trace.drop_first());
    }
}

/// Mint/burn conservation for all sequences of transitions: from a
/// well-formed state, every allowed trace ends in a state where each
/// ledger's claimed amount equals its receipts minted minus its receipts
/// burned.
pub proof fn lemma_trace_conservation(s: StateView, program_id: u64, trace: Seq<(u64, SrmSafeInstruction)>)
    requires
        state_wf(s),
        trace_allowed(s, program_id, trace),
    ensures
        forall|j: int|
            0 <= j < apply_trace(s, program_id, trace).ledgers.len() ==> (#[trigger] apply_trace(
                s,
                program_id,
                trace,
            ).ledgers[j].locked_claim_amount) as int == minted_count(
                apply_trace(s, program_id, trace).receipts,
                j,
            ) - burned_count(apply_trace(s, program_id, trace).receipts, j),
{
    lemma_trace_preserves_wf(s, program_id, trace);
    lemma_mint_burn_conservation(apply_trace(s, program_id, trace));
}

} // verus!
