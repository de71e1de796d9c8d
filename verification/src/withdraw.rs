//! Withdraw: release unlocked value from the vault to the beneficiary.

use vstd::prelude::*;

use crate::accounts::{LedgerView, SafeRegistry, SafeState, StateView, VestingLedger, ledger_wf, state_wf};
use crate::error::ErrorKind;
use crate::instruction::TransferRequest;
use crate::totals::{
    lemma_sum_amounts_take_le, lemma_sum_amounts_take_succ, lemma_sum_outstanding_element,
    lemma_sum_outstanding_update, lemma_unlocked_bounds, lemma_unlocked_take_succ, outstanding_of,
    sum_amounts, unlocked_amount,
};

verus! {

/// The access-control phase: only the beneficiary, actually signing, may
/// withdraw, and never more than what is unlocked at `now` minus what is
/// already withdrawn or claimed by outstanding receipts.
pub open spec fn withdraw_check(
    l: LedgerView,
    amount: u64,
    now: u64,
    signer: u64,
    signer_signed: bool,
) -> Result<(), ErrorKind> {
    if !signer_signed || signer != l.beneficiary {
        Err(ErrorKind::Unauthorized)
    } else if amount + l.withdrawn + l.locked_claim_amount > unlocked_amount(l.schedule, now) {
        Err(ErrorKind::InsufficientUnlockedBalance)
    } else {
        Ok(())
    }
}

/// The transition: the amount is accounted as withdrawn, leaves the
/// aggregate, and is owed to the destination balance out of the vault.
pub open spec fn withdraw_step(
    s: StateView,
    ledger_index: usize,
    amount: u64,
    destination: u64,
    now: u64,
    signer: u64,
    signer_signed: bool,
) -> (StateView, Result<TransferRequest, ErrorKind>) {
    let j = ledger_index as int;
    let l = s.ledgers[j];
    match withdraw_check(l, amount, now, signer, signer_signed) {
        Err(e) => (s, Err(e)),
        Ok(()) => (
            StateView {
                ledgers: s.ledgers.update(j, LedgerView { withdrawn: (l.withdrawn + amount) as u64, ..l }),
                registry: SafeRegistry {
                    total_outstanding_value: (s.registry.total_outstanding_value - amount) as u64,
                    ..s.registry
                },
                ..s
            },
            Ok(TransferRequest::Transfer { from: s.registry.vault, to: destination, amount }),
        ),
    }
}

pub proof fn lemma_withdraw_preserves_wf(
    s: StateView,
    ledger_index: usize,
    amount: u64,
    destination: u64,
    now: u64,
    signer: u64,
    signer_signed: bool,
)
    requires
        state_wf(s),
        (ledger_index as int) < s.ledgers.len(),
    ensures
        state_wf(withdraw_step(s, ledger_index, amount, destination, now, signer, signer_signed).0),
{
    let j = ledger_index as int;
    let ls = s.ledgers;
    let l = ls[j];
    if withdraw_check(l, amount, now, signer, signer_signed) is Ok {
        lemma_unlocked_bounds(l.schedule, now);
        let l2 = LedgerView { withdrawn: (l.withdrawn + amount) as u64, ..l };
        let s2 = withdraw_step(s, ledger_index, amount, destination, now, signer, signer_signed).0;
        assert(ledger_wf(l2));
        assert forall|i: int| 0 <= i < ls.len() implies outstanding_of(#[trigger] ls[i]) >= 0 by {
            assert(ledger_wf(ls[i]));
        }
        lemma_sum_outstanding_element(ls, j);
        lemma_sum_outstanding_update(ls, j, l2);
        assert forall|i: int| 0 <= i < s2.ledgers.len() implies ledger_wf(#[trigger] s2.ledgers[i]) by {
            if i != j {
                assert(s2.ledgers[i] == ls[i]);
            }
        }
        assert forall|i: int|
            0 <= i < s2.ledgers.len() implies (#[trigger] s2.ledgers[i].outstanding_receipt_count)
            as int == crate::totals::live_count(s2.receipts, i) by {
            if i != j {
                assert(s2.ledgers[i] == ls[i]);
            }
        }
    }
}

/// The value of the tranches whose unlock time has passed at `now`.
pub fn unlocked_balance(ledger: &VestingLedger, now: u64) -> (r: u64)
    requires
        sum_amounts(ledger@.schedule) <= u64::MAX,
    ensures
        r as int == unlocked_amount(ledger@.schedule, now),
{
    let n = ledger.schedule.len();
    let mut acc: u64 = 0;
    let mut i: usize = 0;
    while i < n
        invariant
            i <= n,
            n == ledger.schedule.len(),
            sum_amounts(ledger@.schedule) <= u64::MAX,
            acc as int == unlocked_amount(ledger@.schedule.take(i as int), now),
        decreases n - i,
    {
        proof {
            lemma_unlocked_take_succ(ledger@.schedule, now, i as int);
            lemma_sum_amounts_take_succ(ledger@.schedule, i as int);
            lemma_sum_amounts_take_le(ledger@.schedule, i as int + 1);
            lemma_unlocked_bounds(ledger@.schedule.take(i as int + 1), now);
        }
        let t = ledger.schedule[i];
        if t.unlock_time <= now {
            acc = acc + t.amount;
        }
        i = i + 1;
    }
    proof {
        assert(ledger@.schedule.take(n as int) =~= ledger@.schedule);
    }
    acc
}

/// The pure access-control phase of `Withdraw`; reads, never mutates.
pub fn access_control(
    state: &SafeState,
    ledger_index: usize,
    amount: u64,
    now: u64,
    signer: u64,
    signer_signed: bool,
) -> (r: Result<(), ErrorKind>)
    requires
        ledger_index < state.ledgers@.len(),
        sum_amounts(state@.ledgers[ledger_index as int].schedule) <= u64::MAX,
    ensures
        r == withdraw_check(
            state@.ledgers[ledger_index as int],
            amount,
            now,
            signer,
            signer_signed,
        ),
{
    let l = &state.ledgers[ledger_index];
    if !signer_signed || signer != l.beneficiary {
        Err(ErrorKind::Unauthorized)
    } else {
        let unlocked = unlocked_balance(l, now);
        if (amount as u128) + (l.withdrawn as u128) + (l.locked_claim_amount as u128) > (
        unlocked as u128) {
            Err(ErrorKind::InsufficientUnlockedBalance)
        } else {
            Ok(())
        }
    }
}

/// Withdraw from a ledger: access control, then the release.  Fails,
/// leaving the state untouched, unless the beneficiary signed and the
/// amount is unlocked and unclaimed; on success the host owes the
/// beneficiary's destination a transfer out of the vault.
pub fn handler(
    state: &mut SafeState,
    ledger_index: usize,
    amount: u64,
    destination: u64,
    now: u64,
    signer: u64,
    signer_signed: bool,
) -> (r: Result<TransferRequest, ErrorKind>)
    requires
        state_wf(old(state)@),
        old(state)@.registry.initialized,
        ledger_index < old(state).ledgers@.len(),
    ensures
        final(state)@ == withdraw_step(
            old(state)@,
            ledger_index,
            amount,
            destination,
            now,
            signer,
            signer_signed,
        ).0,
        r == withdraw_step(
            old(state)@,
            ledger_index,
            amount,
            destination,
            now,
            signer,
            signer_signed,
        ).1,
        state_wf(final(state)@),
{
    proof {
        assert(ledger_wf(old(state)@.ledgers[ledger_index as int]));
    }
    match access_control(state, ledger_index, amount, now, signer, signer_signed) {
        Err(e) => Err(e),
        Ok(()) => {
            let vault = state.registry.vault;
            proof {
                let ls = old(state)@.ledgers;
                lemma_unlocked_bounds(ls[ledger_index as int].schedule, now);
                assert forall|i: int| 0 <= i < ls.len() implies outstanding_of(
                    #[trigger] ls[i],
                ) >= 0 by {
                    assert(ledger_wf(ls[i]));
                }
                lemma_sum_outstanding_element(ls, ledger_index as int);
            }
            let l = &mut state.ledgers[ledger_index];
            l.withdrawn = l.withdrawn + amount;
            state.registry.total_outstanding_value = state.registry.total_outstanding_value
                - amount;
            proof {
                assert(state@ =~= withdraw_step(
                    old(state)@,
                    ledger_index,
                    amount,
                    destination,
                    now,
                    signer,
                    signer_signed,
                ).0);
                lemma_withdraw_preserves_wf(
                    old(state)@,
                    ledger_index,
                    amount,
                    destination,
                    now,
                    signer,
                    signer_signed,
                );
            }
            Ok(TransferRequest::Transfer { from: vault, to: destination, amount })
        },
    }
}

} // verus!
