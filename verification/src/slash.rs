//! Slash: the registry's authority punitively forfeits part of a ledger's
//! remaining value.

use vstd::prelude::*;

use crate::accounts::{LedgerView, SafeRegistry, SafeState, StateView, ledger_wf, state_wf};
use crate::error::ErrorKind;
use crate::instruction::TransferRequest;
use crate::totals::{lemma_sum_outstanding_element, lemma_sum_outstanding_update, outstanding_of};

verus! {

/// The access-control phase: only the registry's authority, actually
/// signing, may slash, and never more than the ledger still custodies
/// beyond what is withdrawn or claimed by outstanding receipts.
pub open spec fn slash_check(
    registry: SafeRegistry,
    l: LedgerView,
    amount: u64,
    signer: u64,
    signer_signed: bool,
) -> Result<(), ErrorKind> {
    if !signer_signed || signer != registry.authority {
        Err(ErrorKind::Unauthorized)
    } else if amount > l.total_deposited - l.withdrawn - l.locked_claim_amount {
        Err(ErrorKind::InsufficientBalance)
    } else {
        Ok(())
    }
}

/// The transition: the forfeited amount is accounted as withdrawn, so the
/// beneficiary can never claim it again, and leaves the aggregate.  It is
/// not transferred anywhere: it stays in the vault under administrative
/// control, this deployment's policy for forfeited value.
pub open spec fn slash_step(
    s: StateView,
    ledger_index: usize,
    amount: u64,
    signer: u64,
    signer_signed: bool,
) -> (StateView, Result<TransferRequest, ErrorKind>) {
    let j = ledger_index as int;
    let l = s.ledgers[j];
    match slash_check(s.registry, l, amount, signer, signer_signed) {
        Err(e) => (s, Err(e)),
        Ok(()) => (
            StateView {
                ledgers: s.ledgers.update(j, LedgerView { withdrawn: (l.withdrawn + amount) as u64, ..l }),
                registry: SafeRegistry {
                    total_outstanding_value: (s.registry.total_outstanding_value - amount) as u64,
                    ..s.registry
                },
                ..s
            },
            Ok(TransferRequest::NoExternalAction),
        ),
    }
}

pub proof fn lemma_slash_preserves_wf(
    s: StateView,
    ledger_index: usize,
    amount: u64,
    signer: u64,
    signer_signed: bool,
)
    requires
        state_wf(s),
        (ledger_index as int) < s.ledgers.len(),
    ensures
        state_wf(slash_step(s, ledger_index, amount, signer, signer_signed).0),
{
    let j = ledger_index as int;
    let ls = s.ledgers;
    let l = ls[j];
    if slash_check(s.registry, l, amount, signer, signer_signed) is Ok {
        let l2 = LedgerView { withdrawn: (l.withdrawn + amount) as u64, ..l };
        let s2 = slash_step(s, ledger_index, amount, signer, signer_signed).0;
        assert(ledger_wf(l2));
        assert forall|i: int| 0 <= i < ls.len() implies outstanding_of(#[trigger] ls[i]) >= 0 by {
            assert(ledger_wf(ls[i]));
        }
        lemma_sum_outstanding_element(ls, j);
        lemma_sum_outstanding_update(ls, j, l2);
        assert forall|i: int| 0 <= i < s2.ledgers.len() implies ledger_wf(#[trigger] s2.ledgers[i]) by {
            if i != j {
                assert(s2.ledgers[i] == ls[i]);
            }
        }
        assert forall|i: int|
            0 <= i < s2.ledgers.len() implies (#[trigger] s2.ledgers[i].outstanding_receipt_count)
            as int == crate::totals::live_count(s2.receipts, i) by {
            if i != j {
                assert(s2.ledgers[i] == ls[i]);
            }
        }
    }
}

/// The pure access-control phase of `Slash`; reads, never mutates.
pub fn access_control(
    state: &SafeState,
    ledger_index: usize,
    amount: u64,
    signer: u64,
    signer_signed: bool,
) -> (r: Result<(), ErrorKind>)
    requires
        ledger_index < state.ledgers@.len(),
    ensures
        r == slash_check(
            state@.registry,
            state@.ledgers[ledger_index as int],
            amount,
            signer,
            signer_signed,
        ),
{
    if !signer_signed || signer != state.registry.authority {
        Err(ErrorKind::Unauthorized)
    } else {
        let l = &state.ledgers[ledger_index];
        if (amount as u128) + (l.withdrawn as u128) + (l.locked_claim_amount as u128) > (
        l.total_deposited as u128) {
            Err(ErrorKind::InsufficientBalance)
        } else {
            Ok(())
        }
    }
}

/// Slash a ledger: access control, then the forfeiture.  Fails, leaving
/// the state untouched, unless the registry's authority signed and the
/// amount is covered.
pub fn handler(
    state: &mut SafeState,
    ledger_index: usize,
    amount: u64,
    signer: u64,
    signer_signed: bool,
) -> (r: Result<TransferRequest, ErrorKind>)
    requires
        state_wf(old(state)@),
        old(state)@.registry.initialized,
        ledger_index < old(state).ledgers@.len(),
    ensures
        final(state)@ == slash_step(old(state)@, ledger_index, amount, signer, signer_signed).0,
        r == slash_step(old(state)@, ledger_index, amount, signer, signer_signed).1,
        state_wf(final(state)@),
{
    match access_control(state, ledger_index, amount, signer, signer_signed) {
        Err(e) => Err(e),
        Ok(()) => {
            proof {
                let ls = old(state)@.ledgers;
                assert forall|i: int| 0 <= i < ls.len() implies outstanding_of(
                    #[trigger] ls[i],
                ) >= 0 by {
                    assert(ledger_wf(ls[i]));
                }
                lemma_sum_outstanding_element(ls, ledger_index as int);
            }
            let l = &mut state.ledgers[ledger_index];
            l.withdrawn = l.withdrawn + amount;
            state.registry.total_outstanding_value = state.registry.total_outstanding_value
                - amount;
            proof {
                assert(state@ =~= slash_step(
                    old(state)@,
                    ledger_index,
                    amount,
                    signer,
                    signer_signed,
                ).0);
                lemma_slash_preserves_wf(old(state)@, ledger_index, amount, signer, signer_signed);
            }
            Ok(TransferRequest::NoExternalAction)
        },
    }
}

} // verus!
