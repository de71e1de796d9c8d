//! Burn: destroy one locked-value receipt and release its claim on the
//! originating ledger.

use vstd::prelude::*;

use crate::accounts::{
    LedgerView, Receipt, SafeState, StateView, VestingLedger, ledger_wf, receipt_wf, state_wf,
};
use crate::error::ErrorKind;
use crate::instruction::TransferRequest;
use crate::totals::{
    is_live, lemma_live_count_element, lemma_live_count_update, lemma_sum_outstanding_update,
    live_count,
};

verus! {

/// The access-control phase: the burn is authorized by the *originating
/// ledger's* beneficiary — not merely the receipt's holder — so that a
/// receipt never becomes an independently transferable claim outliving the
/// depositor relationship.  The receipt must be live, presented under its
/// recorded holder account, and of the expected receipt asset.
pub open spec fn burn_check(
    r: Receipt,
    l: LedgerView,
    holder_account: u64,
    expected_asset: u64,
    signer: u64,
    signer_signed: bool,
) -> Result<(), ErrorKind> {
    if !signer_signed || signer != l.beneficiary {
        Err(ErrorKind::Unauthorized)
    } else if r.burned {
        Err(ErrorKind::AlreadyBurned)
    } else if r.holder_account != holder_account {
        Err(ErrorKind::UnauthorizedReceipt)
    } else if r.asset_identity != expected_asset {
        Err(ErrorKind::WrongAssetMint)
    } else {
        Ok(())
    }
}

/// The transition: the receipt's burn latch is set, the originating
/// ledger's claimed amount and receipt count shrink by one, and the host
/// owes the external burn of the underlying receipt-asset unit.
pub open spec fn burn_step(
    s: StateView,
    receipt_index: usize,
    holder_account: u64,
    expected_asset: u64,
    signer: u64,
    signer_signed: bool,
) -> (StateView, Result<TransferRequest, ErrorKind>) {
    let k = receipt_index as int;
    let r = s.receipts[k];
    let j = r.originating_ledger as int;
    let l = s.ledgers[j];
    match burn_check(r, l, holder_account, expected_asset, signer, signer_signed) {
        Err(e) => (s, Err(e)),
        Ok(()) => (
            StateView {
                receipts: s.receipts.update(k, Receipt { burned: true, ..r }),
                ledgers: s.ledgers.update(
                    j,
                    LedgerView {
                        locked_claim_amount: (l.locked_claim_amount - 1) as u64,
                        outstanding_receipt_count: (l.outstanding_receipt_count - 1) as u64,
                        ..l
                    },
                ),
                ..s
            },
            Ok(TransferRequest::BurnUnit { asset: expected_asset, source: holder_account }),
        ),
    }
}

/// A claimed amount can never underflow here: a live receipt of ledger `j`
/// exists, so the well-formed ledger's claim covers at least one unit.
pub proof fn lemma_burn_claim_covered(s: StateView, receipt_index: usize)
    requires
        state_wf(s),
        (receipt_index as int) < s.receipts.len(),
        is_live(s.receipts[receipt_index as int]),
    ensures
        s.ledgers[s.receipts[receipt_index as int].originating_ledger as int].locked_claim_amount
            >= 1,
        s.ledgers[s.receipts[receipt_index as int].originating_ledger as int].outstanding_receipt_count
            >= 1,
{
    let k = receipt_index as int;
    let j = s.receipts[k].originating_ledger as int;
    assert(receipt_wf(s.receipts[k], s.ledgers.len() as int));
    lemma_live_count_element(s.receipts, k, j);
    assert(ledger_wf(s.ledgers[j]));
}

pub proof fn lemma_burn_preserves_wf(
    s: StateView,
    receipt_index: usize,
    holder_account: u64,
    expected_asset: u64,
    signer: u64,
    signer_signed: bool,
)
    requires
        state_wf(s),
        (receipt_index as int) < s.receipts.len(),
    ensures
        state_wf(
            burn_step(s, receipt_index, holder_account, expected_asset, signer, signer_signed).0,
        ),
{
    let k = receipt_index as int;
    let ls = s.ledgers;
    let rs = s.receipts;
    let r = rs[k];
    let j = r.originating_ledger as int;
    let l = ls[j];
    if burn_check(r, l, holder_account, expected_asset, signer, signer_signed) is Ok {
        assert(receipt_wf(r, ls.len() as int));
        lemma_burn_claim_covered(s, receipt_index);
        let r2 = Receipt { burned: true, ..r };
        let l2 = LedgerView {
            locked_claim_amount: (l.locked_claim_amount - 1) as u64,
            outstanding_receipt_count: (l.outstanding_receipt_count - 1) as u64,
            ..l
        };
        let s2 = burn_step(s, receipt_index, holder_account, expected_asset, signer, signer_signed).0;
        assert(ledger_wf(l2));
        lemma_sum_outstanding_update(ls, j, l2);
        lemma_live_count_update(rs, k, r2, j);
        assert forall|i: int| 0 <= i < s2.ledgers.len() implies ledger_wf(#[trigger] s2.ledgers[i]) by {
            if i != j {
                assert(s2.ledgers[i] == ls[i]);
            }
        }
        assert forall|i: int|
            0 <= i < s2.receipts.len() implies receipt_wf(
            #[trigger] s2.receipts[i],
            s2.ledgers.len() as int,
        ) by {
            if i != k {
                assert(s2.receipts[i] == rs[i]);
            }
        }
        assert forall|i: int|
            0 <= i < s2.ledgers.len() implies (#[trigger] s2.ledgers[i].outstanding_receipt_count)
            as int == live_count(s2.receipts, i) by {
            lemma_live_count_update(rs, k, r2, i);
            if i != j {
                assert(s2.ledgers[i] == ls[i]);
            }
        }
    }
}

/// The pure access-control phase of `Burn`; reads, never mutates.
pub fn access_control(
    state: &SafeState,
    receipt_index: usize,
    holder_account: u64,
    expected_asset: u64,
    signer: u64,
    signer_signed: bool,
) -> (r: Result<(), ErrorKind>)
    requires
        receipt_index < state.receipts@.len(),
        (state@.receipts[receipt_index as int].originating_ledger as int) < state@.ledgers.len(),
    ensures
        r == burn_check(
            state@.receipts[receipt_index as int],
            state@.ledgers[state@.receipts[receipt_index as int].originating_ledger as int],
            holder_account,
            expected_asset,
            signer,
            signer_signed,
        ),
{
    let receipt = &state.receipts[receipt_index];
    let ledger = &state.ledgers[receipt.originating_ledger];
    if !signer_signed || signer != ledger.beneficiary {
        Err(ErrorKind::Unauthorized)
    } else if receipt.burned {
        Err(ErrorKind::AlreadyBurned)
    } else if receipt.holder_account != holder_account {
        Err(ErrorKind::UnauthorizedReceipt)
    } else if receipt.asset_identity != expected_asset {
        Err(ErrorKind::WrongAssetMint)
    } else {
        Ok(())
    }
}

/// The mutation phase of `Burn`: latch the receipt and release its claim.
pub fn state_transition(ledger: &mut VestingLedger, receipt: &mut Receipt)
    requires
        old(ledger).locked_claim_amount >= 1,
        old(ledger).outstanding_receipt_count >= 1,
    ensures
        *final(receipt) == (Receipt { burned: true, ..*old(receipt) }),
        final(ledger)@ == (LedgerView {
            locked_claim_amount: (old(ledger)@.locked_claim_amount - 1) as u64,
            outstanding_receipt_count: (old(ledger)@.outstanding_receipt_count - 1) as u64,
            ..old(ledger)@
        }),
{
    receipt.burned = true;
    ledger.locked_claim_amount = ledger.locked_claim_amount - 1;
    ledger.outstanding_receipt_count = ledger.outstanding_receipt_count - 1;
}

/// Burn one receipt: access control, then the latch and the release of the
/// claim.  Fails, leaving the state untouched, unless the originating
/// ledger's beneficiary signed, the receipt is live, and it matches the
/// presented holder account and receipt asset; on success the host owes
/// the external burn of the unit held by the holder account.
pub fn handler(
    state: &mut SafeState,
    receipt_index: usize,
    holder_account: u64,
    expected_asset: u64,
    signer: u64,
    signer_signed: bool,
) -> (r: Result<TransferRequest, ErrorKind>)
    requires
        state_wf(old(state)@),
        old(state)@.registry.initialized,
        receipt_index < old(state).receipts@.len(),
    ensures
        final(state)@ == burn_step(
            old(state)@,
            receipt_index,
            holder_account,
            expected_asset,
            signer,
            signer_signed,
        ).0,
        r == burn_step(
            old(state)@,
            receipt_index,
            holder_account,
            expected_asset,
            signer,
            signer_signed,
        ).1,
        state_wf(final(state)@),
{
    proof {
        assert(receipt_wf(
            old(state)@.receipts[receipt_index as int],
            old(state)@.ledgers.len() as int,
        ));
    }
    let ledger_index = state.receipts[receipt_index].originating_ledger;
    match access_control(state, receipt_index, holder_account, expected_asset, signer, signer_signed) {
        Err(e) => Err(e),
        Ok(()) => {
            proof {
                lemma_burn_claim_covered(old(state)@, receipt_index);
            }
            let ledger = &mut state.ledgers[ledger_index];
            let receipt = &mut state.receipts[receipt_index];
            state_transition(ledger, receipt);
            proof {
                assert(state@ =~~= burn_step(
                    old(state)@,
                    receipt_index,
                    holder_account,
                    expected_asset,
                    signer,
                    signer_signed,
                ).0);
                lemma_burn_preserves_wf(
                    old(state)@,
                    receipt_index,
                    holder_account,
                    expected_asset,
                    signer,
                    signer_signed,
                );
            }
            Ok(TransferRequest::BurnUnit { asset: expected_asset, source: holder_account })
        },
    }
}

} // verus!
