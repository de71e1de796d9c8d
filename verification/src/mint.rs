//! Mint: create locked-value receipts against a ledger's still-locked,
//! unclaimed balance.

use vstd::prelude::*;

use crate::accounts::{LedgerView, Receipt, SafeState, StateView, ledger_wf, state_wf};
use crate::error::ErrorKind;
use crate::instruction::TransferRequest;
use crate::totals::{lemma_live_count_push, lemma_sum_outstanding_update, live_count};

verus! {

/// The access-control phase: only the beneficiary, actually signing, may
/// mint, and only against value that is still locked and not already
/// claimed by an outstanding receipt.
pub open spec fn mint_check(
    l: LedgerView,
    units: u64,
    signer: u64,
    signer_signed: bool,
) -> Result<(), ErrorKind> {
    if !signer_signed || signer != l.beneficiary {
        Err(ErrorKind::Unauthorized)
    } else if l.total_deposited - l.withdrawn - l.locked_claim_amount < units {
        Err(ErrorKind::InsufficientUnvestedBalance)
    } else {
        Ok(())
    }
}

/// The `units` receipt records one mint appends, each bound to the ledger
/// and worth one unit of the receipt asset held by `destination`.
pub open spec fn minted_receipts(
    ledger_index: usize,
    receipt_asset: u64,
    destination: u64,
    n: u64,
) -> Seq<Receipt> {
    Seq::new(
        n as nat,
        |k: int|
            Receipt {
                originating_ledger: ledger_index,
                asset_identity: receipt_asset,
                holder_account: destination,
                burned: false,
                initialized: true,
            },
    )
}

/// The transition: one new live receipt per unit, the claimed amount and
/// the receipt count grown accordingly, and the external mint of the units
/// owed to the destination.  All units mint or none do.
pub open spec fn mint_step(
    s: StateView,
    ledger_index: usize,
    units: u64,
    destination: u64,
    receipt_asset: u64,
    signer: u64,
    signer_signed: bool,
) -> (StateView, Result<TransferRequest, ErrorKind>) {
    let j = ledger_index as int;
    let l = s.ledgers[j];
    match mint_check(l, units, signer, signer_signed) {
        Err(e) => (s, Err(e)),
        Ok(()) => (
            StateView {
                ledgers: s.ledgers.update(
                    j,
                    LedgerView {
                        locked_claim_amount: (l.locked_claim_amount + units) as u64,
                        outstanding_receipt_count: (l.outstanding_receipt_count + units) as u64,
                        ..l
                    },
                ),
                receipts: s.receipts + minted_receipts(ledger_index, receipt_asset, destination, units),
                ..s
            },
            Ok(TransferRequest::MintUnits { asset: receipt_asset, destination, count: units }),
        ),
    }
}

pub proof fn lemma_live_count_append_minted(
    rs: Seq<Receipt>,
    ledger_index: usize,
    receipt_asset: u64,
    destination: u64,
    n: u64,
    i: int,
)
    ensures
        live_count(rs + minted_receipts(ledger_index, receipt_asset, destination, n), i)
            == live_count(rs, i) + (if i == ledger_index as int {
            n as int
        } else {
            0
        }),
    decreases n,
{
    if n == 0 {
        assert(rs + minted_receipts(ledger_index, receipt_asset, destination, 0) =~= rs);
    } else {
        let r = Receipt {
            originating_ledger: ledger_index,
            asset_identity: receipt_asset,
            holder_account: destination,
            burned: false,
            initialized: true,
        };
        let m1 = minted_receipts(ledger_index, receipt_asset, destination, (n - 1) as u64);
        assert(rs + minted_receipts(ledger_index, receipt_asset, destination, n) =~= (rs
            + m1).push(r));
        lemma_live_count_append_minted(
            rs,
            ledger_index,
            receipt_asset,
            destination,
            (n - 1) as u64,
            i,
        );
        lemma_live_count_push(rs + m1, r, i);
    }
}

pub proof fn lemma_mint_preserves_wf(
    s: StateView,
    ledger_index: usize,
    units: u64,
    destination: u64,
    receipt_asset: u64,
    signer: u64,
    signer_signed: bool,
)
    requires
        state_wf(s),
        (ledger_index as int) < s.ledgers.len(),
    ensures
        state_wf(
            mint_step(s, ledger_index, units, destination, receipt_asset, signer, signer_signed).0,
        ),
{
    let j = ledger_index as int;
    let ls = s.ledgers;
    let rs = s.receipts;
    let l = ls[j];
    if mint_check(l, units, signer, signer_signed) is Ok {
        let l2 = LedgerView {
            locked_claim_amount: (l.locked_claim_amount + units) as u64,
            outstanding_receipt_count: (l.outstanding_receipt_count + units) as u64,
            ..l
        };
        let s2 = mint_step(
            s,
            ledger_index,
            units,
            destination,
            receipt_asset,
            signer,
            signer_signed,
        ).0;
        assert(ledger_wf(l2));
        lemma_sum_outstanding_update(ls, j, l2);
        assert forall|i: int| 0 <= i < s2.ledgers.len() implies ledger_wf(#[trigger] s2.ledgers[i]) by {
            if i != j {
                assert(s2.ledgers[i] == ls[i]);
            }
        }
        let m = minted_receipts(ledger_index, receipt_asset, destination, units);
        assert forall|k: int|
            0 <= k < s2.receipts.len() implies crate::accounts::receipt_wf(
            #[trigger] s2.receipts[k],
            s2.ledgers.len() as int,
        ) by {
            if k < rs.len() {
                assert(s2.receipts[k] == rs[k]);
            } else {
                assert(s2.receipts[k] == m[k - rs.len()]);
            }
        }
        assert forall|i: int|
            0 <= i < s2.ledgers.len() implies (#[trigger] s2.ledgers[i].outstanding_receipt_count)
            as int == live_count(s2.receipts, i) by {
            lemma_live_count_append_minted(rs, ledger_index, receipt_asset, destination, units, i);
            if i != j {
                assert(s2.ledgers[i] == ls[i]);
            }
        }
    }
}

/// The pure access-control phase of `Mint`; reads, never mutates.
pub fn access_control(
    state: &SafeState,
    ledger_index: usize,
    units: u64,
    signer: u64,
    signer_signed: bool,
) -> (r: Result<(), ErrorKind>)
    requires
        ledger_index < state.ledgers@.len(),
    ensures
        r == mint_check(state@.ledgers[ledger_index as int], units, signer, signer_signed),
{
    let l = &state.ledgers[ledger_index];
    if !signer_signed || signer != l.beneficiary {
        Err(ErrorKind::Unauthorized)
    } else if (l.withdrawn as u128) + (l.locked_claim_amount as u128) + (units as u128) > (
    l.total_deposited as u128) {
        Err(ErrorKind::InsufficientUnvestedBalance)
    } else {
        Ok(())
    }
}

/// Mint `units` receipts against a ledger: access control, then the
/// creation of every receipt and the claim on the ledger.  Fails, leaving
/// the state untouched, unless the beneficiary signed and the unvested,
/// unclaimed balance covers the request; on success the host owes the
/// destination an external mint of the units, all of them or none.
pub fn handler(
    state: &mut SafeState,
    ledger_index: usize,
    units: u64,
    destination: u64,
    receipt_asset: u64,
    signer: u64,
    signer_signed: bool,
) -> (r: Result<TransferRequest, ErrorKind>)
    requires
        state_wf(old(state)@),
        old(state)@.registry.initialized,
        units >= 1,
        ledger_index < old(state).ledgers@.len(),
    ensures
        final(state)@ == mint_step(
            old(state)@,
            ledger_index,
            units,
            destination,
            receipt_asset,
            signer,
            signer_signed,
        ).0,
        r == mint_step(
            old(state)@,
            ledger_index,
            units,
            destination,
            receipt_asset,
            signer,
            signer_signed,
        ).1,
        state_wf(final(state)@),
{
    match access_control(state, ledger_index, units, signer, signer_signed) {
        Err(e) => Err(e),
        Ok(()) => {
            let mut k: u64 = 0;
            while k < units
                invariant
                    k <= units,
                    state.ledgers@ == old(state).ledgers@,
                    state.registry == old(state).registry,
                    state.registry_owner == old(state).registry_owner,
                    state.receipts@ == old(state).receipts@ + minted_receipts(
                        ledger_index,
                        receipt_asset,
                        destination,
                        k,
                    ),
                decreases units - k,
            {
                state.receipts.push(
                    Receipt {
                        originating_ledger: ledger_index,
                        asset_identity: receipt_asset,
                        holder_account: destination,
                        burned: false,
                        initialized: true,
                    },
                );
                proof {
                    assert(state.receipts@ =~= old(state).receipts@ + minted_receipts(
                        ledger_index,
                        receipt_asset,
                        destination,
                        (k + 1) as u64,
                    ));
                }
                k = k + 1;
            }
            proof {
                assert(ledger_wf(old(state)@.ledgers[ledger_index as int]));
            }
            let l = &mut state.ledgers[ledger_index];
            l.locked_claim_amount = l.locked_claim_amount + units;
            l.outstanding_receipt_count = l.outstanding_receipt_count + units;
            proof {
                assert(state@ =~~= mint_step(
                    old(state)@,
                    ledger_index,
                    units,
                    destination,
                    receipt_asset,
                    signer,
                    signer_signed,
                ).0);
                lemma_mint_preserves_wf(
                    old(state)@,
                    ledger_index,
                    units,
                    destination,
                    receipt_asset,
                    signer,
                    signer_signed,
                );
            }
            Ok(TransferRequest::MintUnits { asset: receipt_asset, destination, count: units })
        },
    }
}

} // verus!
