//! The records the state machine governs, their mathematical views, and the
//! well-formedness invariant every transition preserves.

use vstd::prelude::*;

use crate::totals::{live_count, sum_amounts, sum_outstanding};

verus! {

/// One entry of an unlock schedule: `amount` units of the custodied asset
/// become withdrawable once the clock reaches `unlock_time`.
#[derive(Clone, Copy, Debug, PartialEq, Eq, Structural)]
pub struct Tranche {
    pub unlock_time: u64,
    pub amount: u64,
}

/// The singleton configuration record of one deployment.
#[derive(Clone, Copy, Debug, PartialEq, Eq, Structural)]
pub struct SafeRegistry {
    /// The identity permitted to slash and to transfer authority.
    pub authority: u64,
    /// The identity of the fungible asset type this deployment escrows.
    pub custodied_asset: u64,
    /// The identity of the custodial balance holding all deposited value.
    pub vault: u64,
    /// The sum of `total_deposited - withdrawn` across all live ledgers.
    pub total_outstanding_value: u64,
    /// The value the vault's program-controlled authority is derived from;
    /// immutable after initialization.
    pub signer_nonce: u64,
    /// The one-shot latch: `Initialize` must fail once this is set.
    pub initialized: bool,
}

/// One depositor's position: a schedule and the amounts accounted against it.
#[derive(Debug)]
pub struct VestingLedger {
    /// The identity entitled to withdraw and to authorize minting and
    /// burning against this position.
    pub beneficiary: u64,
    /// The unlock schedule, strictly increasing in `unlock_time`; the
    /// tranche amounts sum to `total_deposited`.
    pub schedule: Vec<Tranche>,
    /// The deposited value; immutable once set at creation.
    pub total_deposited: u64,
    /// The value released (or forfeited by a slash) so far.
    pub withdrawn: u64,
    /// The portion of `total_deposited` currently represented by
    /// outstanding receipts; not withdrawable even once unlocked.
    pub locked_claim_amount: u64,
    /// The count of live receipts minted against this ledger; each receipt
    /// is worth one unit, so this mirrors `locked_claim_amount`.
    pub outstanding_receipt_count: u64,
}

/// The mathematical value of a [`VestingLedger`].
#[verifier::ext_equal]
pub struct LedgerView {
    pub beneficiary: u64,
    pub schedule: Seq<Tranche>,
    pub total_deposited: u64,
    pub withdrawn: u64,
    pub locked_claim_amount: u64,
    pub outstanding_receipt_count: u64,
}

impl View for VestingLedger {
    type V = LedgerView;

    open spec fn view(&self) -> LedgerView {
        LedgerView {
            beneficiary: self.beneficiary,
            schedule: self.schedule@,
            total_deposited: self.total_deposited,
            withdrawn: self.withdrawn,
            locked_claim_amount: self.locked_claim_amount,
            outstanding_receipt_count: self.outstanding_receipt_count,
        }
    }
}

/// One minted locked-value unit, linking it back to its originating ledger.
#[derive(Clone, Copy, Debug, PartialEq, Eq, Structural)]
pub struct Receipt {
    /// The position of the originating ledger; a lookup key, not an owner.
    pub originating_ledger: usize,
    /// The identity of the receipt-asset type, distinct from the custodied
    /// asset.
    pub asset_identity: u64,
    /// The transfer-primitive account currently holding this receipt.
    pub holder_account: u64,
    /// The one-shot burn latch.
    pub burned: bool,
    /// The one-shot creation latch; set when the receipt is minted.
    pub initialized: bool,
}

/// One deployment's records: the registry co-created with its backing
/// record, the ledgers and the receipts, addressed by position.
pub struct SafeState {
    /// The store-level owner of the registry's backing record; the program
    /// must own it exclusively for `Initialize` to succeed.
    pub registry_owner: u64,
    pub registry: SafeRegistry,
    pub ledgers: Vec<VestingLedger>,
    pub receipts: Vec<Receipt>,
}

/// The mathematical value of a [`SafeState`].
#[verifier::ext_equal]
pub struct StateView {
    pub registry_owner: u64,
    pub registry: SafeRegistry,
    pub ledgers: Seq<LedgerView>,
    pub receipts: Seq<Receipt>,
}

impl View for SafeState {
    type V = StateView;

    open spec fn view(&self) -> StateView {
        StateView {
            registry_owner: self.registry_owner,
            registry: self.registry,
            ledgers: self.ledgers@.map_values(|l: VestingLedger| l@),
            receipts: self.receipts@,
        }
    }
}

/// A valid unlock schedule: non-empty, strictly increasing in unlock time.
pub open spec fn schedule_wf(s: Seq<Tranche>) -> bool {
    &&& s.len() > 0
    &&& forall|i: int, j: int|
        0 <= i < j < s.len() ==> #[trigger] s[i].unlock_time < #[trigger] s[j].unlock_time
}

/// A ledger's invariant: the schedule is valid and sums to the deposit, no
/// more than the deposit is ever withdrawn or claimed, and the receipt
/// count mirrors the claimed amount (each receipt is worth one unit).
pub open spec fn ledger_wf(l: LedgerView) -> bool {
    &&& schedule_wf(l.schedule)
    &&& sum_amounts(l.schedule) == l.total_deposited as int
    &&& l.withdrawn + l.locked_claim_amount <= l.total_deposited
    &&& l.outstanding_receipt_count == l.locked_claim_amount
}

/// A receipt's invariant: it was created by a mint and refers to a ledger
/// that exists.
pub open spec fn receipt_wf(r: Receipt, n_ledgers: int) -> bool {
    &&& r.initialized
    &&& (r.originating_ledger as int) < n_ledgers
}

/// The deployment-wide invariant: every record is well formed, every
/// ledger's receipt count equals the number of live receipts minted against
/// it, the registry's aggregate equals the sum of the ledgers' outstanding
/// value, and nothing exists before the registry is initialized.
pub open spec fn state_wf(s: StateView) -> bool {
    &&& forall|i: int| 0 <= i < s.ledgers.len() ==> ledger_wf(#[trigger] s.ledgers[i])
    &&& forall|k: int|
        0 <= k < s.receipts.len() ==> receipt_wf(#[trigger] s.receipts[k], s.ledgers.len() as int)
    &&& forall|i: int|
        0 <= i < s.ledgers.len() ==> (#[trigger] s.ledgers[i].outstanding_receipt_count) as int
            == live_count(s.receipts, i)
    &&& s.registry.total_outstanding_value as int == sum_outstanding(s.ledgers)
    &&& !s.registry.initialized ==> s.ledgers.len() == 0 && s.receipts.len() == 0
        && s.registry.total_outstanding_value == 0
}

impl SafeState {
    /// A freshly allocated deployment: an uninitialized registry co-created
    /// with its backing record, whose store-level owner is `registry_owner`,
    /// and no ledgers or receipts.
    pub fn new(registry_owner: u64) -> (s: SafeState)
        ensures
            s@ == (StateView {
                registry_owner,
                registry: SafeRegistry {
                    authority: 0,
                    custodied_asset: 0,
                    vault: 0,
                    total_outstanding_value: 0,
                    signer_nonce: 0,
                    initialized: false,
                },
                ledgers: Seq::<LedgerView>::empty(),
                receipts: Seq::<Receipt>::empty(),
            }),
            state_wf(s@),
    {
        let s = SafeState {
            registry_owner,
            registry: SafeRegistry {
                authority: 0,
                custodied_asset: 0,
                vault: 0,
                total_outstanding_value: 0,
                signer_nonce: 0,
                initialized: false,
            },
            ledgers: Vec::new(),
            receipts: Vec::new(),
        };
        proof {
            assert(s@ =~= (StateView {
                registry_owner,
                registry: s.registry,
                ledgers: Seq::<LedgerView>::empty(),
                receipts: Seq::<Receipt>::empty(),
            }));
        }
        s
    }
}

} // verus!
