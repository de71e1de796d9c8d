//! Deposit: create a vesting ledger and move the deposited value into the
//! vault.

use vstd::prelude::*;

use crate::accounts::{
    LedgerView, SafeRegistry, SafeState, StateView, Tranche, VestingLedger, ledger_wf, schedule_wf,
    state_wf,
};
use crate::error::ErrorKind;
use crate::instruction::TransferRequest;
use crate::totals::{
    lemma_live_count_absent, lemma_sum_amounts_nonneg, lemma_sum_amounts_take_le,
    lemma_sum_amounts_take_succ, lemma_sum_outstanding_push, sum_amounts,
};

verus! {

/// The access-control phase: the signer must be the recorded controller of
/// the source balance and must actually sign, and the schedule must be
/// non-empty with strictly increasing unlock times.
pub open spec fn deposit_check(
    schedule: Seq<Tranche>,
    source_owner: u64,
    signer: u64,
    signer_signed: bool,
) -> Result<(), ErrorKind> {
    if !signer_signed || signer != source_owner {
        Err(ErrorKind::Unauthorized)
    } else if !schedule_wf(schedule) {
        Err(ErrorKind::InvalidSchedule)
    } else {
        Ok(())
    }
}

/// The transition: a new ledger holding the whole schedule's value, nothing
/// withdrawn or claimed yet; the deposited value joins the aggregate and is
/// owed to the vault out of the source balance.
pub open spec fn deposit_step(
    s: StateView,
    beneficiary: u64,
    schedule: Seq<Tranche>,
    source_balance: u64,
    source_owner: u64,
    signer: u64,
    signer_signed: bool,
) -> (StateView, Result<TransferRequest, ErrorKind>) {
    match deposit_check(schedule, source_owner, signer, signer_signed) {
        Err(e) => (s, Err(e)),
        Ok(()) => {
            let total = sum_amounts(schedule) as u64;
            (
                StateView {
                    ledgers: s.ledgers.push(
                        LedgerView {
                            beneficiary,
                            schedule,
                            total_deposited: total,
                            withdrawn: 0,
                            locked_claim_amount: 0,
                            outstanding_receipt_count: 0,
                        },
                    ),
                    registry: SafeRegistry {
                        total_outstanding_value: (s.registry.total_outstanding_value + total) as u64,
                        ..s.registry
                    },
                    ..s
                },
                Ok(TransferRequest::Transfer { from: source_balance, to: s.registry.vault, amount: total }),
            )
        },
    }
}

pub proof fn lemma_deposit_preserves_wf(
    s: StateView,
    beneficiary: u64,
    schedule: Seq<Tranche>,
    source_balance: u64,
    source_owner: u64,
    signer: u64,
    signer_signed: bool,
)
    requires
        state_wf(s),
        s.registry.initialized,
        schedule_wf(schedule) ==> s.registry.total_outstanding_value + sum_amounts(schedule)
            <= u64::MAX,
    ensures
        state_wf(
            deposit_step(
                s,
                beneficiary,
                schedule,
                source_balance,
                source_owner,
                signer,
                signer_signed,
            ).0,
        ),
{
    let ls = s.ledgers;
    let rs = s.receipts;
    if deposit_check(schedule, source_owner, signer, signer_signed) is Ok {
        lemma_sum_amounts_nonneg(schedule);
        let total = sum_amounts(schedule) as u64;
        let lv = LedgerView {
            beneficiary,
            schedule,
            total_deposited: total,
            withdrawn: 0,
            locked_claim_amount: 0,
            outstanding_receipt_count: 0,
        };
        let s2 = deposit_step(
            s,
            beneficiary,
            schedule,
            source_balance,
            source_owner,
            signer,
            signer_signed,
        ).0;
        assert(ledger_wf(lv));
        lemma_sum_outstanding_push(ls, lv);
        assert forall|k: int| 0 <= k < rs.len() implies (#[trigger] rs[k].originating_ledger) as int
            != ls.len() as int by {
            assert(crate::accounts::receipt_wf(rs[k], ls.len() as int));
        }
        lemma_live_count_absent(rs, ls.len() as int);
        assert forall|i: int| 0 <= i < s2.ledgers.len() implies ledger_wf(#[trigger] s2.ledgers[i]) by {
            if i < ls.len() {
                assert(s2.ledgers[i] == ls[i]);
            } else {
                assert(s2.ledgers[i] == lv);
            }
        }
        assert forall|i: int|
            0 <= i < s2.ledgers.len() implies (#[trigger] s2.ledgers[i].outstanding_receipt_count)
            as int == crate::totals::live_count(s2.receipts, i) by {
            if i < ls.len() {
                assert(s2.ledgers[i] == ls[i]);
            } else {
                assert(s2.ledgers[i] == lv);
            }
        }
    }
}

/// Whether a schedule is non-empty with strictly increasing unlock times.
pub fn is_valid_schedule(schedule: &Vec<Tranche>) -> (r: bool)
    ensures
        r == schedule_wf(schedule@),
{
    let n = schedule.len();
    if n == 0 {
        return false;
    }
    let mut i: usize = 1;
    while i < n
        invariant
            1 <= i <= n,
            n == schedule.len(),
            forall|p: int, q: int|
                0 <= p < q < i ==> #[trigger] schedule@[p].unlock_time < #[trigger] schedule@[q].unlock_time,
        decreases n - i,
    {
        if schedule[i - 1].unlock_time >= schedule[i].unlock_time {
            return false;
        }
        proof {
            assert forall|p: int| 0 <= p < i implies #[trigger] schedule@[p].unlock_time
                < schedule@[i as int].unlock_time by {
                if p < i - 1 {
                    assert(schedule@[p].unlock_time < schedule@[i - 1].unlock_time);
                }
            }
        }
        i = i + 1;
    }
    true
}

/// The sum of all tranche amounts of a schedule.
pub fn schedule_total(schedule: &Vec<Tranche>) -> (r: u64)
    requires
        sum_amounts(schedule@) <= u64::MAX,
    ensures
        r as int == sum_amounts(schedule@),
{
    let n = schedule.len();
    let mut acc: u64 = 0;
    let mut i: usize = 0;
    while i < n
        invariant
            i <= n,
            n == schedule.len(),
            sum_amounts(schedule@) <= u64::MAX,
            acc as int == sum_amounts(schedule@.take(i as int)),
        decreases n - i,
    {
        proof {
            lemma_sum_amounts_take_succ(schedule@, i as int);
            lemma_sum_amounts_take_le(schedule@, i as int + 1);
            lemma_sum_amounts_nonneg(schedule@.take(i as int));
        }
        acc = acc + schedule[i].amount;
        i = i + 1;
    }
    proof {
        assert(schedule@.take(n as int) =~= schedule@);
    }
    acc
}

/// The pure access-control phase of `Deposit`; reads, never mutates.
pub fn access_control(
    schedule: &Vec<Tranche>,
    source_owner: u64,
    signer: u64,
    signer_signed: bool,
) -> (r: Result<(), ErrorKind>)
    ensures
        r == deposit_check(schedule@, source_owner, signer, signer_signed),
{
    if !signer_signed || signer != source_owner {
        Err(ErrorKind::Unauthorized)
    } else if !is_valid_schedule(schedule) {
        Err(ErrorKind::InvalidSchedule)
    } else {
        Ok(())
    }
}

/// Deposit into a new ledger: access control, then the creation.  Fails,
/// leaving the state untouched, unless the source balance's controller
/// signed and the schedule is valid; on success the host owes the vault a
/// transfer of the whole deposit out of the source balance, and discards
/// the new ledger if that transfer is refused.
pub fn handler(
    state: &mut SafeState,
    beneficiary: u64,
    schedule: Vec<Tranche>,
    source_balance: u64,
    source_owner: u64,
    signer: u64,
    signer_signed: bool,
) -> (r: Result<TransferRequest, ErrorKind>)
    requires
        state_wf(old(state)@),
        old(state)@.registry.initialized,
        schedule_wf(schedule@) ==> old(state)@.registry.total_outstanding_value + sum_amounts(
            schedule@,
        ) <= u64::MAX,
    ensures
        final(state)@ == deposit_step(
            old(state)@,
            beneficiary,
            schedule@,
            source_balance,
            source_owner,
            signer,
            signer_signed,
        ).0,
        r == deposit_step(
            old(state)@,
            beneficiary,
            schedule@,
            source_balance,
            source_owner,
            signer,
            signer_signed,
        ).1,
        state_wf(final(state)@),
{
    let ghost sched = schedule@;
    match access_control(&schedule, source_owner, signer, signer_signed) {
        Err(e) => Err(e),
        Ok(()) => {
            proof {
                lemma_sum_amounts_nonneg(sched);
            }
            let total = schedule_total(&schedule);
            let vault = state.registry.vault;
            let ledger = VestingLedger {
                beneficiary,
                schedule,
                total_deposited: total,
                withdrawn: 0,
                locked_claim_amount: 0,
                outstanding_receipt_count: 0,
            };
            state.ledgers.push(ledger);
            state.registry.total_outstanding_value = state.registry.total_outstanding_value
                + total;
            proof {
                assert(state@ =~~= deposit_step(
                    old(state)@,
                    beneficiary,
                    sched,
                    source_balance,
                    source_owner,
                    signer,
                    signer_signed,
                ).0);
                lemma_deposit_preserves_wf(
                    old(state)@,
                    beneficiary,
                    sched,
                    source_balance,
                    source_owner,
                    signer,
                    signer_signed,
                );
            }
            Ok(TransferRequest::Transfer { from: source_balance, to: vault, amount: total })
        },
    }
}

} // verus!
