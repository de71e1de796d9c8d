//! Sums and counts over the records, and the lemmas the transitions use to
//! maintain the deployment-wide invariant.

use vstd::prelude::*;

use crate::accounts::{LedgerView, Receipt, Tranche};

verus! {

/// The sum of all tranche amounts of a schedule.
pub open spec fn sum_amounts(s: Seq<Tranche>) -> int
    decreases s.len(),
{
    if s.len() == 0 {
        0
    } else {
        sum_amounts(s.drop_last()) + s.last().amount
    }
}

/// The sum of the tranche amounts whose unlock time has passed at `now`.
pub open spec fn unlocked_amount(s: Seq<Tranche>, now: u64) -> int
    decreases s.len(),
{
    if s.len() == 0 {
        0
    } else {
        unlocked_amount(s.drop_last(), now) + (if s.last().unlock_time <= now {
            s.last().amount as int
        } else {
            0
        })
    }
}

/// The value a ledger still custodies on its depositor's behalf.
pub open spec fn outstanding_of(l: LedgerView) -> int {
    l.total_deposited - l.withdrawn
}

/// The sum of the ledgers' outstanding value; the registry's aggregate
/// mirrors it.
pub open spec fn sum_outstanding(ls: Seq<LedgerView>) -> int
    decreases ls.len(),
{
    if ls.len() == 0 {
        0
    } else {
        sum_outstanding(ls.drop_last()) + outstanding_of(ls.last())
    }
}

/// The sum of the ledgers' deposits.
pub open spec fn sum_deposited(ls: Seq<LedgerView>) -> int
    decreases ls.len(),
{
    if ls.len() == 0 {
        0
    } else {
        sum_deposited(ls.drop_last()) + ls.last().total_deposited
    }
}

/// The sum, over the ledgers, of what was withdrawn plus what outstanding
/// receipts claim.
pub open spec fn sum_withdrawn_locked(ls: Seq<LedgerView>) -> int
    decreases ls.len(),
{
    if ls.len() == 0 {
        0
    } else {
        sum_withdrawn_locked(ls.drop_last()) + ls.last().withdrawn + ls.last().locked_claim_amount
    }
}

/// A receipt that was minted and not yet burned.
pub open spec fn is_live(r: Receipt) -> bool {
    r.initialized && !r.burned
}

/// One if `r` is a live receipt of ledger `j`, else zero.
pub open spec fn live_contrib(r: Receipt, j: int) -> int {
    if is_live(r) && r.originating_ledger as int == j {
        1
    } else {
        0
    }
}

/// One if `r` was minted against ledger `j`, else zero.
pub open spec fn minted_contrib(r: Receipt, j: int) -> int {
    if r.initialized && r.originating_ledger as int == j {
        1
    } else {
        0
    }
}

/// One if `r` was minted against ledger `j` and burned, else zero.
pub open spec fn burned_contrib(r: Receipt, j: int) -> int {
    if r.initialized && r.burned && r.originating_ledger as int == j {
        1
    } else {
        0
    }
}

/// The number of live receipts minted against ledger `j`.
pub open spec fn live_count(rs: Seq<Receipt>, j: int) -> int
    decreases rs.len(),
{
    if rs.len() == 0 {
        0
    } else {
        live_count(rs.drop_last(), j) + live_contrib(rs.last(), j)
    }
}

/// The number of receipts ever minted against ledger `j`; receipts are
/// never destroyed, only latched as burned.
pub open spec fn minted_count(rs: Seq<Receipt>, j: int) -> int
    decreases rs.len(),
{
    if rs.len() == 0 {
        0
    } else {
        minted_count(rs.drop_last(), j) + minted_contrib(rs.last(), j)
    }
}

/// The number of receipts minted against ledger `j` and burned.
pub open spec fn burned_count(rs: Seq<Receipt>, j: int) -> int
    decreases rs.len(),
{
    if rs.len() == 0 {
        0
    } else {
        burned_count(rs.drop_last(), j) + burned_contrib(rs.last(), j)
    }
}

pub proof fn lemma_sum_amounts_nonneg(s: Seq<Tranche>)
    ensures
        sum_amounts(s) >= 0,
    decreases s.len(),
{
    if s.len() > 0 {
        lemma_sum_amounts_nonneg(s.drop_last());
    }
}

pub proof fn lemma_unlocked_bounds(s: Seq<Tranche>, now: u64)
    ensures
        0 <= unlocked_amount(s, now),
        unlocked_amount(s, now) <= sum_amounts(s),
    decreases s.len(),
{
    if s.len() > 0 {
        lemma_unlocked_bounds(s.drop_last(), now);
    }
}

pub proof fn lemma_sum_amounts_take_succ(s: Seq<Tranche>, i: int)
    requires
        0 <= i < s.len(),
    ensures
        sum_amounts(s.take(i + 1)) == sum_amounts(s.take(i)) + s[i].amount,
{
    let t = s.take(i + 1);
    assert(t.drop_last() =~= s.take(i));
    assert(t.last() == s[i]);
}

pub proof fn lemma_unlocked_take_succ(s: Seq<Tranche>, now: u64, i: int)
    requires
        0 <= i < s.len(),
    ensures
        unlocked_amount(s.take(i + 1), now) == unlocked_amount(s.take(i), now) + (if s[i].unlock_time
            <= now {
            s[i].amount as int
        } else {
            0
        }),
{
    let t = s.take(i + 1);
    assert(t.drop_last() =~= s.take(i));
    assert(t.last() == s[i]);
}

pub proof fn lemma_sum_amounts_take_le(s: Seq<Tranche>, i: int)
    requires
        0 <= i <= s.len(),
    ensures
        sum_amounts(s.take(i)) <= sum_amounts(s),
    decreases s.len() - i,
{
    if i == s.len() {
        assert(s.take(i) =~= s);
    } else {
        lemma_sum_amounts_take_succ(s, i);
        lemma_sum_amounts_take_le(s, i + 1);
    }
}

pub proof fn lemma_sum_outstanding_push(ls: Seq<LedgerView>, l: LedgerView)
    ensures
        sum_outstanding(ls.push(l)) == sum_outstanding(ls) + outstanding_of(l),
{
    assert(ls.push(l).drop_last() =~= ls);
    assert(ls.push(l).last() == l);
}

pub proof fn lemma_sum_outstanding_update(ls: Seq<LedgerView>, k: int, l2: LedgerView)
    requires
        0 <= k < ls.len(),
    ensures
        sum_outstanding(ls.update(k, l2)) == sum_outstanding(ls) - outstanding_of(ls[k])
            + outstanding_of(l2),
    decreases ls.len(),
{
    let u = ls.update(k, l2);
    if k == ls.len() - 1 {
        assert(u.drop_last() =~= ls.drop_last());
        assert(u.last() == l2);
    } else {
        assert(u.drop_last() =~= ls.drop_last().update(k, l2));
        assert(u.last() == ls.last());
        lemma_sum_outstanding_update(ls.drop_last(), k, l2);
        assert(ls.drop_last()[k] == ls[k]);
    }
}

pub proof fn lemma_sum_outstanding_nonneg(ls: Seq<LedgerView>)
    requires
        forall|i: int| 0 <= i < ls.len() ==> outstanding_of(#[trigger] ls[i]) >= 0,
    ensures
        sum_outstanding(ls) >= 0,
    decreases ls.len(),
{
    if ls.len() > 0 {
        assert forall|i: int| 0 <= i < ls.drop_last().len() implies outstanding_of(
            #[trigger] ls.drop_last()[i],
        ) >= 0 by {
            assert(ls.drop_last()[i] == ls[i]);
        }
        lemma_sum_outstanding_nonneg(ls.drop_last());
        assert(outstanding_of(ls.last()) >= 0) by {
            assert(ls.last() == ls[ls.len() - 1]);
        }
    }
}

pub proof fn lemma_sum_outstanding_element(ls: Seq<LedgerView>, k: int)
    requires
        0 <= k < ls.len(),
        forall|i: int| 0 <= i < ls.len() ==> outstanding_of(#[trigger] ls[i]) >= 0,
    ensures
        sum_outstanding(ls) >= outstanding_of(ls[k]),
    decreases ls.len(),
{
    assert forall|i: int| 0 <= i < ls.drop_last().len() implies outstanding_of(
        #[trigger] ls.drop_last()[i],
    ) >= 0 by {
        assert(ls.drop_last()[i] == ls[i]);
    }
    if k == ls.len() - 1 {
        lemma_sum_outstanding_nonneg(ls.drop_last());
        assert(ls.last() == ls[k]);
    } else {
        lemma_sum_outstanding_element(ls.drop_last(), k);
        assert(ls.drop_last()[k] == ls[k]);
        assert(outstanding_of(ls.last()) >= 0) by {
            assert(ls.last() == ls[ls.len() - 1]);
        }
    }
}

pub proof fn lemma_sum_withdrawn_locked_le(ls: Seq<LedgerView>)
    requires
        forall|i: int|
            0 <= i < ls.len() ==> (#[trigger] ls[i].withdrawn) + ls[i].locked_claim_amount
                <= ls[i].total_deposited,
    ensures
        0 <= sum_withdrawn_locked(ls),
        sum_withdrawn_locked(ls) <= sum_deposited(ls),
    decreases ls.len(),
{
    if ls.len() > 0 {
        assert forall|i: int| 0 <= i < ls.drop_last().len() implies (
        #[trigger] ls.drop_last()[i].withdrawn) + ls.drop_last()[i].locked_claim_amount
            <= ls.drop_last()[i].total_deposited by {
            assert(ls.drop_last()[i] == ls[i]);
        }
        lemma_sum_withdrawn_locked_le(ls.drop_last());
        assert(ls.last() == ls[ls.len() - 1]);
    }
}

pub proof fn lemma_live_count_nonneg(rs: Seq<Receipt>, j: int)
    ensures
        live_count(rs, j) >= 0,
    decreases rs.len(),
{
    if rs.len() > 0 {
        lemma_live_count_nonneg(rs.drop_last(), j);
    }
}

pub proof fn lemma_live_count_push(rs: Seq<Receipt>, r: Receipt, j: int)
    ensures
        live_count(rs.push(r), j) == live_count(rs, j) + live_contrib(r, j),
{
    assert(rs.push(r).drop_last() =~= rs);
    assert(rs.push(r).last() == r);
}

pub proof fn lemma_live_count_update(rs: Seq<Receipt>, k: int, r2: Receipt, j: int)
    requires
        0 <= k < rs.len(),
    ensures
        live_count(rs.update(k, r2), j) == live_count(rs, j) - live_contrib(rs[k], j)
            + live_contrib(r2, j),
    decreases rs.len(),
{
    let u = rs.update(k, r2);
    if k == rs.len() - 1 {
        assert(u.drop_last() =~= rs.drop_last());
        assert(u.last() == r2);
    } else {
        assert(u.drop_last() =~= rs.drop_last().update(k, r2));
        assert(u.last() == rs.last());
        lemma_live_count_update(rs.drop_last(), k, r2, j);
        assert(rs.drop_last()[k] == rs[k]);
    }
}

pub proof fn lemma_live_count_element(rs: Seq<Receipt>, k: int, j: int)
    requires
        0 <= k < rs.len(),
        is_live(rs[k]),
        rs[k].originating_ledger as int == j,
    ensures
        live_count(rs, j) >= 1,
    decreases rs.len(),
{
    if k == rs.len() - 1 {
        lemma_live_count_nonneg(rs.drop_last(), j);
        assert(rs.last() == rs[k]);
    } else {
        lemma_live_count_element(rs.drop_last(), k, j);
        assert(rs.drop_last()[k] == rs[k]);
        assert(live_contrib(rs.last(), j) >= 0);
    }
}

pub proof fn lemma_live_count_absent(rs: Seq<Receipt>, j: int)
    requires
        forall|k: int| 0 <= k < rs.len() ==> (#[trigger] rs[k].originating_ledger) as int != j,
    ensures
        live_count(rs, j) == 0,
    decreases rs.len(),
{
    if rs.len() > 0 {
        assert forall|k: int| 0 <= k < rs.drop_last().len() implies (
        #[trigger] rs.drop_last()[k].originating_ledger) as int != j by {
            assert(rs.drop_last()[k] == rs[k]);
        }
        lemma_live_count_absent(rs.drop_last(), j);
        assert(rs.last() == rs[rs.len() - 1]);
    }
}

pub proof fn lemma_live_minted_burned(rs: Seq<Receipt>, j: int)
    ensures
        live_count(rs, j) == minted_count(rs, j) - burned_count(rs, j),
    decreases rs.len(),
{
    if rs.len() > 0 {
        lemma_live_minted_burned(rs.drop_last(), j);
    }
}

} // verus!
