//! The escrow's global guarantees, stated and proved over the same spec
//! functions the operations' contracts use.

use vstd::prelude::*;
use crate::escrow::{
    add_unique, distinct_seq, empty_flow, equal_split, quorum_reached, refund_left, sum_of,
    all_positive, EscrowView, FlowKind, FlowView,
};
use crate::fee::MAX_AMOUNT;

verus! {

/// Conservation: in every well-formed escrow the balance is exactly what was
/// ever deposited minus what was ever distributed, and it is never negative.
/// Every operation's contract preserves well-formedness and moves the two
/// totals only by the amount it credits or debits, so this holds across any
/// sequence of deposits and executed distributions.
pub proof fn lemma_conservation(e: EscrowView)
    requires
        e.wf(),
    ensures
        e.balance as int == e.deposited - e.distributed,
        e.balance >= 0,
        e.deposited == sum_of(e.deposits),
        e.balance as int <= sum_of(e.deposits),
{
}

/// Idempotent approval: recording a signer that is already in the approval
/// set changes nothing, so approving twice with the same signer before
/// quorum leaves the set — and in particular its size — unchanged.
pub proof fn lemma_approval_idempotent(s: Seq<u64>, x: u64)
    ensures
        add_unique(add_unique(s, x), x) == add_unique(s, x),
        add_unique(add_unique(s, x), x).len() == add_unique(s, x).len(),
{
    assert(add_unique(s, x).contains(x)) by {
        if !s.contains(x) {
            assert(s.push(x)[s.len() as int] == x);
        }
    }
}

/// Each approval grows a distinct set by at most one, and keeps it
/// distinct: the n-th distinct qualifying approval is what moves the count
/// to n.
pub proof fn lemma_approval_counts(s: Seq<u64>, x: u64)
    requires
        distinct_seq(s),
    ensures
        distinct_seq(add_unique(s, x)),
        add_unique(s, x).len() == if s.contains(x) { s.len() } else { s.len() + 1 },
        add_unique(s, x).contains(x),
{
    if !s.contains(x) {
        assert(s.push(x)[s.len() as int] == x);
        assert forall|i: int, j: int| 0 <= i < j < s.push(x).len()
            implies s.push(x)[i] != s.push(x)[j] by {
            if j < s.len() {
                assert(s[i] != s[j]);
            } else {
                assert(s.push(x)[j] == x);
                assert(s.push(x)[i] == s[i]);
                assert(s.contains(s[i])) by {
                    assert(s[i] == s[i]);
                }
            }
        }
    }
}

/// Quorum exactness, first half: an approval on flow `k` executes precisely
/// when the set it lands in reaches the threshold — that is, with the n-th
/// distinct qualifying approval where n is the threshold.
pub proof fn lemma_quorum_fires_at_threshold(s: Seq<u64>, x: u64, t: u32)
    requires
        distinct_seq(s),
    ensures
        quorum_reached(s, x, t) <==> (if s.contains(x) { s.len() } else { s.len() + 1 }) >= t,
{
    lemma_approval_counts(s, x);
}

/// Quorum exactness, second half: execution consumes the proposal and the
/// approval set as one step, so on the state it leaves behind the same flow
/// holds no proposal and no approvals — a later approval is rejected,
/// whatever signer brings it, until a new proposal is stored.  A proposal
/// therefore executes at most once.
pub proof fn lemma_quorum_consumed(pre: EscrowView, k: FlowKind, total: int)
    ensures
        pre.with_flow(k, empty_flow()).execute_effect(total).flow(k).proposal is None,
        pre.with_flow(k, empty_flow()).execute_effect(total).flow(k).approvals.len() == 0,
        forall|signer: u64, fee_bps: int|
            #[trigger] pre.with_flow(k, empty_flow()).execute_effect(total)
                .approve_err(k, signer, fee_bps) is Some,
{
    let post = pre.with_flow(k, empty_flow()).execute_effect(total);
    assert(post.flow(k) == empty_flow());
    assert forall|signer: u64, fee_bps: int|
        #[trigger] post.approve_err(k, signer, fee_bps) is Some by {
        if post.approve_err(k, signer, fee_bps) is None {
            assert(post.flow(k).proposal is None);
        }
    }
}

/// The auto-release split sums exactly to the balance, with the remainder
/// handed one unit each to the earliest payees, so with balance 1000 over
/// two payees each receives 500, and with 1001 the first receives 501.
pub proof fn lemma_auto_release_split(payees: Seq<u64>, balance: int)
    requires
        payees.len() > 0,
        0 <= balance <= MAX_AMOUNT as int,
    ensures
        equal_split(payees, balance).len() == payees.len(),
        sum_of(equal_split(payees, balance)) == balance,
        forall|i: int| 0 <= i < payees.len()
            ==> (#[trigger] equal_split(payees, balance)[i]).1 as int
                == balance / payees.len() as int
                    + if i < balance % payees.len() as int { 1 as int } else { 0 },
{
    crate::escrow::lemma_equal_split_total(payees, balance);
    vstd::arithmetic::div_mod::lemma_div_pos_is_pos(balance, payees.len() as int);
    vstd::arithmetic::div_mod::lemma_div_is_ordered(balance, MAX_AMOUNT as int, payees.len() as int);
    vstd::arithmetic::div_mod::lemma_div_nonincreasing(MAX_AMOUNT as int, payees.len() as int);
    vstd::arithmetic::div_mod::lemma_mod_division_less_than_divisor(balance, payees.len() as int);
}

/// A timed-out refund exhausts the whole balance whenever the recorded
/// deposits cover it — which conservation guarantees — so the escrow always
/// closes at balance zero.
pub proof fn lemma_refund_timeout_closes(deposits: Seq<(u64, i128)>, balance: int)
    requires
        all_positive(deposits),
        0 <= balance <= sum_of(deposits),
    ensures
        refund_left(deposits, balance) == 0,
{
    crate::escrow::lemma_refund_exhausts(deposits, balance);
}

} // verus!
