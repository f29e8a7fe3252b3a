//! Scenario tests for the escrow's guarantees: conservation, quorum
//! exactness, idempotent approval, membership enforcement, dispute gating,
//! the timeout scenario, and the equal-split rule.

use marketx::errors::EscrowError;
use marketx::escrow::{EscrowInit, Transfer};
use marketx::registry::MarketXEscrow;

const TOKEN: u64 = 7;
const ADMIN: u64 = 1;
const FEE_COLLECTOR: u64 = 2;
const PAYER1: u64 = 10;
const PAYER2: u64 = 11;
const PAYEE1: u64 = 20;
const PAYEE2: u64 = 21;
const ARB1: u64 = 30;
const OUTSIDER: u64 = 99;

fn two_party_init(auto_release_ts: Option<u64>, expiry_ts: u64) -> EscrowInit {
    EscrowInit {
        token: TOKEN,
        payers: vec![PAYER1, PAYER2],
        payees: vec![PAYEE1, PAYEE2],
        release_signers: vec![PAYER1, PAYER2],
        release_threshold: 2,
        refund_signers: vec![PAYER1, PAYER2],
        refund_threshold: 2,
        arbiters: vec![ARB1],
        arbiter_threshold: 1,
        auto_release_ts,
        expiry_ts,
    }
}

fn contract_with_escrow(fee_bps: u32) -> MarketXEscrow {
    let mut c = MarketXEscrow::new();
    c.init(ADMIN, fee_bps, FEE_COLLECTOR, vec![ADMIN], 1).unwrap();
    c.create_escrow(1, two_party_init(None, 10_000)).unwrap();
    c
}

#[test]
fn conservation_across_operations() {
    // balance always equals deposits in minus distribution totals out
    let mut c = contract_with_escrow(0);
    c.deposit(1, PAYER1, 600).unwrap();
    c.deposit(1, PAYER2, 400).unwrap();
    assert_eq!(c.get_escrow(1).unwrap().balance, 600 + 400);

    c.propose_release(1, PAYER1, vec![(PAYEE1, 300)]).unwrap();
    let ts = c.approve_release(1, PAYER2).unwrap().unwrap();
    let paid: i128 = ts.iter().map(|t| t.amount).sum();
    assert_eq!(paid, 300);
    assert_eq!(c.get_escrow(1).unwrap().balance, 600 + 400 - 300);

    c.deposit(1, PAYER1, 50).unwrap();
    assert_eq!(c.get_escrow(1).unwrap().balance, 600 + 400 - 300 + 50);
    assert!(c.get_escrow(1).unwrap().balance >= 0);
}

#[test]
fn quorum_executes_exactly_at_threshold() {
    let mut c = contract_with_escrow(0);
    c.deposit(1, PAYER1, 500).unwrap();

    c.propose_release(1, PAYER1, vec![(PAYEE1, 200)]).unwrap();
    // the proposer is the first of two needed approvals: nothing executes yet
    assert_eq!(c.get_escrow(1).unwrap().release.approvals.len(), 1);

    // the second distinct approval is the threshold: it executes
    let ts = c.approve_release(1, PAYER2).unwrap();
    assert!(ts.is_some());

    // the proposal was consumed with the quorum: approving again finds nothing
    assert_eq!(c.approve_release(1, PAYER1), Err(EscrowError::NoProposal));
    assert_eq!(c.approve_release(1, PAYER2), Err(EscrowError::NoProposal));
    assert_eq!(c.get_escrow(1).unwrap().balance, 300);
}

#[test]
fn approval_is_idempotent_before_quorum() {
    let mut c = contract_with_escrow(0);
    c.deposit(1, PAYER1, 500).unwrap();
    c.propose_release(1, PAYER1, vec![(PAYEE1, 200)]).unwrap();

    // the proposer re-signs: no error, no effect, no execution
    let r = c.approve_release(1, PAYER1).unwrap();
    assert!(r.is_none());
    assert_eq!(c.get_escrow(1).unwrap().release.approvals.len(), 1);

    let r = c.approve_release(1, PAYER1).unwrap();
    assert!(r.is_none());
    assert_eq!(c.get_escrow(1).unwrap().release.approvals.len(), 1);
}

#[test]
fn release_to_outsider_is_rejected() {
    let mut c = contract_with_escrow(0);
    c.deposit(1, PAYER1, 500).unwrap();

    let r = c.propose_release(1, PAYER1, vec![(PAYEE1, 100), (OUTSIDER, 100)]);
    assert_eq!(r, Err(EscrowError::BadPayee));
    // no state change: no proposal was stored
    assert!(c.get_escrow(1).unwrap().release.proposal.is_none());
    assert_eq!(c.get_escrow(1).unwrap().balance, 500);

    // the refund side enforces payer membership the same way
    let r = c.propose_refund(1, PAYER1, vec![(PAYEE1, 100)]);
    assert_eq!(r, Err(EscrowError::BadPayer));
}

#[test]
fn dispute_gates_ordinary_and_arbiter_flows() {
    let mut c = contract_with_escrow(0);
    c.deposit(1, PAYER1, 500).unwrap();

    // an arbiter cannot act while the escrow is undisputed
    let r = c.arbiter_release(1, ARB1, vec![(PAYEE1, 100)]);
    assert_eq!(r, Err(EscrowError::NotDisputed));

    c.open_dispute(1, PAYER1).unwrap();

    // ordinary flows are blocked while disputed
    assert_eq!(
        c.propose_release(1, PAYER1, vec![(PAYEE1, 100)]),
        Err(EscrowError::EscrowDisputed)
    );
    assert_eq!(
        c.propose_refund(1, PAYER1, vec![(PAYER1, 100)]),
        Err(EscrowError::EscrowDisputed)
    );

    // the arbiter flow is now legal, and full resolution clears the dispute
    let ts = c.arbiter_refund(1, ARB1, vec![(PAYER1, 500)]).unwrap().unwrap();
    assert_eq!(ts, vec![Transfer { to: PAYER1, amount: 500 }]);
    assert!(c.get_escrow(1).unwrap().closed);
    assert!(!c.get_escrow(1).unwrap().disputed);
}

#[test]
fn refund_timeout_scenario() {
    let mut c = MarketXEscrow::new();
    c.init(ADMIN, 250, FEE_COLLECTOR, vec![ADMIN], 1).unwrap();
    c.create_escrow(5, two_party_init(None, 2000)).unwrap();

    // a single payer deposits 600 at time 1000
    c.deposit(5, PAYER1, 600).unwrap();

    // before the expiry the timeout is rejected with no state change
    assert_eq!(c.refund_timeout(5, 1000), Err(EscrowError::NotExpired));
    assert_eq!(c.refund_timeout(5, 1999), Err(EscrowError::NotExpired));
    assert_eq!(c.get_escrow(5).unwrap().balance, 600);
    assert!(!c.get_escrow(5).unwrap().closed);

    // at the expiry it refunds exactly the deposit, gross, and closes
    let ts = c.refund_timeout(5, 2000).unwrap();
    assert_eq!(ts, vec![Transfer { to: PAYER1, amount: 600 }]);
    assert_eq!(c.get_escrow(5).unwrap().balance, 0);
    assert!(c.get_escrow(5).unwrap().closed);
}

#[test]
fn refund_timeout_caps_at_remaining_balance() {
    // a release in between leaves the balance below the recorded deposits:
    // refunds run in deposit order and stop at the remaining balance
    let mut c = contract_with_escrow(0);
    c.deposit(1, PAYER1, 600).unwrap();
    c.deposit(1, PAYER2, 400).unwrap();
    c.propose_release(1, PAYER1, vec![(PAYEE1, 700)]).unwrap();
    c.approve_release(1, PAYER2).unwrap().unwrap();
    assert_eq!(c.get_escrow(1).unwrap().balance, 300);

    let ts = c.refund_timeout(1, 10_000).unwrap();
    assert_eq!(ts, vec![Transfer { to: PAYER1, amount: 300 }]);
    assert!(c.get_escrow(1).unwrap().closed);
}

#[test]
fn auto_release_equal_split() {
    let mut c = MarketXEscrow::new();
    c.init(ADMIN, 0, FEE_COLLECTOR, vec![ADMIN], 1).unwrap();
    c.create_escrow(6, two_party_init(Some(1500), 9000)).unwrap();
    c.deposit(6, PAYER1, 1000).unwrap();

    assert_eq!(c.auto_release(6, 1499), Err(EscrowError::TooEarly));

    let ts = c.auto_release(6, 1500).unwrap();
    assert_eq!(
        ts,
        vec![
            Transfer { to: PAYEE1, amount: 500 },
            Transfer { to: PAYEE2, amount: 500 },
        ]
    );
    assert!(c.get_escrow(6).unwrap().closed);
}

#[test]
fn auto_release_odd_balance_remainder_goes_to_earliest() {
    let mut c = MarketXEscrow::new();
    c.init(ADMIN, 0, FEE_COLLECTOR, vec![ADMIN], 1).unwrap();
    c.create_escrow(7, two_party_init(Some(1500), 9000)).unwrap();
    c.deposit(7, PAYER1, 1001).unwrap();

    let ts = c.auto_release(7, 2000).unwrap();
    assert_eq!(
        ts,
        vec![
            Transfer { to: PAYEE1, amount: 501 },
            Transfer { to: PAYEE2, amount: 500 },
        ]
    );
}

#[test]
fn superseding_proposal_resets_approvals() {
    let mut c = contract_with_escrow(0);
    c.deposit(1, PAYER1, 500).unwrap();

    c.propose_release(1, PAYER1, vec![(PAYEE1, 100)]).unwrap();
    assert_eq!(c.get_escrow(1).unwrap().release.approvals, vec![PAYER1]);

    // a new proposal discards the old one and its approvals
    c.propose_release(1, PAYER2, vec![(PAYEE2, 200)]).unwrap();
    assert_eq!(c.get_escrow(1).unwrap().release.approvals, vec![PAYER2]);

    // the stored distribution is the new one: executing pays payee2
    let ts = c.approve_release(1, PAYER1).unwrap().unwrap();
    assert_eq!(ts, vec![Transfer { to: PAYEE2, amount: 200 }]);
}

#[test]
fn deposits_accumulate_per_payer() {
    let mut c = contract_with_escrow(0);
    c.deposit(1, PAYER1, 100).unwrap();
    c.deposit(1, PAYER2, 50).unwrap();
    c.deposit(1, PAYER1, 25).unwrap();

    let e = c.get_escrow(1).unwrap();
    assert_eq!(e.deposits, vec![(PAYER1, 125), (PAYER2, 50)]);
    assert_eq!(e.balance, 175);
}

#[test]
fn closed_escrow_rejects_every_mutation() {
    let mut c = contract_with_escrow(0);
    c.deposit(1, PAYER1, 100).unwrap();
    c.propose_release(1, PAYER1, vec![(PAYEE1, 100)]).unwrap();
    c.approve_release(1, PAYER2).unwrap().unwrap();
    assert!(c.get_escrow(1).unwrap().closed);

    assert_eq!(c.deposit(1, PAYER1, 10), Err(EscrowError::EscrowClosed));
    assert_eq!(c.open_dispute(1, PAYER1), Err(EscrowError::EscrowClosed));
    assert_eq!(
        c.propose_release(1, PAYER1, vec![(PAYEE1, 10)]),
        Err(EscrowError::EscrowClosed)
    );
    assert_eq!(c.refund_timeout(1, 99_999), Err(EscrowError::EscrowClosed));
    assert_eq!(c.auto_release(1, 99_999), Err(EscrowError::EscrowClosed));
}

#[test]
fn emergency_flow_ignores_disputes() {
    let mut c = MarketXEscrow::new();
    c.init(ADMIN, 0, FEE_COLLECTOR, vec![ADMIN, OUTSIDER], 2).unwrap();
    c.create_escrow(1, two_party_init(None, 10_000)).unwrap();
    c.deposit(1, PAYER1, 500).unwrap();
    c.open_dispute(1, PAYER2).unwrap();

    // while disputed, the emergency admins can still act, one vote at a time
    let dists = vec![(PAYEE1, 500)];
    assert!(c.emergency_release(1, ADMIN, dists.clone()).unwrap().is_none());
    let ts = c.emergency_release(1, OUTSIDER, dists).unwrap().unwrap();
    assert_eq!(ts, vec![Transfer { to: PAYEE1, amount: 500 }]);
    assert!(c.get_escrow(1).unwrap().closed);
    // unlike arbiter closure, an emergency closure leaves the dispute flag
    assert!(c.get_escrow(1).unwrap().disputed);
}

#[test]
fn arbiter_votes_count_only_for_matching_distributions() {
    let mut c = MarketXEscrow::new();
    c.init(ADMIN, 0, FEE_COLLECTOR, vec![ADMIN], 1).unwrap();
    let mut p = two_party_init(None, 10_000);
    p.arbiters = vec![ARB1, OUTSIDER];
    p.arbiter_threshold = 2;
    c.create_escrow(1, p).unwrap();
    c.deposit(1, PAYER1, 500).unwrap();
    c.open_dispute(1, PAYER1).unwrap();

    // the first arbiter proposes one resolution
    assert!(c.arbiter_release(1, ARB1, vec![(PAYEE1, 400)]).unwrap().is_none());
    // the second proposes a different one: it supersedes, carrying no old vote
    assert!(c.arbiter_release(1, OUTSIDER, vec![(PAYEE1, 300)]).unwrap().is_none());
    assert_eq!(c.get_escrow(1).unwrap().arbiter.approvals, vec![OUTSIDER]);

    // agreement on the live distribution reaches the quorum of two
    let ts = c.arbiter_release(1, ARB1, vec![(PAYEE1, 300)]).unwrap().unwrap();
    assert_eq!(ts, vec![Transfer { to: PAYEE1, amount: 300 }]);
    assert_eq!(c.get_escrow(1).unwrap().balance, 200);
    // a partial resolution leaves the dispute standing
    assert!(c.get_escrow(1).unwrap().disputed);
}

#[test]
fn refund_quorum_pays_gross() {
    let mut c = contract_with_escrow(250);
    c.deposit(1, PAYER1, 400).unwrap();

    c.propose_refund(1, PAYER1, vec![(PAYER1, 400)]).unwrap();
    let ts = c.approve_refund(1, PAYER2).unwrap().unwrap();
    // refunds carry no fee even at a nonzero rate
    assert_eq!(ts, vec![Transfer { to: PAYER1, amount: 400 }]);
    assert!(c.get_escrow(1).unwrap().closed);
}
