//! One input per error variant of the escrow contract.

use marketx::errors::EscrowError;
use marketx::escrow::{Escrow, EscrowInit};
use marketx::fee::MAX_AMOUNT;
use marketx::registry::MarketXEscrow;

const TOKEN: u64 = 7;
const ADMIN: u64 = 1;
const FEE_COLLECTOR: u64 = 2;
const PAYER: u64 = 10;
const PAYEE: u64 = 20;
const ARB: u64 = 30;
const OUTSIDER: u64 = 99;

fn init_params() -> EscrowInit {
    EscrowInit {
        token: TOKEN,
        payers: vec![PAYER],
        payees: vec![PAYEE],
        release_signers: vec![PAYER],
        release_threshold: 1,
        refund_signers: vec![PAYER],
        refund_threshold: 1,
        arbiters: vec![ARB],
        arbiter_threshold: 1,
        auto_release_ts: None,
        expiry_ts: 5000,
    }
}

fn ready_contract() -> MarketXEscrow {
    let mut c = MarketXEscrow::new();
    c.init(ADMIN, 250, FEE_COLLECTOR, vec![ADMIN], 1).unwrap();
    c.create_escrow(1, init_params()).unwrap();
    c
}

#[test]
fn configuration_errors() {
    let mut c = MarketXEscrow::new();
    assert_eq!(c.get_fee_params(), Err(EscrowError::NotInitialized));
    assert_eq!(c.set_fees(ADMIN, 100, FEE_COLLECTOR), Err(EscrowError::NotInitialized));

    assert_eq!(
        c.init(ADMIN, 10_001, FEE_COLLECTOR, vec![ADMIN], 1),
        Err(EscrowError::FeeOutOfRange)
    );
    assert_eq!(
        c.init(ADMIN, 250, FEE_COLLECTOR, vec![ADMIN], 2),
        Err(EscrowError::BadThreshold)
    );
    assert_eq!(
        c.init(ADMIN, 250, FEE_COLLECTOR, vec![ADMIN], 0),
        Err(EscrowError::BadThreshold)
    );

    c.init(ADMIN, 250, FEE_COLLECTOR, vec![ADMIN], 1).unwrap();
    assert_eq!(c.get_fee_params(), Ok((250, FEE_COLLECTOR)));
    assert_eq!(
        c.init(ADMIN, 250, FEE_COLLECTOR, vec![ADMIN], 1),
        Err(EscrowError::AlreadyInitialized)
    );

    assert_eq!(c.set_fees(OUTSIDER, 100, FEE_COLLECTOR), Err(EscrowError::NotAdmin));
    assert_eq!(c.set_fees(ADMIN, 10_001, FEE_COLLECTOR), Err(EscrowError::FeeOutOfRange));
    c.set_fees(ADMIN, 100, FEE_COLLECTOR).unwrap();
    assert_eq!(c.get_fee_params(), Ok((100, FEE_COLLECTOR)));

    assert_eq!(c.set_emergency(OUTSIDER, vec![ADMIN], 1), Err(EscrowError::NotAdmin));
    assert_eq!(c.set_emergency(ADMIN, vec![ADMIN], 2), Err(EscrowError::BadThreshold));
    c.set_emergency(ADMIN, vec![ADMIN, OUTSIDER], 2).unwrap();
}

#[test]
fn creation_errors() {
    let mut c = MarketXEscrow::new();
    c.init(ADMIN, 250, FEE_COLLECTOR, vec![ADMIN], 1).unwrap();

    let mut p = init_params();
    p.release_threshold = 0;
    assert_eq!(c.create_escrow(1, p), Err(EscrowError::BadThreshold));

    let mut p = init_params();
    p.arbiters = vec![];
    assert_eq!(c.create_escrow(1, p), Err(EscrowError::BadThreshold));

    let mut p = init_params();
    p.payees = vec![];
    assert_eq!(c.create_escrow(1, p), Err(EscrowError::EmptyParties));

    c.create_escrow(1, init_params()).unwrap();
    assert_eq!(c.create_escrow(1, init_params()), Err(EscrowError::EscrowExists));
}

#[test]
fn lookup_and_caller_errors() {
    let mut c = ready_contract();
    assert_eq!(c.deposit(2, PAYER, 100), Err(EscrowError::EscrowNotFound));
    assert!(c.get_escrow(2).is_err());

    assert_eq!(c.deposit(1, OUTSIDER, 100), Err(EscrowError::NotPayer));
    assert_eq!(c.open_dispute(1, OUTSIDER), Err(EscrowError::NotParty));
    assert_eq!(
        c.propose_release(1, OUTSIDER, vec![(PAYEE, 10)]),
        Err(EscrowError::NotASigner)
    );
    assert_eq!(c.approve_release(1, OUTSIDER), Err(EscrowError::NotASigner));
    assert_eq!(
        c.emergency_release(1, OUTSIDER, vec![(PAYEE, 10)]),
        Err(EscrowError::NotASigner)
    );
}

#[test]
fn amount_and_total_errors() {
    let mut c = ready_contract();
    assert_eq!(c.deposit(1, PAYER, 0), Err(EscrowError::BadAmount));
    assert_eq!(c.deposit(1, PAYER, -5), Err(EscrowError::BadAmount));

    c.deposit(1, PAYER, 100).unwrap();
    assert_eq!(
        c.propose_release(1, PAYER, vec![(PAYEE, 0)]),
        Err(EscrowError::BadAmount)
    );
    assert_eq!(
        c.propose_release(1, PAYER, vec![]),
        Err(EscrowError::BadTotal)
    );
    assert_eq!(
        c.propose_release(1, PAYER, vec![(PAYEE, 101)]),
        Err(EscrowError::BadTotal)
    );
}

#[test]
fn approval_without_proposal_errors() {
    let mut c = ready_contract();
    c.deposit(1, PAYER, 100).unwrap();
    assert_eq!(c.approve_release(1, PAYER), Err(EscrowError::NoProposal));
    assert_eq!(c.approve_refund(1, PAYER), Err(EscrowError::NoProposal));
}

#[test]
fn time_trigger_errors() {
    let mut c = ready_contract();
    c.deposit(1, PAYER, 100).unwrap();
    // no auto-release timestamp was configured
    assert_eq!(c.auto_release(1, 9_999), Err(EscrowError::NoAutoRelease));
    assert_eq!(c.refund_timeout(1, 4_999), Err(EscrowError::NotExpired));
}

#[test]
fn deposit_overflow_guard() {
    let mut c = ready_contract();
    c.deposit(1, PAYER, MAX_AMOUNT).unwrap();
    assert_eq!(c.deposit(1, PAYER, 1), Err(EscrowError::Overflow));
    assert_eq!(c.get_escrow(1).unwrap().balance, MAX_AMOUNT);
}

#[test]
fn executor_rejects_excess_and_high_fees() {
    // the Distribution Executor re-validates against the live balance
    let mut e = Escrow::from_init(init_params()).unwrap();
    e.deposit(PAYER, 100).unwrap();

    assert_eq!(
        e.execute_distribution(&vec![(PAYEE, 101)], false, 250, FEE_COLLECTOR),
        Err(EscrowError::BadTotal)
    );
    assert_eq!(
        e.execute_distribution(&vec![(PAYEE, -1)], false, 250, FEE_COLLECTOR),
        Err(EscrowError::BadAmount)
    );
    // the defensive fee check at the call site
    assert_eq!(
        e.execute_distribution(&vec![(PAYEE, 100)], false, 20_000, FEE_COLLECTOR),
        Err(EscrowError::FeeTooHigh)
    );
    // nothing above changed the state
    assert_eq!(e.balance, 100);
    let ts = e.execute_distribution(&vec![(PAYEE, 100)], false, 250, FEE_COLLECTOR).unwrap();
    assert_eq!(ts.len(), 2);
    assert_eq!(ts[0].amount, 98);
    assert_eq!(ts[1].amount, 2);
    assert!(e.closed);
}
