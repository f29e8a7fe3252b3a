//! The two end-to-end contract walks: quorum release with fees, arbiter
//! resolution, emergency recovery, and the two time triggers.

use marketx::escrow::{EscrowInit, Transfer};
use marketx::registry::MarketXEscrow;

/// A toy token ledger: balances by party, credited by the transfer
/// commands the library returns.
fn apply(ledger: &mut Vec<(u64, i128)>, transfers: &[Transfer]) {
    for t in transfers {
        let mut found = false;
        for e in ledger.iter_mut() {
            if e.0 == t.to {
                e.1 += t.amount;
                found = true;
                break;
            }
        }
        if !found {
            ledger.push((t.to, t.amount));
        }
    }
}

fn balance_of(ledger: &Vec<(u64, i128)>, who: u64) -> i128 {
    ledger.iter().find(|e| e.0 == who).map(|e| e.1).unwrap_or(0)
}

const TOKEN: u64 = 7;
const ADMIN: u64 = 1;
const FEE_COLLECTOR: u64 = 2;
const EMERGENCY1: u64 = 3;
const EMERGENCY2: u64 = 4;
const PAYER1: u64 = 10;
const PAYER2: u64 = 11;
const PAYEE1: u64 = 20;
const PAYEE2: u64 = 21;
const ARB1: u64 = 30;
const ARB2: u64 = 31;

#[test]
fn test_full_flow() {
    let mut c = MarketXEscrow::new();
    c.init(ADMIN, 250, FEE_COLLECTOR, vec![EMERGENCY1, EMERGENCY2], 2).unwrap();

    let mut ledger: Vec<(u64, i128)> = Vec::new();

    c.create_escrow(
        1u128,
        EscrowInit {
            token: TOKEN,
            payers: vec![PAYER1, PAYER2],
            payees: vec![PAYEE1, PAYEE2],
            release_signers: vec![PAYER1, PAYER2],
            release_threshold: 2,
            refund_signers: vec![PAYER1, PAYER2],
            refund_threshold: 1,
            arbiters: vec![ARB1, ARB2],
            arbiter_threshold: 2,
            auto_release_ts: Some(2000),
            expiry_ts: 3000,
        },
    )
    .unwrap();

    c.deposit(1, PAYER1, 600).unwrap();
    c.deposit(1, PAYER2, 400).unwrap();
    assert_eq!(c.get_escrow(1).unwrap().balance, 1000);

    // propose a partial release: 300 to payee1 and 100 to payee2
    c.propose_release(1, PAYER1, vec![(PAYEE1, 300), (PAYEE2, 100)]).unwrap();
    let ts = c.approve_release(1, PAYER2).unwrap().expect("quorum of two reached");
    apply(&mut ledger, &ts);

    // 2.5% fee on each entry: net 293 and 98, fees 7 + 2 = 9 to the collector
    assert_eq!(balance_of(&ledger, PAYEE1), 293);
    assert_eq!(balance_of(&ledger, PAYEE2), 98);
    assert_eq!(balance_of(&ledger, FEE_COLLECTOR), 9);
    assert_eq!(c.get_escrow(1).unwrap().balance, 600);

    // a payer raises a dispute; arbiters resolve by releasing 250 each
    c.open_dispute(1, PAYER1).unwrap();

    let arb_d = vec![(PAYEE1, 250), (PAYEE2, 250)];
    assert!(c.arbiter_release(1, ARB1, arb_d.clone()).unwrap().is_none());
    let ts = c.arbiter_release(1, ARB2, arb_d).unwrap().expect("second arbiter reaches quorum");
    apply(&mut ledger, &ts);

    // 2.5% of 250 floors to 6: net 244 each, fees 12
    assert_eq!(balance_of(&ledger, PAYEE1), 293 + 244);
    assert_eq!(balance_of(&ledger, PAYEE2), 98 + 244);
    assert_eq!(balance_of(&ledger, FEE_COLLECTOR), 9 + 12);
    assert_eq!(c.get_escrow(1).unwrap().balance, 100);

    // emergency admins release the last 100 to payee1
    let last = vec![(PAYEE1, 100)];
    assert!(c.emergency_release(1, EMERGENCY1, last.clone()).unwrap().is_none());
    let ts = c.emergency_release(1, EMERGENCY2, last).unwrap().expect("second admin reaches quorum");
    apply(&mut ledger, &ts);

    // fee 2, net 98
    assert_eq!(balance_of(&ledger, PAYEE1), 293 + 244 + 98);
    assert_eq!(balance_of(&ledger, FEE_COLLECTOR), 9 + 12 + 2);

    assert!(c.get_escrow(1).unwrap().closed);
}

#[test]
fn test_timeout_and_auto_release() {
    let mut c = MarketXEscrow::new();
    c.init(ADMIN, 0, FEE_COLLECTOR, vec![EMERGENCY1], 1).unwrap();

    let mut ledger: Vec<(u64, i128)> = Vec::new();

    c.create_escrow(
        2u128,
        EscrowInit {
            token: TOKEN,
            payers: vec![PAYER1],
            payees: vec![PAYEE1, PAYEE2],
            release_signers: vec![PAYER1],
            release_threshold: 1,
            refund_signers: vec![PAYER1],
            refund_threshold: 1,
            arbiters: vec![ARB1],
            arbiter_threshold: 1,
            auto_release_ts: Some(1500),
            expiry_ts: 2000,
        },
    )
    .unwrap();

    c.deposit(2, PAYER1, 1000).unwrap();

    // auto release at its timestamp: equal split, no fees at 0 bps
    let ts = c.auto_release(2, 1500).unwrap();
    apply(&mut ledger, &ts);
    assert_eq!(balance_of(&ledger, PAYEE1), 500);
    assert_eq!(balance_of(&ledger, PAYEE2), 500);
    assert!(c.get_escrow(2).unwrap().closed);

    // a second escrow exercises the refund timeout
    c.create_escrow(
        3u128,
        EscrowInit {
            token: TOKEN,
            payers: vec![PAYER1],
            payees: vec![PAYEE1, PAYEE2],
            release_signers: vec![PAYER1],
            release_threshold: 1,
            refund_signers: vec![PAYER1],
            refund_threshold: 1,
            arbiters: vec![ARB1],
            arbiter_threshold: 1,
            auto_release_ts: None,
            expiry_ts: 1200,
        },
    )
    .unwrap();
    c.deposit(3, PAYER1, 600).unwrap();

    let ts = c.refund_timeout(3, 1300).unwrap();
    assert_eq!(ts, vec![Transfer { to: PAYER1, amount: 600 }]);
    apply(&mut ledger, &ts);
    assert_eq!(balance_of(&ledger, PAYER1), 600);
    assert!(c.get_escrow(3).unwrap().closed);
    assert_eq!(c.get_escrow(3).unwrap().balance, 0);
}
