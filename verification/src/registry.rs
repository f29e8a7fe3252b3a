//! The escrow ledger: the canonical store of escrow records keyed by `u128`
//! identifier, together with the global fee and emergency configuration.
//!
//! Every public operation is the atomic transaction the host serializes:
//! load the record, validate, mutate, hand back the transfers to perform.

use vstd::prelude::*;
use crate::errors::EscrowError;
use crate::escrow::{
    empty_flow, equal_split, gross_payout, is_member, net_payout, payout_of, quorum_reached,
    refund_plan, sum_of, Escrow, EscrowInit, EscrowView, FlowKind, Transfer, init_err,
};

verus! {

/// No identifier occurs twice.
pub open spec fn distinct_ids(s: Seq<u128>) -> bool {
    forall|i: int, j: int| 0 <= i < j < s.len() ==> s[i] != s[j]
}

/// The escrow contract's state: global configuration and the escrow
/// records.  The host authenticates every caller before handing an
/// operation its identity.
pub struct MarketXEscrow {
    pub initialized: bool,
    pub admin: u64,
    pub fee_bps: u32,
    pub fee_collector: u64,
    pub emergency_admins: Vec<u64>,
    pub emergency_threshold: u32,
    pub escrows: Vec<(u128, Escrow)>,
}

impl MarketXEscrow {
    /// The stored identifiers, in creation order.
    pub open spec fn ids(self) -> Seq<u128> {
        self.escrows@.map_values(|p: (u128, Escrow)| p.0)
    }

    /// Whether an escrow is stored under `id`.
    pub open spec fn has_escrow(self, id: u128) -> bool {
        self.ids().contains(id)
    }

    /// The index at which `id` is stored.
    pub open spec fn idx_of(self, id: u128) -> int {
        self.ids().index_of(id)
    }

    /// The stored escrow under `id`, as its spec-level image.
    pub open spec fn escrow_at(self, id: u128) -> EscrowView {
        self.escrows@[self.idx_of(id)].1@
    }

    /// Well-formedness: a validated configuration once initialized,
    /// distinct identifiers, and every stored escrow well-formed.
    pub open spec fn wf(self) -> bool {
        &&& self.fee_bps <= 10_000
        &&& self.initialized ==> 1 <= self.emergency_threshold <= self.emergency_admins@.len()
        &&& distinct_ids(self.ids())
        &&& forall|j: int| 0 <= j < self.escrows@.len() ==> (#[trigger] self.escrows@[j]).1@.wf()
    }

    /// The global configuration of both states is the same.
    pub open spec fn config_eq(self, post: MarketXEscrow) -> bool {
        &&& post.initialized == self.initialized
        &&& post.admin == self.admin
        &&& post.fee_bps == self.fee_bps
        &&& post.fee_collector == self.fee_collector
        &&& post.emergency_admins@ == self.emergency_admins@
        &&& post.emergency_threshold == self.emergency_threshold
    }

    /// The stored escrows of both states are the same, record for record.
    pub open spec fn escrows_eq(self, post: MarketXEscrow) -> bool {
        &&& post.escrows@.len() == self.escrows@.len()
        &&& forall|j: int| 0 <= j < self.escrows@.len()
            ==> (#[trigger] post.escrows@[j]).0 == self.escrows@[j].0
                && post.escrows@[j].1@ == self.escrows@[j].1@
    }

    /// Nothing observable changed.
    pub open spec fn unchanged(self, post: MarketXEscrow) -> bool {
        self.config_eq(post) && self.escrows_eq(post)
    }

    /// `post` is this state with only the record under `id` replaced by
    /// `v`: the configuration, the identifiers and every other record are
    /// untouched.
    pub open spec fn updated_at(self, post: MarketXEscrow, id: u128, v: EscrowView) -> bool {
        &&& self.config_eq(post)
        &&& post.ids() == self.ids()
        &&& post.has_escrow(id)
        &&& post.escrow_at(id) == v
        &&& forall|j: int| 0 <= j < self.escrows@.len() && (#[trigger] self.escrows@[j]).0 != id
            ==> post.escrows@[j].0 == self.escrows@[j].0
                && post.escrows@[j].1@ == self.escrows@[j].1@
    }

    /// An empty, uninitialized contract state.
    pub fn new() -> (r: MarketXEscrow)
        ensures
            r.wf(),
            !r.initialized,
            r.escrows@.len() == 0,
            r.fee_bps == 0,
    {
        MarketXEscrow {
            initialized: false,
            admin: 0,
            fee_bps: 0,
            fee_collector: 0,
            emergency_admins: Vec::new(),
            emergency_threshold: 0,
            escrows: Vec::new(),
        }
    }

    /// Finds the index under which `id` is stored.
    fn find_escrow(&self, id: u128) -> (r: Option<usize>)
        requires
            self.wf(),
        ensures
            match r {
                Some(i) => self.has_escrow(id) && i as int == self.idx_of(id)
                    && i < self.escrows@.len() && self.escrows@[i as int].0 == id,
                None => !self.has_escrow(id),
            },
    {
        let mut i: usize = 0;
        let n = self.escrows.len();
        while i < n
            invariant
                i <= n,
                n == self.escrows@.len(),
                distinct_ids(self.ids()),
                forall|j: int| 0 <= j < i ==> (#[trigger] self.escrows@[j]).0 != id,
            decreases n - i,
        {
            if self.escrows[i].0 == id {
                proof {
                    self.lemma_found(id, i as int);
                }
                return Some(i);
            }
            i += 1;
        }
        proof {
            assert forall|j: int| 0 <= j < self.ids().len()
                implies self.ids()[j] != id by {
                assert(self.ids()[j] == self.escrows@[j].0);
            }
        }
        None
    }

    /// With distinct identifiers, the index where `id` stands is the index
    /// the spec functions name.
    proof fn lemma_found(self, id: u128, i: int)
        requires
            distinct_ids(self.ids()),
            0 <= i < self.escrows@.len(),
            self.escrows@[i].0 == id,
        ensures
            self.has_escrow(id),
            self.idx_of(id) == i,
            self.escrow_at(id) == self.escrows@[i].1@,
    {
        assert(self.ids()[i] == id);
        let j = self.ids().index_of(id);
        assert(self.ids()[j] == id);
        if j != i {
            assert(self.ids()[i] != self.ids()[j]);
        }
    }

    /// Borrows the escrow stored at index `i` for mutation.
    fn escrow_mut(&mut self, i: usize) -> (e: &mut Escrow)
        requires
            i < old(self).escrows@.len(),
        ensures
            *e == old(self).escrows@[i as int].1,
            final(self).escrows@ == old(self).escrows@.update(
                i as int,
                (old(self).escrows@[i as int].0, *final(e)),
            ),
            final(self).initialized == old(self).initialized,
            final(self).admin == old(self).admin,
            final(self).fee_bps == old(self).fee_bps,
            final(self).fee_collector == old(self).fee_collector,
            final(self).emergency_admins == old(self).emergency_admins,
            final(self).emergency_threshold == old(self).emergency_threshold,
    {
        &mut self.escrows[i].1
    }

    /// Writes the global configuration once: the admin, the fee rate and
    /// collector, and the emergency signer group with its threshold.
    pub fn init(
        &mut self,
        admin: u64,
        fee_bps: u32,
        fee_collector: u64,
        emergency_admins: Vec<u64>,
        emergency_threshold: u32,
    ) -> (r: Result<(), EscrowError>)
        requires
            old(self).wf(),
        ensures
            final(self).wf(),
            r is Err ==> old(self).unchanged(*final(self)),
            old(self).initialized ==> r === Err(EscrowError::AlreadyInitialized),
            !old(self).initialized && fee_bps > 10_000 ==> r === Err(EscrowError::FeeOutOfRange),
            !old(self).initialized && fee_bps <= 10_000
                && (emergency_threshold == 0 || emergency_threshold > emergency_admins@.len())
                ==> r === Err(EscrowError::BadThreshold),
            !old(self).initialized && fee_bps <= 10_000
                && 1 <= emergency_threshold <= emergency_admins@.len()
                ==> r is Ok
                    && final(self).initialized
                    && final(self).admin == admin
                    && final(self).fee_bps == fee_bps
                    && final(self).fee_collector == fee_collector
                    && final(self).emergency_admins@ == emergency_admins@
                    && final(self).emergency_threshold == emergency_threshold
                    && old(self).escrows_eq(*final(self)),
    {
        if self.initialized {
            return Err(EscrowError::AlreadyInitialized);
        }
        if fee_bps > 10_000 {
            return Err(EscrowError::FeeOutOfRange);
        }
        if emergency_threshold == 0 || emergency_threshold as usize > emergency_admins.len() {
            return Err(EscrowError::BadThreshold);
        }
        self.initialized = true;
        self.admin = admin;
        self.fee_bps = fee_bps;
        self.fee_collector = fee_collector;
        self.emergency_admins = emergency_admins;
        self.emergency_threshold = emergency_threshold;
        Ok(())
    }

    /// Updates the fee rate and collector.  Only the admin may.
    pub fn set_fees(&mut self, caller: u64, fee_bps: u32, fee_collector: u64) -> (r: Result<(), EscrowError>)
        requires
            old(self).wf(),
        ensures
            final(self).wf(),
            r is Err ==> old(self).unchanged(*final(self)),
            !old(self).initialized ==> r === Err(EscrowError::NotInitialized),
            old(self).initialized && caller != old(self).admin ==> r === Err(EscrowError::NotAdmin),
            old(self).initialized && caller == old(self).admin && fee_bps > 10_000
                ==> r === Err(EscrowError::FeeOutOfRange),
            old(self).initialized && caller == old(self).admin && fee_bps <= 10_000
                ==> r is Ok
                    && final(self).fee_bps == fee_bps
                    && final(self).fee_collector == fee_collector
                    && final(self).initialized == old(self).initialized
                    && final(self).admin == old(self).admin
                    && final(self).emergency_admins@ == old(self).emergency_admins@
                    && final(self).emergency_threshold == old(self).emergency_threshold
                    && old(self).escrows_eq(*final(self)),
    {
        if !self.initialized {
            return Err(EscrowError::NotInitialized);
        }
        if caller != self.admin {
            return Err(EscrowError::NotAdmin);
        }
        if fee_bps > 10_000 {
            return Err(EscrowError::FeeOutOfRange);
        }
        self.fee_bps = fee_bps;
        self.fee_collector = fee_collector;
        Ok(())
    }

    /// Replaces the emergency signer group and its threshold.  Only the
    /// admin may.
    pub fn set_emergency(&mut self, caller: u64, admins: Vec<u64>, threshold: u32) -> (r: Result<(), EscrowError>)
        requires
            old(self).wf(),
        ensures
            final(self).wf(),
            r is Err ==> old(self).unchanged(*final(self)),
            !old(self).initialized ==> r === Err(EscrowError::NotInitialized),
            old(self).initialized && caller != old(self).admin ==> r === Err(EscrowError::NotAdmin),
            old(self).initialized && caller == old(self).admin
                && (threshold == 0 || threshold > admins@.len())
                ==> r === Err(EscrowError::BadThreshold),
            old(self).initialized && caller == old(self).admin
                && 1 <= threshold <= admins@.len()
                ==> r is Ok
                    && final(self).emergency_admins@ == admins@
                    && final(self).emergency_threshold == threshold
                    && final(self).initialized == old(self).initialized
                    && final(self).admin == old(self).admin
                    && final(self).fee_bps == old(self).fee_bps
                    && final(self).fee_collector == old(self).fee_collector
                    && old(self).escrows_eq(*final(self)),
    {
        if !self.initialized {
            return Err(EscrowError::NotInitialized);
        }
        if caller != self.admin {
            return Err(EscrowError::NotAdmin);
        }
        if threshold == 0 || threshold as usize > admins.len() {
            return Err(EscrowError::BadThreshold);
        }
        self.emergency_admins = admins;
        self.emergency_threshold = threshold;
        Ok(())
    }

    /// Creates an escrow under a fresh identifier, validating the parties
    /// and thresholds as [`init_err`] describes.
    pub fn create_escrow(&mut self, id: u128, params: EscrowInit) -> (r: Result<(), EscrowError>)
        requires
            old(self).wf(),
        ensures
            final(self).wf(),
            r is Err ==> old(self).unchanged(*final(self)),
            old(self).has_escrow(id) ==> r === Err(EscrowError::EscrowExists),
            !old(self).has_escrow(id) ==> match init_err(params) {
                Some(e) => r === Err(e),
                None => r is Ok
                    && old(self).config_eq(*final(self))
                    && final(self).ids() == old(self).ids().push(id)
                    && final(self).has_escrow(id)
                    && final(self).escrow_at(id) == (EscrowView {
                        token: params.token,
                        payers: params.payers@,
                        payees: params.payees@,
                        release_signers: params.release_signers@,
                        release_threshold: params.release_threshold,
                        refund_signers: params.refund_signers@,
                        refund_threshold: params.refund_threshold,
                        arbiters: params.arbiters@,
                        arbiter_threshold: params.arbiter_threshold,
                        auto_release_ts: params.auto_release_ts,
                        expiry_ts: params.expiry_ts,
                        disputed: false,
                        balance: 0,
                        deposits: Seq::empty(),
                        closed: false,
                        nonce: 0,
                        release: empty_flow(),
                        refund: empty_flow(),
                        arbiter: empty_flow(),
                        emergency: empty_flow(),
                        deposited: 0,
                        distributed: 0,
                    })
                    && forall|j: int| 0 <= j < old(self).escrows@.len()
                        ==> (#[trigger] final(self).escrows@[j]).0 == old(self).escrows@[j].0
                            && final(self).escrows@[j].1@ == old(self).escrows@[j].1@,
            },
    {
        if self.find_escrow(id).is_some() {
            return Err(EscrowError::EscrowExists);
        }
        let esc = match Escrow::from_init(params) {
            Err(e) => {
                return Err(e);
            },
            Ok(esc) => esc,
        };
        proof {
            assert forall|j: int| 0 <= j < self.ids().len()
                implies self.ids()[j] != id by {
                assert(self.ids()[j] == self.escrows@[j].0);
            }
        }
        self.escrows.push((id, esc));
        proof {
            assert(self.ids() =~= old(self).ids().push(id));
            self.lemma_found(id, self.escrows@.len() - 1);
        }
        Ok(())
    }

    /// The stored escrow record, for inspection.  Escrows are never
    /// deleted: a closed escrow remains queryable.
    pub fn get_escrow(&self, id: u128) -> (r: Result<&Escrow, EscrowError>)
        requires
            self.wf(),
        ensures
            self.has_escrow(id) ==> (r matches Ok(e) && e@ == self.escrow_at(id)),
            !self.has_escrow(id) ==> r === Err(EscrowError::EscrowNotFound),
    {
        match self.find_escrow(id) {
            Some(i) => Ok(&self.escrows[i].1),
            None => Err(EscrowError::EscrowNotFound),
        }
    }

    /// The configured fee rate and collector.
    pub fn get_fee_params(&self) -> (r: Result<(u32, u64), EscrowError>)
        ensures
            self.initialized ==> r === Ok((self.fee_bps, self.fee_collector)),
            !self.initialized ==> r === Err(EscrowError::NotInitialized),
    {
        if !self.initialized {
            return Err(EscrowError::NotInitialized);
        }
        Ok((self.fee_bps, self.fee_collector))
    }

    /// Credits a deposit from `from` to escrow `id`.  The host performs the
    /// matching inbound token transfer.
    pub fn deposit(&mut self, id: u128, from: u64, amount: i128) -> (r: Result<(), EscrowError>)
        requires
            old(self).wf(),
        ensures
            final(self).wf(),
            !old(self).has_escrow(id) ==> r === Err(EscrowError::EscrowNotFound)
                && old(self).unchanged(*final(self)),
            old(self).has_escrow(id) ==> match old(self).escrow_at(id).deposit_err(from, amount) {
                Some(e) => r === Err(e) && old(self).unchanged(*final(self)),
                None => r is Ok && old(self).updated_at(
                    *final(self),
                    id,
                    old(self).escrow_at(id).deposit_effect(from, amount),
                ),
            },
    {
        let i = match self.find_escrow(id) {
            None => {
                return Err(EscrowError::EscrowNotFound);
            },
            Some(i) => i,
        };
        let e = self.escrow_mut(i);
        let r = e.deposit(from, amount);
        proof {
            self.lemma_after_update(*old(self), id, i as int);
        }
        r
    }

    /// Marks escrow `id` disputed, on behalf of a payer or payee.
    pub fn open_dispute(&mut self, id: u128, actor: u64) -> (r: Result<(), EscrowError>)
        requires
            old(self).wf(),
        ensures
            final(self).wf(),
            !old(self).has_escrow(id) ==> r === Err(EscrowError::EscrowNotFound)
                && old(self).unchanged(*final(self)),
            old(self).has_escrow(id) ==> match old(self).escrow_at(id).dispute_err(actor) {
                Some(e) => r === Err(e) && old(self).unchanged(*final(self)),
                None => r is Ok && old(self).updated_at(
                    *final(self),
                    id,
                    EscrowView { disputed: true, ..old(self).escrow_at(id) },
                ),
            },
    {
        let i = match self.find_escrow(id) {
            None => {
                return Err(EscrowError::EscrowNotFound);
            },
            Some(i) => i,
        };
        let e = self.escrow_mut(i);
        let r = e.open_dispute(actor);
        proof {
            self.lemma_after_update(*old(self), id, i as int);
        }
        r
    }

    /// Stores a release proposal on escrow `id`.
    pub fn propose_release(&mut self, id: u128, signer: u64, dists: Vec<(u64, i128)>) -> (r: Result<(), EscrowError>)
        requires
            old(self).wf(),
        ensures
            final(self).wf(),
            !old(self).has_escrow(id) ==> r === Err(EscrowError::EscrowNotFound)
                && old(self).unchanged(*final(self)),
            old(self).has_escrow(id) ==> match old(self).escrow_at(id).propose_err(
                FlowKind::Release,
                signer,
                dists@,
                false,
            ) {
                Some(e) => r === Err(e) && old(self).unchanged(*final(self)),
                None => r is Ok && old(self).updated_at(
                    *final(self),
                    id,
                    old(self).escrow_at(id).propose_effect(FlowKind::Release, signer, dists@, false),
                ),
            },
    {
        let i = match self.find_escrow(id) {
            None => {
                return Err(EscrowError::EscrowNotFound);
            },
            Some(i) => i,
        };
        let e = self.escrow_mut(i);
        let r = e.propose_release(signer, dists);
        proof {
            self.lemma_after_update(*old(self), id, i as int);
        }
        r
    }

    /// Stores a refund proposal on escrow `id`.
    pub fn propose_refund(&mut self, id: u128, signer: u64, dists: Vec<(u64, i128)>) -> (r: Result<(), EscrowError>)
        requires
            old(self).wf(),
        ensures
            final(self).wf(),
            !old(self).has_escrow(id) ==> r === Err(EscrowError::EscrowNotFound)
                && old(self).unchanged(*final(self)),
            old(self).has_escrow(id) ==> match old(self).escrow_at(id).propose_err(
                FlowKind::Refund,
                signer,
                dists@,
                true,
            ) {
                Some(e) => r === Err(e) && old(self).unchanged(*final(self)),
                None => r is Ok && old(self).updated_at(
                    *final(self),
                    id,
                    old(self).escrow_at(id).propose_effect(FlowKind::Refund, signer, dists@, true),
                ),
            },
    {
        let i = match self.find_escrow(id) {
            None => {
                return Err(EscrowError::EscrowNotFound);
            },
            Some(i) => i,
        };
        let e = self.escrow_mut(i);
        let r = e.propose_refund(signer, dists);
        proof {
            self.lemma_after_update(*old(self), id, i as int);
        }
        r
    }

    /// Records a release approval on escrow `id`, paying the pending
    /// release out (after fees) the moment the quorum is reached.
    pub fn approve_release(&mut self, id: u128, signer: u64) -> (r: Result<Option<Vec<Transfer>>, EscrowError>)
        requires
            old(self).wf(),
        ensures
            final(self).wf(),
            !old(self).initialized ==> r === Err(EscrowError::NotInitialized)
                && old(self).unchanged(*final(self)),
            old(self).initialized && !old(self).has_escrow(id)
                ==> r === Err(EscrowError::EscrowNotFound) && old(self).unchanged(*final(self)),
            old(self).initialized && old(self).has_escrow(id)
                ==> match old(self).escrow_at(id).approve_err(
                    FlowKind::Release,
                    signer,
                    old(self).fee_bps as int,
                ) {
                    Some(e) => r === Err(e) && old(self).unchanged(*final(self)),
                    None => match old(self).escrow_at(id).release.proposal {
                        None => false,
                        Some(p) => if quorum_reached(
                            old(self).escrow_at(id).release.approvals,
                            signer,
                            old(self).escrow_at(id).release_threshold,
                        ) {
                            r matches Ok(Some(ts))
                                && ts@ == payout_of(
                                    p.dists,
                                    p.gross,
                                    old(self).fee_bps as int,
                                    old(self).fee_collector,
                                )
                                && old(self).updated_at(
                                    *final(self),
                                    id,
                                    old(self).escrow_at(id).with_flow(FlowKind::Release, empty_flow())
                                        .execute_effect(sum_of(p.dists)),
                                )
                        } else {
                            r === Ok(None) && old(self).updated_at(
                                *final(self),
                                id,
                                old(self).escrow_at(id).approve_effect(FlowKind::Release, signer),
                            )
                        },
                    },
                },
    {
        if !self.initialized {
            return Err(EscrowError::NotInitialized);
        }
        let fee_bps = self.fee_bps;
        let fee_collector = self.fee_collector;
        let i = match self.find_escrow(id) {
            None => {
                return Err(EscrowError::EscrowNotFound);
            },
            Some(i) => i,
        };
        let e = self.escrow_mut(i);
        let r = e.approve_release(signer, fee_bps, fee_collector);
        proof {
            self.lemma_after_update(*old(self), id, i as int);
        }
        r
    }

    /// Records a refund approval on escrow `id`, paying the pending refund
    /// out gross (no fee) the moment the quorum is reached.
    pub fn approve_refund(&mut self, id: u128, signer: u64) -> (r: Result<Option<Vec<Transfer>>, EscrowError>)
        requires
            old(self).wf(),
        ensures
            final(self).wf(),
            !old(self).has_escrow(id) ==> r === Err(EscrowError::EscrowNotFound)
                && old(self).unchanged(*final(self)),
            old(self).has_escrow(id)
                ==> match old(self).escrow_at(id).approve_err(
                    FlowKind::Refund,
                    signer,
                    old(self).fee_bps as int,
                ) {
                    Some(e) => r === Err(e) && old(self).unchanged(*final(self)),
                    None => match old(self).escrow_at(id).refund.proposal {
                        None => false,
                        Some(p) => if quorum_reached(
                            old(self).escrow_at(id).refund.approvals,
                            signer,
                            old(self).escrow_at(id).refund_threshold,
                        ) {
                            r matches Ok(Some(ts))
                                && ts@ == payout_of(
                                    p.dists,
                                    p.gross,
                                    old(self).fee_bps as int,
                                    old(self).fee_collector,
                                )
                                && old(self).updated_at(
                                    *final(self),
                                    id,
                                    old(self).escrow_at(id).with_flow(FlowKind::Refund, empty_flow())
                                        .execute_effect(sum_of(p.dists)),
                                )
                        } else {
                            r === Ok(None) && old(self).updated_at(
                                *final(self),
                                id,
                                old(self).escrow_at(id).approve_effect(FlowKind::Refund, signer),
                            )
                        },
                    },
                },
    {
        let fee_bps = self.fee_bps;
        let fee_collector = self.fee_collector;
        let i = match self.find_escrow(id) {
            None => {
                return Err(EscrowError::EscrowNotFound);
            },
            Some(i) => i,
        };
        let e = self.escrow_mut(i);
        let r = e.approve_refund(signer, fee_bps, fee_collector);
        proof {
            self.lemma_after_update(*old(self), id, i as int);
        }
        r
    }

    /// An arbiter's vote to release escrow `id`'s funds to payees (with
    /// fee), legal only while the escrow is disputed.
    pub fn arbiter_release(&mut self, id: u128, signer: u64, dists: Vec<(u64, i128)>) -> (r: Result<Option<Vec<Transfer>>, EscrowError>)
        requires
            old(self).wf(),
        ensures
            final(self).wf(),
            !old(self).initialized ==> r === Err(EscrowError::NotInitialized)
                && old(self).unchanged(*final(self)),
            old(self).initialized && !old(self).has_escrow(id)
                ==> r === Err(EscrowError::EscrowNotFound) && old(self).unchanged(*final(self)),
            old(self).initialized && old(self).has_escrow(id)
                ==> match old(self).escrow_at(id).arbiter_err(signer, dists@, false, old(self).fee_bps as int) {
                    Some(e) => r === Err(e) && old(self).unchanged(*final(self)),
                    None => {
                        let pre = old(self).escrow_at(id).combined_pre(FlowKind::Arbiter, signer, dists@, false);
                        if quorum_reached(
                            old(self).escrow_at(id).combined_base(FlowKind::Arbiter, dists@, false),
                            signer,
                            old(self).escrow_at(id).arbiter_threshold,
                        ) {
                            r matches Ok(Some(ts))
                                && ts@ == net_payout(dists@, old(self).fee_bps as int, old(self).fee_collector)
                                && old(self).updated_at(
                                    *final(self),
                                    id,
                                    pre.with_flow(FlowKind::Arbiter, empty_flow())
                                        .execute_effect(sum_of(dists@)).arbiter_close(),
                                )
                        } else {
                            r === Ok(None) && old(self).updated_at(*final(self), id, pre)
                        }
                    },
                },
    {
        if !self.initialized {
            return Err(EscrowError::NotInitialized);
        }
        let fee_bps = self.fee_bps;
        let fee_collector = self.fee_collector;
        let i = match self.find_escrow(id) {
            None => {
                return Err(EscrowError::EscrowNotFound);
            },
            Some(i) => i,
        };
        let e = self.escrow_mut(i);
        let r = e.arbiter_release(signer, dists, fee_bps, fee_collector);
        proof {
            self.lemma_after_update(*old(self), id, i as int);
        }
        r
    }

    /// An arbiter's vote to refund escrow `id`'s payers gross (no fee),
    /// legal only while the escrow is disputed.
    pub fn arbiter_refund(&mut self, id: u128, signer: u64, dists: Vec<(u64, i128)>) -> (r: Result<Option<Vec<Transfer>>, EscrowError>)
        requires
            old(self).wf(),
        ensures
            final(self).wf(),
            !old(self).has_escrow(id) ==> r === Err(EscrowError::EscrowNotFound)
                && old(self).unchanged(*final(self)),
            old(self).has_escrow(id)
                ==> match old(self).escrow_at(id).arbiter_err(signer, dists@, true, old(self).fee_bps as int) {
                    Some(e) => r === Err(e) && old(self).unchanged(*final(self)),
                    None => {
                        let pre = old(self).escrow_at(id).combined_pre(FlowKind::Arbiter, signer, dists@, true);
                        if quorum_reached(
                            old(self).escrow_at(id).combined_base(FlowKind::Arbiter, dists@, true),
                            signer,
                            old(self).escrow_at(id).arbiter_threshold,
                        ) {
                            r matches Ok(Some(ts))
                                && ts@ == gross_payout(dists@)
                                && old(self).updated_at(
                                    *final(self),
                                    id,
                                    pre.with_flow(FlowKind::Arbiter, empty_flow())
                                        .execute_effect(sum_of(dists@)).arbiter_close(),
                                )
                        } else {
                            r === Ok(None) && old(self).updated_at(*final(self), id, pre)
                        }
                    },
                },
    {
        let fee_bps = self.fee_bps;
        let fee_collector = self.fee_collector;
        let i = match self.find_escrow(id) {
            None => {
                return Err(EscrowError::EscrowNotFound);
            },
            Some(i) => i,
        };
        let e = self.escrow_mut(i);
        let r = e.arbiter_refund(signer, dists, fee_bps, fee_collector);
        proof {
            self.lemma_after_update(*old(self), id, i as int);
        }
        r
    }

    /// An emergency admin's vote to pay out escrow `id` (with fee),
    /// regardless of the dispute state.
    pub fn emergency_release(&mut self, id: u128, signer: u64, dists: Vec<(u64, i128)>) -> (r: Result<Option<Vec<Transfer>>, EscrowError>)
        requires
            old(self).wf(),
        ensures
            final(self).wf(),
            !old(self).initialized ==> r === Err(EscrowError::NotInitialized)
                && old(self).unchanged(*final(self)),
            old(self).initialized && !old(self).has_escrow(id)
                ==> r === Err(EscrowError::EscrowNotFound) && old(self).unchanged(*final(self)),
            old(self).initialized && old(self).has_escrow(id)
                ==> match old(self).escrow_at(id).emergency_err(
                    signer,
                    dists@,
                    old(self).emergency_admins@.contains(signer),
                    old(self).emergency_threshold,
                    old(self).fee_bps as int,
                ) {
                    Some(e) => r === Err(e) && old(self).unchanged(*final(self)),
                    None => {
                        let pre = old(self).escrow_at(id).combined_pre(FlowKind::Emergency, signer, dists@, false);
                        if quorum_reached(
                            old(self).escrow_at(id).combined_base(FlowKind::Emergency, dists@, false),
                            signer,
                            old(self).emergency_threshold,
                        ) {
                            r matches Ok(Some(ts))
                                && ts@ == net_payout(dists@, old(self).fee_bps as int, old(self).fee_collector)
                                && old(self).updated_at(
                                    *final(self),
                                    id,
                                    pre.with_flow(FlowKind::Emergency, empty_flow())
                                        .execute_effect(sum_of(dists@)),
                                )
                        } else {
                            r === Ok(None) && old(self).updated_at(*final(self), id, pre)
                        }
                    },
                },
    {
        if !self.initialized {
            return Err(EscrowError::NotInitialized);
        }
        let fee_bps = self.fee_bps;
        let fee_collector = self.fee_collector;
        let ethreshold = self.emergency_threshold;
        let is_admin = is_member(&self.emergency_admins, signer);
        let i = match self.find_escrow(id) {
            None => {
                return Err(EscrowError::EscrowNotFound);
            },
            Some(i) => i,
        };
        let e = self.escrow_mut(i);
        let r = e.emergency_release(signer, dists, is_admin, ethreshold, fee_bps, fee_collector);
        proof {
            self.lemma_after_update(*old(self), id, i as int);
        }
        r
    }

    /// The auto-release time trigger on escrow `id`: an equal split of the
    /// whole balance to the payees once the configured timestamp has
    /// passed.  `now` is the host's clock reading.
    pub fn auto_release(&mut self, id: u128, now: u64) -> (r: Result<Vec<Transfer>, EscrowError>)
        requires
            old(self).wf(),
        ensures
            final(self).wf(),
            !old(self).initialized ==> r === Err(EscrowError::NotInitialized)
                && old(self).unchanged(*final(self)),
            old(self).initialized && !old(self).has_escrow(id)
                ==> r === Err(EscrowError::EscrowNotFound) && old(self).unchanged(*final(self)),
            old(self).initialized && old(self).has_escrow(id)
                ==> match old(self).escrow_at(id).auto_err(now, old(self).fee_bps as int) {
                    Some(e) => r === Err(e) && old(self).unchanged(*final(self)),
                    None => r matches Ok(ts)
                        && ts@ == net_payout(
                            equal_split(
                                old(self).escrow_at(id).payees,
                                old(self).escrow_at(id).balance as int,
                            ),
                            old(self).fee_bps as int,
                            old(self).fee_collector,
                        )
                        && old(self).updated_at(
                            *final(self),
                            id,
                            EscrowView {
                                nonce: (old(self).escrow_at(id).nonce + 1) as u64,
                                ..old(self).escrow_at(id)
                            }.execute_effect(old(self).escrow_at(id).balance as int),
                        )
                        && final(self).escrow_at(id).balance == 0
                        && final(self).escrow_at(id).closed,
                },
    {
        if !self.initialized {
            return Err(EscrowError::NotInitialized);
        }
        let fee_bps = self.fee_bps;
        let fee_collector = self.fee_collector;
        let i = match self.find_escrow(id) {
            None => {
                return Err(EscrowError::EscrowNotFound);
            },
            Some(i) => i,
        };
        let e = self.escrow_mut(i);
        let r = e.auto_release(now, fee_bps, fee_collector);
        proof {
            self.lemma_after_update(*old(self), id, i as int);
        }
        r
    }

    /// The refund time trigger on escrow `id`: repays each payer up to its
    /// recorded deposit once the expiry timestamp has passed.  `now` is the
    /// host's clock reading.
    pub fn refund_timeout(&mut self, id: u128, now: u64) -> (r: Result<Vec<Transfer>, EscrowError>)
        requires
            old(self).wf(),
        ensures
            final(self).wf(),
            !old(self).has_escrow(id) ==> r === Err(EscrowError::EscrowNotFound)
                && old(self).unchanged(*final(self)),
            old(self).has_escrow(id)
                ==> match old(self).escrow_at(id).refund_timeout_err(now) {
                    Some(e) => r === Err(e) && old(self).unchanged(*final(self)),
                    None => r matches Ok(ts)
                        && ts@ == refund_plan(
                            old(self).escrow_at(id).deposits,
                            old(self).escrow_at(id).balance as int,
                        )
                        && old(self).updated_at(
                            *final(self),
                            id,
                            old(self).escrow_at(id).refund_timeout_effect(),
                        )
                        && final(self).escrow_at(id).balance == 0
                        && final(self).escrow_at(id).closed,
                },
    {
        let i = match self.find_escrow(id) {
            None => {
                return Err(EscrowError::EscrowNotFound);
            },
            Some(i) => i,
        };
        let e = self.escrow_mut(i);
        let r = e.refund_timeout(now);
        proof {
            self.lemma_after_update(*old(self), id, i as int);
        }
        r
    }

    /// After an in-place update at the index where `id` stands, the
    /// registry's map-level facts follow.
    proof fn lemma_after_update(self, pre: MarketXEscrow, id: u128, i: int)
        requires
            pre.wf(),
            0 <= i < pre.escrows@.len(),
            pre.escrows@[i].0 == id,
            self.escrows@ == pre.escrows@.update(i, (id, self.escrows@[i].1)),
            pre.config_eq(self),
        ensures
            self.escrows@[i].1@.wf() ==> self.wf(),
            pre.updated_at(self, id, self.escrows@[i].1@),
            self.escrows@[i].1@ == pre.escrows@[i].1@ ==> pre.unchanged(self),
    {
        assert(self.ids() =~= pre.ids());
        pre.lemma_found(id, i);
        self.lemma_found(id, i);
    }
}

} // verus!
