//! The multi-party conditional-payment escrow: one record per escrow, four
//! quorum flows (release, refund, arbiter, emergency), time triggers and a
//! dispute gate.
//!
//! Every operation is a pure state transition.  Token movements are returned
//! as [`Transfer`] commands for the host to perform; the caller identity each
//! operation receives is assumed to have been authenticated by the host
//! before the call.

use vstd::prelude::*;
use vstd::pervasive::VecAdditionalExecFns;
use crate::errors::EscrowError;
use crate::fee::{spec_fee, spec_net, MAX_AMOUNT};

verus! {

/// A token movement out of the escrow: pay `amount` of the escrow's token to
/// the party `to`.
#[derive(Clone, Copy, Debug, PartialEq, Eq, Structural)]
pub struct Transfer {
    pub to: u64,
    pub amount: i128,
}

/// A distribution awaiting quorum: who gets how much, stamped with the
/// escrow's proposal nonce.  A gross proposal (a refund) is paid out without
/// a fee; a net proposal (a release) has the fee taken from every entry.
#[derive(Clone, Debug)]
pub struct Proposal {
    pub nonce: u64,
    pub dists: Vec<(u64, i128)>,
    pub gross: bool,
}

/// One instance of the threshold approval engine: the live proposal of a
/// flow, and the distinct signers that have approved it so far.
#[derive(Clone, Debug)]
pub struct FlowState {
    pub proposal: Option<Proposal>,
    pub approvals: Vec<u64>,
}

/// The sum of the amounts of a distribution.
pub open spec fn sum_of(dists: Seq<(u64, i128)>) -> int
    decreases dists.len(),
{
    if dists.len() == 0 {
        0
    } else {
        sum_of(dists.drop_last()) + dists.last().1 as int
    }
}

/// Every amount of the distribution is strictly positive.
pub open spec fn all_positive(dists: Seq<(u64, i128)>) -> bool {
    forall|i: int| 0 <= i < dists.len() ==> #[trigger] dists[i].1 > 0
}

/// Every amount of the distribution is non-negative.
pub open spec fn all_nonneg(dists: Seq<(u64, i128)>) -> bool {
    forall|i: int| 0 <= i < dists.len() ==> #[trigger] dists[i].1 >= 0
}

/// Every recipient of the distribution belongs to `group`.
pub open spec fn all_members(dists: Seq<(u64, i128)>, group: Seq<u64>) -> bool {
    forall|i: int| 0 <= i < dists.len() ==> group.contains(#[trigger] dists[i].0)
}

/// No identity occurs twice.
pub open spec fn distinct_seq(s: Seq<u64>) -> bool {
    forall|i: int, j: int| 0 <= i < j < s.len() ==> s[i] != s[j]
}

/// The first components of the entries, in order.
pub open spec fn keys_of(s: Seq<(u64, i128)>) -> Seq<u64> {
    s.map_values(|e: (u64, i128)| e.0)
}

/// The approval engine's single step on an approval set: an identity is
/// recorded once; signing again changes nothing.
pub open spec fn add_unique(s: Seq<u64>, x: u64) -> Seq<u64> {
    if s.contains(x) {
        s
    } else {
        s.push(x)
    }
}

/// Whether recording `x` on top of `s` reaches a quorum of `t`.
pub open spec fn quorum_reached(s: Seq<u64>, x: u64, t: u32) -> bool {
    add_unique(s, x).len() >= t
}

/// The fees of a net distribution at `fee_bps`, summed.
pub open spec fn fee_total_of(dists: Seq<(u64, i128)>, fee_bps: int) -> int
    decreases dists.len(),
{
    if dists.len() == 0 {
        0
    } else {
        fee_total_of(dists.drop_last(), fee_bps) + spec_fee(dists.last().1 as int, fee_bps)
    }
}

/// The transfers a gross (fee-free) distribution produces: one per entry.
pub open spec fn gross_payout(dists: Seq<(u64, i128)>) -> Seq<Transfer> {
    dists.map_values(|e: (u64, i128)| Transfer { to: e.0, amount: e.1 })
}

/// The transfers a net distribution produces: the net part of every entry in
/// order, then the accumulated fee to `collector` if it is not zero.
pub open spec fn net_payout(dists: Seq<(u64, i128)>, fee_bps: int, collector: u64) -> Seq<Transfer> {
    let nets = dists.map_values(
        |e: (u64, i128)| Transfer { to: e.0, amount: spec_net(e.1 as int, fee_bps) as i128 },
    );
    if fee_total_of(dists, fee_bps) > 0 {
        nets.push(Transfer { to: collector, amount: fee_total_of(dists, fee_bps) as i128 })
    } else {
        nets
    }
}

/// The transfers a distribution produces, by its kind.
pub open spec fn payout_of(dists: Seq<(u64, i128)>, gross: bool, fee_bps: int, collector: u64) -> Seq<Transfer> {
    if gross {
        gross_payout(dists)
    } else {
        net_payout(dists, fee_bps, collector)
    }
}

/// The equal split of `balance` over `payees`: everyone gets the quotient,
/// and the remainder is handed out one unit at a time to the earliest payees.
pub open spec fn equal_split(payees: Seq<u64>, balance: int) -> Seq<(u64, i128)> {
    let n = payees.len() as int;
    let base = balance / n;
    let rem = balance % n;
    Seq::new(payees.len(), |i: int| (payees[i], (base + if i < rem { 1 as int } else { 0 }) as i128))
}

/// The refunds a timed-out escrow pays: deposit-list order, each payer up to
/// its recorded deposit, stopping once `remaining` is exhausted.
pub open spec fn refund_plan(deposits: Seq<(u64, i128)>, remaining: int) -> Seq<Transfer>
    decreases deposits.len(),
{
    if deposits.len() == 0 || remaining <= 0 {
        Seq::empty()
    } else {
        let amt = if deposits[0].1 as int <= remaining { deposits[0].1 as int } else { remaining };
        seq![Transfer { to: deposits[0].0, amount: amt as i128 }]
            + refund_plan(deposits.drop_first(), remaining - amt)
    }
}

/// What is left of `remaining` after the refunds of [`refund_plan`].
pub open spec fn refund_left(deposits: Seq<(u64, i128)>, remaining: int) -> int
    decreases deposits.len(),
{
    if deposits.len() == 0 || remaining <= 0 {
        remaining
    } else {
        let amt = if deposits[0].1 as int <= remaining { deposits[0].1 as int } else { remaining };
        refund_left(deposits.drop_first(), remaining - amt)
    }
}

/// The four quorum flows of an escrow.
#[derive(Clone, Copy, Debug, PartialEq, Eq, Structural)]
pub enum FlowKind {
    Release,
    Refund,
    Arbiter,
    Emergency,
}

/// The spec-level image of a [`Proposal`].
#[verifier::ext_equal]
pub ghost struct PropView {
    pub nonce: u64,
    pub dists: Seq<(u64, i128)>,
    pub gross: bool,
}

/// The spec-level image of a [`FlowState`].
#[verifier::ext_equal]
pub ghost struct FlowView {
    pub proposal: Option<PropView>,
    pub approvals: Seq<u64>,
}

impl View for Proposal {
    type V = PropView;

    open spec fn view(&self) -> PropView {
        PropView { nonce: self.nonce, dists: self.dists@, gross: self.gross }
    }
}

impl View for FlowState {
    type V = FlowView;

    open spec fn view(&self) -> FlowView {
        FlowView {
            proposal: match self.proposal {
                Some(p) => Some(p@),
                None => None,
            },
            approvals: self.approvals@,
        }
    }
}

/// A flow with no live proposal and no recorded approvals.
pub open spec fn empty_flow() -> FlowView {
    FlowView { proposal: None, approvals: Seq::empty() }
}

/// The parameters an escrow is created from.
#[derive(Clone, Debug)]
pub struct EscrowInit {
    pub token: u64,
    pub payers: Vec<u64>,
    pub payees: Vec<u64>,
    pub release_signers: Vec<u64>,
    pub release_threshold: u32,
    pub refund_signers: Vec<u64>,
    pub refund_threshold: u32,
    pub arbiters: Vec<u64>,
    pub arbiter_threshold: u32,
    pub auto_release_ts: Option<u64>,
    pub expiry_ts: u64,
}

/// One escrow record: fixed parties and signer groups, the funds, the
/// dispute and closure state, and the four approval flows.
///
/// The two ghost totals account for everything that ever entered or left the
/// escrow; the balance is always their difference.
#[derive(Clone)]
pub struct Escrow {
    pub token: u64,
    pub payers: Vec<u64>,
    pub payees: Vec<u64>,
    pub release_signers: Vec<u64>,
    pub release_threshold: u32,
    pub refund_signers: Vec<u64>,
    pub refund_threshold: u32,
    pub arbiters: Vec<u64>,
    pub arbiter_threshold: u32,
    pub auto_release_ts: Option<u64>,
    pub expiry_ts: u64,
    pub disputed: bool,
    pub balance: i128,
    pub deposits: Vec<(u64, i128)>,
    pub closed: bool,
    pub nonce: u64,
    pub release: FlowState,
    pub refund: FlowState,
    pub arbiter: FlowState,
    pub emergency: FlowState,
    pub deposited: Ghost<int>,
    pub distributed: Ghost<int>,
}

/// The spec-level image of an [`Escrow`].
#[verifier::ext_equal]
pub ghost struct EscrowView {
    pub token: u64,
    pub payers: Seq<u64>,
    pub payees: Seq<u64>,
    pub release_signers: Seq<u64>,
    pub release_threshold: u32,
    pub refund_signers: Seq<u64>,
    pub refund_threshold: u32,
    pub arbiters: Seq<u64>,
    pub arbiter_threshold: u32,
    pub auto_release_ts: Option<u64>,
    pub expiry_ts: u64,
    pub disputed: bool,
    pub balance: i128,
    pub deposits: Seq<(u64, i128)>,
    pub closed: bool,
    pub nonce: u64,
    pub release: FlowView,
    pub refund: FlowView,
    pub arbiter: FlowView,
    pub emergency: FlowView,
    pub deposited: int,
    pub distributed: int,
}

impl View for Escrow {
    type V = EscrowView;

    open spec fn view(&self) -> EscrowView {
        EscrowView {
            token: self.token,
            payers: self.payers@,
            payees: self.payees@,
            release_signers: self.release_signers@,
            release_threshold: self.release_threshold,
            refund_signers: self.refund_signers@,
            refund_threshold: self.refund_threshold,
            arbiters: self.arbiters@,
            arbiter_threshold: self.arbiter_threshold,
            auto_release_ts: self.auto_release_ts,
            expiry_ts: self.expiry_ts,
            disputed: self.disputed,
            balance: self.balance,
            deposits: self.deposits@,
            closed: self.closed,
            nonce: self.nonce,
            release: self.release@,
            refund: self.refund@,
            arbiter: self.arbiter@,
            emergency: self.emergency@,
            deposited: self.deposited@,
            distributed: self.distributed@,
        }
    }
}

impl EscrowView {
    /// The flow state of the given kind.
    pub open spec fn flow(self, k: FlowKind) -> FlowView {
        match k {
            FlowKind::Release => self.release,
            FlowKind::Refund => self.refund,
            FlowKind::Arbiter => self.arbiter,
            FlowKind::Emergency => self.emergency,
        }
    }

    /// This escrow with the flow of the given kind replaced.
    pub open spec fn with_flow(self, k: FlowKind, f: FlowView) -> EscrowView {
        match k {
            FlowKind::Release => EscrowView { release: f, ..self },
            FlowKind::Refund => EscrowView { refund: f, ..self },
            FlowKind::Arbiter => EscrowView { arbiter: f, ..self },
            FlowKind::Emergency => EscrowView { emergency: f, ..self },
        }
    }

    /// The signer group a flow answers to.  The emergency group is global
    /// configuration and not part of the record, so it is not given here.
    pub open spec fn group(self, k: FlowKind) -> Seq<u64> {
        match k {
            FlowKind::Release => self.release_signers,
            FlowKind::Refund => self.refund_signers,
            FlowKind::Arbiter => self.arbiters,
            FlowKind::Emergency => Seq::empty(),
        }
    }

    /// Whose membership a proposal's recipients must hold: payees for a net
    /// distribution, payers for a gross one.
    pub open spec fn recipients_ok(self, p: PropView) -> bool {
        if p.gross {
            all_members(p.dists, self.payers)
        } else {
            all_members(p.dists, self.payees)
        }
    }

    /// A live proposal is validated at proposal time: positive entries, a
    /// positive total, and recipients from the right party set (the
    /// emergency flow is an unconstrained recovery path).
    pub open spec fn flow_wf(self, k: FlowKind) -> bool {
        let f = self.flow(k);
        &&& distinct_seq(f.approvals)
        &&& k != FlowKind::Emergency ==> forall|i: int|
            0 <= i < f.approvals.len() ==> self.group(k).contains(#[trigger] f.approvals[i])
        &&& f.proposal matches Some(p) ==> {
            &&& all_positive(p.dists)
            &&& sum_of(p.dists) > 0
            &&& k != FlowKind::Emergency ==> self.recipients_ok(p)
            &&& (k == FlowKind::Release || k == FlowKind::Emergency) ==> !p.gross
            &&& k == FlowKind::Refund ==> p.gross
        }
    }

    /// Well-formedness: the creation-time validation, the monetary
    /// invariants, and the per-flow invariants.  Every operation preserves
    /// it.
    pub open spec fn wf(self) -> bool {
        &&& self.payers.len() > 0
        &&& self.payees.len() > 0
        &&& 1 <= self.release_threshold <= self.release_signers.len()
        &&& 1 <= self.refund_threshold <= self.refund_signers.len()
        &&& 1 <= self.arbiter_threshold <= self.arbiters.len()
        &&& 0 <= self.balance <= MAX_AMOUNT
        &&& self.balance as int == self.deposited - self.distributed
        &&& self.distributed >= 0
        &&& self.closed ==> self.balance == 0
        &&& self.deposited == sum_of(self.deposits)
        &&& all_positive(self.deposits)
        &&& distinct_seq(keys_of(self.deposits))
        &&& all_members(self.deposits, self.payers)
        &&& forall|i: int| 0 <= i < self.deposits.len() ==> #[trigger] self.deposits[i].1 <= MAX_AMOUNT
        &&& self.flow_wf(FlowKind::Release)
        &&& self.flow_wf(FlowKind::Refund)
        &&& self.flow_wf(FlowKind::Arbiter)
        &&& self.flow_wf(FlowKind::Emergency)
    }

    /// The deposit list after `from` pays `amount`: the cumulative entry of a
    /// returning payer grows; a first-time payer is appended.
    pub open spec fn deposits_after(self, from: u64, amount: i128) -> Seq<(u64, i128)> {
        if keys_of(self.deposits).contains(from) {
            self.deposits.map_values(
                |e: (u64, i128)| if e.0 == from { (e.0, (e.1 + amount) as i128) } else { e },
            )
        } else {
            self.deposits.push((from, amount))
        }
    }

    /// Why a deposit is rejected, or `None` if it is accepted.
    pub open spec fn deposit_err(self, from: u64, amount: i128) -> Option<EscrowError> {
        if amount <= 0 {
            Some(EscrowError::BadAmount)
        } else if self.closed {
            Some(EscrowError::EscrowClosed)
        } else if !self.payers.contains(from) {
            Some(EscrowError::NotPayer)
        } else if self.balance + amount > MAX_AMOUNT
            || cum_deposit_of(self.deposits, from) + amount > MAX_AMOUNT {
            Some(EscrowError::Overflow)
        } else {
            None
        }
    }

    /// The escrow after an accepted deposit.
    pub open spec fn deposit_effect(self, from: u64, amount: i128) -> EscrowView {
        EscrowView {
            balance: (self.balance + amount) as i128,
            deposits: self.deposits_after(from, amount),
            deposited: self.deposited + amount,
            ..self
        }
    }

    /// Why opening a dispute is rejected, or `None` if it is accepted.
    pub open spec fn dispute_err(self, actor: u64) -> Option<EscrowError> {
        if self.closed {
            Some(EscrowError::EscrowClosed)
        } else if !self.payers.contains(actor) && !self.payees.contains(actor) {
            Some(EscrowError::NotParty)
        } else {
            None
        }
    }

    /// The quorum threshold of a flow.  The emergency threshold is global
    /// configuration, handed to the operation by the caller.
    pub open spec fn threshold(self, k: FlowKind) -> u32 {
        match k {
            FlowKind::Release => self.release_threshold,
            FlowKind::Refund => self.refund_threshold,
            FlowKind::Arbiter => self.arbiter_threshold,
            FlowKind::Emergency => 0,
        }
    }

    /// Why the distribution executor rejects `dists`, or `None` if it would
    /// pay it out.
    pub open spec fn execute_err(self, dists: Seq<(u64, i128)>, gross: bool, fee_bps: int) -> Option<EscrowError> {
        payout_err(dists, gross, fee_bps, self.balance as int)
    }

    /// The escrow once a distribution of `total` has been paid out: the
    /// balance shrinks, and the escrow closes when it reaches zero.
    pub open spec fn execute_effect(self, total: int) -> EscrowView {
        EscrowView {
            balance: (self.balance - total) as i128,
            closed: self.closed || self.balance - total == 0,
            distributed: self.distributed + total,
            ..self
        }
    }

    /// Why a proposal for flow `k` is rejected, or `None` if it is stored.
    /// The dispute gate depends on the flow: ordinary flows demand an
    /// undisputed escrow, the arbiter flow a disputed one, and the emergency
    /// flow ignores disputes.  `refund_side` says whether the recipients
    /// must be payers (a refund) or payees (a release); the emergency flow
    /// checks no membership at all.
    pub open spec fn propose_err(self, k: FlowKind, signer: u64, dists: Seq<(u64, i128)>, refund_side: bool) -> Option<EscrowError> {
        if self.closed {
            Some(EscrowError::EscrowClosed)
        } else if (k == FlowKind::Release || k == FlowKind::Refund) && self.disputed {
            Some(EscrowError::EscrowDisputed)
        } else if k == FlowKind::Arbiter && !self.disputed {
            Some(EscrowError::NotDisputed)
        } else if k != FlowKind::Emergency && !self.group(k).contains(signer) {
            Some(EscrowError::NotASigner)
        } else if k != FlowKind::Emergency && !refund_side && !all_members(dists, self.payees) {
            Some(EscrowError::BadPayee)
        } else if k != FlowKind::Emergency && refund_side && !all_members(dists, self.payers) {
            Some(EscrowError::BadPayer)
        } else {
            self.propose_amount_err(dists)
        }
    }

    /// The amount-side validation every proposing path shares.
    pub open spec fn propose_amount_err(self, dists: Seq<(u64, i128)>) -> Option<EscrowError> {
        if !all_positive(dists) {
            Some(EscrowError::BadAmount)
        } else if sum_of(dists) <= 0 || sum_of(dists) > self.balance {
            Some(EscrowError::BadTotal)
        } else if self.nonce == u64::MAX {
            Some(EscrowError::Overflow)
        } else {
            None
        }
    }

    /// The escrow after a proposal is stored for flow `k`: the nonce is
    /// advanced, the proposal replaces whatever was pending, and the
    /// approval set restarts at the proposer alone.
    pub open spec fn propose_effect(self, k: FlowKind, signer: u64, dists: Seq<(u64, i128)>, gross: bool) -> EscrowView {
        let bumped = EscrowView { nonce: (self.nonce + 1) as u64, ..self };
        bumped.with_flow(
            k,
            FlowView {
                proposal: Some(PropView { nonce: (self.nonce + 1) as u64, dists, gross }),
                approvals: seq![signer],
            },
        )
    }

    /// The escrow after an approval that does not reach quorum: the signer
    /// is recorded once; approving again changes nothing.
    pub open spec fn approve_effect(self, k: FlowKind, signer: u64) -> EscrowView {
        self.with_flow(
            k,
            FlowView {
                proposal: self.flow(k).proposal,
                approvals: add_unique(self.flow(k).approvals, signer),
            },
        )
    }

    /// Whether `dists`/`gross` is exactly the live proposal of flow `k`, in
    /// which case a combined propose-and-approve operation acts as an
    /// approval rather than a superseding proposal.
    pub open spec fn flow_matches(self, k: FlowKind, dists: Seq<(u64, i128)>, gross: bool) -> bool {
        match self.flow(k).proposal {
            Some(p) => p.dists == dists && p.gross == gross,
            None => false,
        }
    }

    /// The state a combined propose-and-approve operation reaches before any
    /// execution: an approval when the distribution matches the live
    /// proposal, a superseding proposal otherwise.
    pub open spec fn combined_pre(self, k: FlowKind, signer: u64, dists: Seq<(u64, i128)>, gross: bool) -> EscrowView {
        if self.flow_matches(k, dists, gross) {
            self.approve_effect(k, signer)
        } else {
            self.propose_effect(k, signer, dists, gross)
        }
    }

    /// The approval set a combined operation counts `signer` on top of:
    /// the live one when the distribution matches, a fresh one otherwise.
    pub open spec fn combined_base(self, k: FlowKind, dists: Seq<(u64, i128)>, gross: bool) -> Seq<u64> {
        if self.flow_matches(k, dists, gross) {
            self.flow(k).approvals
        } else {
            Seq::empty()
        }
    }

    /// Why an arbiter operation is rejected, or `None` if it is recorded or
    /// executed.  Arbiters act only on disputed escrows; `gross` selects the
    /// refund direction (recipients are payers, no fee).
    pub open spec fn arbiter_err(self, signer: u64, dists: Seq<(u64, i128)>, gross: bool, fee_bps: int) -> Option<EscrowError> {
        if self.closed {
            Some(EscrowError::EscrowClosed)
        } else if !self.disputed {
            Some(EscrowError::NotDisputed)
        } else if !self.arbiters.contains(signer) {
            Some(EscrowError::NotASigner)
        } else if !gross && !all_members(dists, self.payees) {
            Some(EscrowError::BadPayee)
        } else if gross && !all_members(dists, self.payers) {
            Some(EscrowError::BadPayer)
        } else if !all_positive(dists) {
            Some(EscrowError::BadAmount)
        } else if sum_of(dists) <= 0 || sum_of(dists) > self.balance {
            Some(EscrowError::BadTotal)
        } else if !self.flow_matches(FlowKind::Arbiter, dists, gross) && self.nonce == u64::MAX {
            Some(EscrowError::Overflow)
        } else if quorum_reached(
            self.combined_base(FlowKind::Arbiter, dists, gross),
            signer,
            self.arbiter_threshold,
        ) && !gross && !fees_ok(dists, fee_bps) {
            Some(EscrowError::FeeTooHigh)
        } else {
            None
        }
    }

    /// An arbiter-driven closure also settles the dispute.
    pub open spec fn arbiter_close(self) -> EscrowView {
        if self.balance == 0 {
            EscrowView { disputed: false, ..self }
        } else {
            self
        }
    }

    /// Why an emergency operation is rejected, or `None` if it is recorded
    /// or executed.  The emergency flow answers to the global emergency
    /// admins, ignores the dispute state, and checks no recipient
    /// membership: it is the unconstrained recovery path.
    pub open spec fn emergency_err(self, signer: u64, dists: Seq<(u64, i128)>, is_admin: bool, ethreshold: u32, fee_bps: int) -> Option<EscrowError> {
        if !is_admin {
            Some(EscrowError::NotASigner)
        } else if self.closed {
            Some(EscrowError::EscrowClosed)
        } else if !all_positive(dists) {
            Some(EscrowError::BadAmount)
        } else if sum_of(dists) <= 0 || sum_of(dists) > self.balance {
            Some(EscrowError::BadTotal)
        } else if !self.flow_matches(FlowKind::Emergency, dists, false) && self.nonce == u64::MAX {
            Some(EscrowError::Overflow)
        } else if quorum_reached(
            self.combined_base(FlowKind::Emergency, dists, false),
            signer,
            ethreshold,
        ) && !fees_ok(dists, fee_bps) {
            Some(EscrowError::FeeTooHigh)
        } else {
            None
        }
    }

    /// Why an auto release is rejected, or `None` if it fires: the
    /// timestamp must be configured and reached, and the balance positive.
    pub open spec fn auto_err(self, now: u64, fee_bps: int) -> Option<EscrowError> {
        if self.closed {
            Some(EscrowError::EscrowClosed)
        } else if self.disputed {
            Some(EscrowError::EscrowDisputed)
        } else {
            match self.auto_release_ts {
                None => Some(EscrowError::NoAutoRelease),
                Some(at) => if now < at {
                    Some(EscrowError::TooEarly)
                } else if self.nonce == u64::MAX {
                    Some(EscrowError::Overflow)
                } else if self.balance <= 0 {
                    Some(EscrowError::BadTotal)
                } else if !fees_ok(equal_split(self.payees, self.balance as int), fee_bps) {
                    Some(EscrowError::FeeTooHigh)
                } else {
                    None
                },
            }
        }
    }

    /// Why a refund timeout is rejected, or `None` if it fires.
    pub open spec fn refund_timeout_err(self, now: u64) -> Option<EscrowError> {
        if self.closed {
            Some(EscrowError::EscrowClosed)
        } else if self.disputed {
            Some(EscrowError::EscrowDisputed)
        } else if now < self.expiry_ts {
            Some(EscrowError::NotExpired)
        } else {
            None
        }
    }

    /// The escrow after a refund timeout: every payer is repaid up to its
    /// recorded deposit in deposit order until the balance is exhausted.
    /// Under the conservation invariant the deposits always cover the
    /// balance, so the escrow ends at balance zero, closed.
    pub open spec fn refund_timeout_effect(self) -> EscrowView {
        let left = refund_left(self.deposits, self.balance as int);
        EscrowView {
            balance: left as i128,
            closed: self.closed || left == 0,
            distributed: self.distributed + (self.balance as int - left),
            ..self
        }
    }

    /// Why an approval for an ordinary flow (release or refund) is rejected,
    /// or `None` if it is recorded or executed.
    pub open spec fn approve_err(self, k: FlowKind, signer: u64, fee_bps: int) -> Option<EscrowError> {
        if self.closed {
            Some(EscrowError::EscrowClosed)
        } else if self.disputed {
            Some(EscrowError::EscrowDisputed)
        } else if !self.group(k).contains(signer) {
            Some(EscrowError::NotASigner)
        } else {
            match self.flow(k).proposal {
                None => Some(EscrowError::NoProposal),
                Some(p) => if quorum_reached(self.flow(k).approvals, signer, self.threshold(k)) {
                    self.execute_err(p.dists, p.gross, fee_bps)
                } else {
                    None
                },
            }
        }
    }
}

/// Why a payout of `dists` against `balance` is refused: amounts must be
/// non-negative, the total positive and covered by the balance, and no fee
/// may eat past an entry.
pub open spec fn payout_err(dists: Seq<(u64, i128)>, gross: bool, fee_bps: int, balance: int) -> Option<EscrowError> {
    if !all_nonneg(dists) {
        Some(EscrowError::BadAmount)
    } else if sum_of(dists) <= 0 || sum_of(dists) > balance {
        Some(EscrowError::BadTotal)
    } else if !gross && !fees_ok(dists, fee_bps) {
        Some(EscrowError::FeeTooHigh)
    } else {
        None
    }
}

/// No fee leaves an entry with a negative net part.
pub open spec fn fees_ok(dists: Seq<(u64, i128)>, fee_bps: int) -> bool {
    forall|i: int| 0 <= i < dists.len()
        ==> #[trigger] spec_net(dists[i].1 as int, fee_bps) >= 0
}

/// The cumulative amount recorded for `from` in a deposit list, zero if the
/// payer has not deposited yet.
pub open spec fn cum_deposit_of(deposits: Seq<(u64, i128)>, from: u64) -> int
    decreases deposits.len(),
{
    if deposits.len() == 0 {
        0
    } else if deposits[0].0 == from {
        deposits[0].1 as int
    } else {
        cum_deposit_of(deposits.drop_first(), from)
    }
}

/// In a list with distinct keys the cumulative amount of `from` is the
/// amount at the index where `from` stands, and zero where it is absent.
pub proof fn lemma_cum_deposit(deposits: Seq<(u64, i128)>, from: u64)
    requires
        distinct_seq(keys_of(deposits)),
    ensures
        !keys_of(deposits).contains(from) ==> cum_deposit_of(deposits, from) == 0,
        forall|i: int| 0 <= i < deposits.len() && (#[trigger] deposits[i]).0 == from
            ==> cum_deposit_of(deposits, from) == deposits[i].1 as int,
    decreases deposits.len(),
{
    if deposits.len() > 0 {
        let rest = deposits.drop_first();
        assert(keys_of(rest) =~= keys_of(deposits).drop_first());
        lemma_cum_deposit(rest, from);
        assert forall|i: int| 0 <= i < deposits.len() && (#[trigger] deposits[i]).0 == from
            implies cum_deposit_of(deposits, from) == deposits[i].1 as int by {
            if deposits[0].0 == from {
                assert(keys_of(deposits)[0] == from);
                assert(keys_of(deposits)[i] == from);
                assert(i == 0);
            } else {
                assert(rest[i - 1] == deposits[i]);
            }
        }
        if !keys_of(deposits).contains(from) {
            assert(keys_of(deposits)[0] != from);
            assert(!keys_of(rest).contains(from)) by {
                if keys_of(rest).contains(from) {
                    let j = choose|j: int| 0 <= j < keys_of(rest).len() && keys_of(rest)[j] == from;
                    assert(keys_of(deposits)[j + 1] == from);
                }
            }
        }
    }
}

/// Replacing one entry moves the sum by the difference of the amounts.
pub proof fn lemma_sum_update(s: Seq<(u64, i128)>, i: int, e: (u64, i128))
    requires
        0 <= i < s.len(),
    ensures
        sum_of(s.update(i, e)) == sum_of(s) - s[i].1 as int + e.1 as int,
    decreases s.len(),
{
    if i == s.len() - 1 {
        assert(s.update(i, e).drop_last() =~= s.drop_last());
        assert(s.update(i, e).last() == e);
    } else {
        assert(s.update(i, e).drop_last() =~= s.drop_last().update(i, e));
        assert(s.update(i, e).last() == s.last());
        lemma_sum_update(s.drop_last(), i, e);
    }
}

/// Appending one entry adds its amount to the sum.
pub proof fn lemma_sum_push(s: Seq<(u64, i128)>, e: (u64, i128))
    ensures
        sum_of(s.push(e)) == sum_of(s) + e.1 as int,
{
    assert(s.push(e).drop_last() =~= s);
}

/// A sum over a prefix grows entry by entry.
pub proof fn lemma_sum_take_step(dists: Seq<(u64, i128)>, i: int)
    requires
        0 <= i < dists.len(),
    ensures
        sum_of(dists.take(i + 1)) == sum_of(dists.take(i)) + dists[i].1 as int,
{
    assert(dists.take(i + 1).drop_last() =~= dists.take(i));
    assert(dists.take(i + 1).last() == dists[i]);
}

/// The whole sequence is its own full prefix.
pub proof fn lemma_sum_take_all(dists: Seq<(u64, i128)>)
    ensures
        sum_of(dists.take(dists.len() as int)) == sum_of(dists),
{
    assert(dists.take(dists.len() as int) =~= dists);
}

/// A fee sum over a prefix grows entry by entry.
pub proof fn lemma_fee_total_take_step(dists: Seq<(u64, i128)>, fee_bps: int, i: int)
    requires
        0 <= i < dists.len(),
    ensures
        fee_total_of(dists.take(i + 1), fee_bps)
            == fee_total_of(dists.take(i), fee_bps) + spec_fee(dists[i].1 as int, fee_bps),
{
    assert(dists.take(i + 1).drop_last() =~= dists.take(i));
    assert(dists.take(i + 1).last() == dists[i]);
}

/// A sum of non-negative amounts is non-negative, and bounds every prefix sum.
pub proof fn lemma_sum_nonneg(dists: Seq<(u64, i128)>)
    requires
        all_nonneg(dists),
    ensures
        sum_of(dists) >= 0,
        forall|i: int| 0 <= i <= dists.len() ==> #[trigger] sum_of(dists.take(i)) <= sum_of(dists),
    decreases dists.len(),
{
    if dists.len() == 0 {
        assert(forall|i: int| 0 <= i <= dists.len() ==> dists.take(i) =~= dists);
    } else {
        assert(all_nonneg(dists.drop_last()));
        lemma_sum_nonneg(dists.drop_last());
        assert(sum_of(dists) >= sum_of(dists.drop_last()));
        assert forall|i: int| 0 <= i <= dists.len() implies #[trigger] sum_of(dists.take(i)) <= sum_of(dists) by {
            if i < dists.len() {
                assert(dists.take(i) =~= dists.drop_last().take(i));
            } else {
                assert(dists.take(i) =~= dists);
            }
        }
    }
}

/// A sum can be split off at the front as well.
pub proof fn lemma_sum_first(s: Seq<(u64, i128)>)
    requires
        s.len() > 0,
    ensures
        sum_of(s) == s[0].1 as int + sum_of(s.drop_first()),
    decreases s.len(),
{
    if s.len() == 1 {
        assert(s.drop_last().len() == 0);
        assert(s.drop_first().len() == 0);
        assert(sum_of(s.drop_last()) == 0);
        assert(sum_of(s.drop_first()) == 0);
        assert(s.last() == s[0]);
    } else {
        lemma_sum_first(s.drop_last());
        assert(s.drop_last()[0] == s[0]);
        assert(s.drop_last().drop_first() =~= s.drop_first().drop_last());
        assert(s.drop_first().last() == s.last());
        assert(sum_of(s.drop_first())
            == sum_of(s.drop_first().drop_last()) + s.drop_first().last().1 as int);
    }
}

/// In a non-negative distribution no single entry exceeds the total.
pub proof fn lemma_entry_le_sum(dists: Seq<(u64, i128)>, i: int)
    requires
        all_nonneg(dists),
        0 <= i < dists.len(),
    ensures
        dists[i].1 as int <= sum_of(dists),
    decreases dists.len(),
{
    if i == dists.len() - 1 {
        assert(all_nonneg(dists.drop_last()));
        lemma_sum_nonneg(dists.drop_last());
    } else {
        assert(all_nonneg(dists.drop_last()));
        lemma_entry_le_sum(dists.drop_last(), i);
    }
}

/// The sum of an equal-split prefix: `k` base shares plus one remainder
/// unit for each of the first `min(k, rem)` payees.
proof fn lemma_split_prefix_sum(payees: Seq<u64>, balance: int, k: int)
    requires
        payees.len() > 0,
        0 <= balance <= MAX_AMOUNT as int,
        0 <= k <= payees.len(),
    ensures
        sum_of(equal_split(payees, balance).take(k))
            == k * (balance / payees.len() as int)
                + (if k <= balance % payees.len() as int { k } else { balance % payees.len() as int }),
    decreases k,
{
    let n = payees.len() as int;
    let base = balance / n;
    let rem = balance % n;
    vstd::arithmetic::div_mod::lemma_div_pos_is_pos(balance, n);
    vstd::arithmetic::div_mod::lemma_div_is_ordered(balance, MAX_AMOUNT as int, n);
    vstd::arithmetic::div_mod::lemma_div_basics(MAX_AMOUNT as int);
    vstd::arithmetic::div_mod::lemma_div_nonincreasing(MAX_AMOUNT as int, n);
    vstd::arithmetic::div_mod::lemma_mod_division_less_than_divisor(balance, n);
    if k == 0 {
        assert(equal_split(payees, balance).take(0) =~= Seq::empty());
        assert(0 * base == 0) by (nonlinear_arith);
    } else {
        lemma_split_prefix_sum(payees, balance, k - 1);
        lemma_sum_take_step(equal_split(payees, balance), k - 1);
        assert(equal_split(payees, balance)[k - 1].1 as int
            == base + if k - 1 < rem { 1 as int } else { 0 });
        assert(k * base == (k - 1) * base + base) by (nonlinear_arith);
    }
}

/// The equal split pays out exactly the balance: everyone gets the
/// quotient, the remainder goes one unit each to the earliest payees.
pub proof fn lemma_equal_split_total(payees: Seq<u64>, balance: int)
    requires
        payees.len() > 0,
        0 <= balance <= MAX_AMOUNT as int,
    ensures
        equal_split(payees, balance).len() == payees.len(),
        all_nonneg(equal_split(payees, balance)),
        sum_of(equal_split(payees, balance)) == balance,
{
    let n = payees.len() as int;
    let base = balance / n;
    let rem = balance % n;
    vstd::arithmetic::div_mod::lemma_div_pos_is_pos(balance, n);
    vstd::arithmetic::div_mod::lemma_div_nonincreasing(MAX_AMOUNT as int, n);
    vstd::arithmetic::div_mod::lemma_div_is_ordered(balance, MAX_AMOUNT as int, n);
    vstd::arithmetic::div_mod::lemma_mod_division_less_than_divisor(balance, n);
    lemma_split_prefix_sum(payees, balance, n);
    assert(equal_split(payees, balance).take(n) =~= equal_split(payees, balance));
    vstd::arithmetic::div_mod::lemma_fundamental_div_mod(balance, n);
    vstd::arithmetic::mul::lemma_mul_is_commutative(n, base);
}

/// Once the running balance is within what the deposits cover, the refund
/// plan exhausts it completely.
pub proof fn lemma_refund_exhausts(deposits: Seq<(u64, i128)>, remaining: int)
    requires
        all_positive(deposits),
        0 <= remaining <= sum_of(deposits),
    ensures
        refund_left(deposits, remaining) == 0,
    decreases deposits.len(),
{
    if deposits.len() == 0 {
        assert(remaining == 0);
    } else if remaining > 0 {
        lemma_sum_first(deposits);
        let a = deposits[0].1 as int;
        let amt = if a <= remaining { a } else { remaining };
        assert(all_positive(deposits.drop_first())) by {
            assert(forall|i: int| 0 <= i < deposits.drop_first().len()
                ==> deposits.drop_first()[i] == deposits[i + 1]);
        }
        assert(all_nonneg(deposits.drop_first()));
        lemma_sum_nonneg(deposits.drop_first());
        lemma_refund_exhausts(deposits.drop_first(), remaining - amt);
    }
}

/// Whether `who` occurs in `list`.
pub fn is_member(list: &Vec<u64>, who: u64) -> (r: bool)
    ensures
        r == list@.contains(who),
{
    let mut i: usize = 0;
    while i < list.len()
        invariant
            i <= list@.len(),
            forall|j: int| 0 <= j < i ==> list@[j] != who,
        decreases list@.len() - i,
    {
        if list[i] == who {
            assert(list@[i as int] == who);
            return true;
        }
        i += 1;
    }
    false
}

/// Whether every amount of the distribution is non-negative.
pub fn check_nonneg(dists: &Vec<(u64, i128)>) -> (r: bool)
    ensures
        r == all_nonneg(dists@),
{
    let mut i: usize = 0;
    while i < dists.len()
        invariant
            i <= dists@.len(),
            forall|j: int| 0 <= j < i ==> #[trigger] dists@[j].1 >= 0,
        decreases dists@.len() - i,
    {
        if dists[i].1 < 0 {
            return false;
        }
        i += 1;
    }
    true
}

/// Whether every amount of the distribution is strictly positive.
pub fn check_positive(dists: &Vec<(u64, i128)>) -> (r: bool)
    ensures
        r == all_positive(dists@),
{
    let mut i: usize = 0;
    while i < dists.len()
        invariant
            i <= dists@.len(),
            forall|j: int| 0 <= j < i ==> #[trigger] dists@[j].1 > 0,
        decreases dists@.len() - i,
    {
        if dists[i].1 <= 0 {
            return false;
        }
        i += 1;
    }
    true
}

/// Whether every recipient of the distribution belongs to `group`.
pub fn check_members(dists: &Vec<(u64, i128)>, group: &Vec<u64>) -> (r: bool)
    ensures
        r == all_members(dists@, group@),
{
    let mut i: usize = 0;
    while i < dists.len()
        invariant
            i <= dists@.len(),
            forall|j: int| 0 <= j < i ==> group@.contains(#[trigger] dists@[j].0),
        decreases dists@.len() - i,
    {
        if !is_member(group, dists[i].0) {
            return false;
        }
        i += 1;
    }
    true
}

/// The total of a non-negative distribution, or `None` where it leaves the
/// `i128` range (in which case it certainly exceeds any balance).
pub fn sum_amounts(dists: &Vec<(u64, i128)>) -> (r: Option<i128>)
    requires
        all_nonneg(dists@),
    ensures
        r matches Some(s) ==> s as int == sum_of(dists@),
        r is None ==> sum_of(dists@) > i128::MAX as int,
{
    proof {
        lemma_sum_nonneg(dists@);
    }
    let mut acc: i128 = 0;
    let mut i: usize = 0;
    while i < dists.len()
        invariant
            i <= dists@.len(),
            all_nonneg(dists@),
            acc as int == sum_of(dists@.take(i as int)),
            acc >= 0,
        decreases dists@.len() - i,
    {
        proof {
            lemma_sum_take_step(dists@, i as int);
        }
        match acc.checked_add(dists[i].1) {
            Some(next) => {
                acc = next;
                proof {
                    lemma_sum_nonneg(dists@.take(i as int));
                }
            },
            None => {
                proof {
                    lemma_sum_nonneg(dists@);
                }
                return None;
            },
        }
        i += 1;
    }
    proof {
        lemma_sum_take_all(dists@);
    }
    Some(acc)
}

/// The Distribution Executor's computation: validates `dists` against
/// `balance` and produces the transfer commands and the total, without
/// touching any state.  The fee check is kept here defensively even though
/// configuration validation keeps rates at or below 10_000 bps.
pub fn build_payout(
    dists: &Vec<(u64, i128)>,
    gross: bool,
    fee_bps: u32,
    fee_collector: u64,
    balance: i128,
) -> (r: Result<(Vec<Transfer>, i128), EscrowError>)
    requires
        0 <= balance <= MAX_AMOUNT,
    ensures
        match payout_err(dists@, gross, fee_bps as int, balance as int) {
            Some(e) => r === Err(e),
            None => r matches Ok(p)
                && p.0@ == payout_of(dists@, gross, fee_bps as int, fee_collector)
                && p.1 as int == sum_of(dists@)
                && 0 < p.1 <= balance,
        },
{
    if !check_nonneg(dists) {
        return Err(EscrowError::BadAmount);
    }
    proof {
        lemma_sum_nonneg(dists@);
    }
    let total = match sum_amounts(dists) {
        None => {
            return Err(EscrowError::BadTotal);
        },
        Some(t) => t,
    };
    if total <= 0 || total > balance {
        return Err(EscrowError::BadTotal);
    }
    let mut ts: Vec<Transfer> = Vec::new();
    let n = dists.len();
    if gross {
        let mut i: usize = 0;
        while i < n
            invariant
                i <= n,
                n == dists@.len(),
                ts@ == gross_payout(dists@.take(i as int)),
            decreases n - i,
        {
            let (to, amount) = dists[i];
            ts.push(Transfer { to, amount });
            proof {
                assert(gross_payout(dists@.take(i + 1)) =~= gross_payout(
                    dists@.take(i as int),
                ).push(Transfer { to, amount }));
            }
            i += 1;
        }
        proof {
            assert(dists@.take(n as int) =~= dists@);
        }
        Ok((ts, total))
    } else {
        let mut fee_acc: i128 = 0;
        let mut i: usize = 0;
        while i < n
            invariant
                i <= n,
                n == dists@.len(),
                all_nonneg(dists@),
                !gross,
                0 <= balance <= MAX_AMOUNT,
                total as int == sum_of(dists@),
                0 < total <= balance,
                fee_acc as int == fee_total_of(dists@.take(i as int), fee_bps as int),
                0 <= fee_acc,
                fee_acc as int <= sum_of(dists@.take(i as int)),
                ts@ == dists@.take(i as int).map_values(
                    |e: (u64, i128)| Transfer {
                        to: e.0,
                        amount: spec_net(e.1 as int, fee_bps as int) as i128,
                    },
                ),
                forall|j: int| 0 <= j < i ==> spec_net(#[trigger] dists@[j].1 as int, fee_bps as int) >= 0,
            decreases n - i,
        {
            let (to, amount) = dists[i];
            proof {
                lemma_entry_le_sum(dists@, i as int);
                lemma_sum_take_step(dists@, i as int);
                lemma_fee_total_take_step(dists@, fee_bps as int, i as int);
                lemma_sum_nonneg(dists@);
            }
            match crate::fee::compute_net(amount, fee_bps) {
                Err(_) => {
                    proof {
                        assert(spec_net(dists@[i as int].1 as int, fee_bps as int) < 0);
                        assert(!fees_ok(dists@, fee_bps as int));
                    }
                    return Err(EscrowError::FeeTooHigh);
                },
                Ok((net, f)) => {
                    ts.push(Transfer { to, amount: net });
                    proof {
                        assert(dists@.take(i + 1).map_values(
                            |e: (u64, i128)| Transfer {
                                to: e.0,
                                amount: spec_net(e.1 as int, fee_bps as int) as i128,
                            },
                        ) =~= dists@.take(i as int).map_values(
                            |e: (u64, i128)| Transfer {
                                to: e.0,
                                amount: spec_net(e.1 as int, fee_bps as int) as i128,
                            },
                        ).push(Transfer { to, amount: net }));
                    }
                    fee_acc = fee_acc + f;
                },
            }
            i += 1;
        }
        proof {
            assert(dists@.take(n as int) =~= dists@);
        }
        if fee_acc > 0 {
            ts.push(Transfer { to: fee_collector, amount: fee_acc });
        }
        Ok((ts, total))
    }
}

/// Whether two distributions are entry-for-entry equal.
pub fn dists_equal(a: &Vec<(u64, i128)>, b: &Vec<(u64, i128)>) -> (r: bool)
    ensures
        r == (a@ == b@),
{
    if a.len() != b.len() {
        return false;
    }
    let mut i: usize = 0;
    while i < a.len()
        invariant
            i <= a@.len(),
            a@.len() == b@.len(),
            forall|j: int| 0 <= j < i ==> a@[j] == b@[j],
        decreases a@.len() - i,
    {
        let (x, m) = a[i];
        let (y, k) = b[i];
        if x != y || m != k {
            assert(a@[i as int] != b@[i as int]);
            return false;
        }
        i += 1;
    }
    proof {
        assert(a@ =~= b@);
    }
    true
}

/// Why creating an escrow from `params` is rejected, or `None` if it is
/// accepted: every threshold must satisfy `1 <= t <= |group|`, and neither
/// party set may be empty.
pub open spec fn init_err(params: EscrowInit) -> Option<EscrowError> {
    if params.release_threshold == 0 || params.release_threshold > params.release_signers@.len() {
        Some(EscrowError::BadThreshold)
    } else if params.refund_threshold == 0 || params.refund_threshold > params.refund_signers@.len() {
        Some(EscrowError::BadThreshold)
    } else if params.arbiter_threshold == 0 || params.arbiter_threshold > params.arbiters@.len() {
        Some(EscrowError::BadThreshold)
    } else if params.payers@.len() == 0 || params.payees@.len() == 0 {
        Some(EscrowError::EmptyParties)
    } else {
        None
    }
}

impl FlowState {
    /// A flow with nothing proposed and nobody signed up.
    pub fn empty() -> (r: FlowState)
        ensures
            r@ == empty_flow(),
    {
        let r = FlowState { proposal: None, approvals: Vec::new() };
        proof {
            assert(r@ =~= empty_flow());
        }
        r
    }
}

impl Escrow {
    /// Validates `params` and opens the escrow: no funds, no dispute, no live
    /// proposal anywhere.
    pub fn from_init(params: EscrowInit) -> (r: Result<Escrow, EscrowError>)
        ensures
            match init_err(params) {
                Some(e) => r === Err(e),
                None => r matches Ok(esc) && esc@.wf() && esc@ == EscrowView {
                    token: params.token,
                    payers: params.payers@,
                    payees: params.payees@,
                    release_signers: params.release_signers@,
                    release_threshold: params.release_threshold,
                    refund_signers: params.refund_signers@,
                    refund_threshold: params.refund_threshold,
                    arbiters: params.arbiters@,
                    arbiter_threshold: params.arbiter_threshold,
                    auto_release_ts: params.auto_release_ts,
                    expiry_ts: params.expiry_ts,
                    disputed: false,
                    balance: 0,
                    deposits: Seq::empty(),
                    closed: false,
                    nonce: 0,
                    release: empty_flow(),
                    refund: empty_flow(),
                    arbiter: empty_flow(),
                    emergency: empty_flow(),
                    deposited: 0,
                    distributed: 0,
                },
            },
    {
        if params.release_threshold == 0
            || params.release_threshold as usize > params.release_signers.len() {
            return Err(EscrowError::BadThreshold);
        }
        if params.refund_threshold == 0
            || params.refund_threshold as usize > params.refund_signers.len() {
            return Err(EscrowError::BadThreshold);
        }
        if params.arbiter_threshold == 0
            || params.arbiter_threshold as usize > params.arbiters.len() {
            return Err(EscrowError::BadThreshold);
        }
        if params.payers.len() == 0 || params.payees.len() == 0 {
            return Err(EscrowError::EmptyParties);
        }
        let esc = Escrow {
            token: params.token,
            payers: params.payers,
            payees: params.payees,
            release_signers: params.release_signers,
            release_threshold: params.release_threshold,
            refund_signers: params.refund_signers,
            refund_threshold: params.refund_threshold,
            arbiters: params.arbiters,
            arbiter_threshold: params.arbiter_threshold,
            auto_release_ts: params.auto_release_ts,
            expiry_ts: params.expiry_ts,
            disputed: false,
            balance: 0,
            deposits: Vec::new(),
            closed: false,
            nonce: 0,
            release: FlowState::empty(),
            refund: FlowState::empty(),
            arbiter: FlowState::empty(),
            emergency: FlowState::empty(),
            deposited: Ghost(0),
            distributed: Ghost(0),
        };
        Ok(esc)
    }

    /// Records a deposit by `from`: the balance and the payer's cumulative
    /// entry grow by `amount`.  The host pulls the tokens in before the call.
    pub fn deposit(&mut self, from: u64, amount: i128) -> (r: Result<(), EscrowError>)
        requires
            old(self)@.wf(),
        ensures
            final(self)@.wf(),
            match old(self)@.deposit_err(from, amount) {
                Some(e) => r === Err(e) && final(self)@ == old(self)@,
                None => r is Ok && final(self)@ == old(self)@.deposit_effect(from, amount),
            },
    {
        if amount <= 0 {
            return Err(EscrowError::BadAmount);
        }
        if self.closed {
            return Err(EscrowError::EscrowClosed);
        }
        if !is_member(&self.payers, from) {
            return Err(EscrowError::NotPayer);
        }
        proof {
            lemma_cum_deposit(self.deposits@, from);
        }
        if self.balance > MAX_AMOUNT - amount {
            return Err(EscrowError::Overflow);
        }
        // find the payer's entry, if any
        let mut i: usize = 0;
        let n = self.deposits.len();
        while i < n && self.deposits[i].0 != from
            invariant
                i <= n,
                n == self.deposits@.len(),
                forall|j: int| 0 <= j < i ==> (#[trigger] self.deposits@[j]).0 != from,
            decreases n - i,
        {
            i += 1;
        }
        if i < n {
            {
                let k = i;
                let (p, a) = self.deposits[k];
                if a > MAX_AMOUNT - amount {
                    return Err(EscrowError::Overflow);
                }
                proof {
                    lemma_sum_update(self.deposits@, k as int, (p, (a + amount) as i128));
                }
                self.deposits.set(k, (p, a + amount));
                proof {
                    let ks = keys_of(old(self).deposits@);
                    assert(ks[k as int] == from);
                    assert forall|j: int| 0 <= j < old(self).deposits@.len() && j != k as int
                        implies (#[trigger] old(self).deposits@[j]).0 != from by {
                        assert(ks[j] == old(self).deposits@[j].0);
                    }
                    assert(keys_of(self.deposits@) =~= keys_of(old(self).deposits@));
                    assert(self.deposits@ =~= old(self)@.deposits_after(from, amount));
                }
            }
        } else {
            proof {
                assert(!keys_of(self.deposits@).contains(from)) by {
                    if keys_of(self.deposits@).contains(from) {
                        let j = choose|j: int|
                            0 <= j < keys_of(self.deposits@).len()
                                && keys_of(self.deposits@)[j] == from;
                        assert(self.deposits@[j].0 == from);
                    }
                }
                lemma_sum_push(self.deposits@, (from, amount));
            }
            self.deposits.push((from, amount));
            proof {
                assert(keys_of(self.deposits@) =~= keys_of(old(self).deposits@).push(from));
            }
        }
        self.balance = self.balance + amount;
        self.deposited = Ghost(self.deposited@ + amount as int);
        proof {
            assert(self@ =~= old(self)@.deposit_effect(from, amount));
            assert(all_positive(self.deposits@));
            assert(distinct_seq(keys_of(self.deposits@)));
            assert(all_members(self.deposits@, self.payers@));
        }
        Ok(())
    }

    /// Debits an already validated total: the Distribution Executor's state
    /// change, separated from its transfer computation.
    fn apply_total(&mut self, total: i128)
        requires
            old(self)@.wf(),
            0 < total <= old(self).balance,
        ensures
            final(self)@.wf(),
            final(self)@ == old(self)@.execute_effect(total as int),
    {
        self.balance = self.balance - total;
        if self.balance == 0 {
            self.closed = true;
        }
        self.distributed = Ghost(self.distributed@ + total as int);
        proof {
            assert(self@ =~~= old(self)@.execute_effect(total as int));
        }
    }

    /// The Distribution Executor: re-validates `dists` against the current
    /// balance, debits the total, closes the escrow when the balance reaches
    /// zero, and returns the transfer commands.
    pub fn execute_distribution(
        &mut self,
        dists: &Vec<(u64, i128)>,
        gross: bool,
        fee_bps: u32,
        fee_collector: u64,
    ) -> (r: Result<Vec<Transfer>, EscrowError>)
        requires
            old(self)@.wf(),
        ensures
            final(self)@.wf(),
            match old(self)@.execute_err(dists@, gross, fee_bps as int) {
                Some(e) => r === Err(e) && final(self)@ == old(self)@,
                None => r matches Ok(ts)
                    && ts@ == payout_of(dists@, gross, fee_bps as int, fee_collector)
                    && final(self)@ == old(self)@.execute_effect(sum_of(dists@)),
            },
    {
        match build_payout(dists, gross, fee_bps, fee_collector, self.balance) {
            Err(e) => Err(e),
            Ok((ts, total)) => {
                self.apply_total(total);
                Ok(ts)
            },
        }
    }

    /// Stores a release proposal: a distribution to payees awaiting the
    /// release quorum.  Supersedes any pending release proposal, restarting
    /// its approvals at the proposer alone.
    pub fn propose_release(&mut self, signer: u64, dists: Vec<(u64, i128)>) -> (r: Result<(), EscrowError>)
        requires
            old(self)@.wf(),
        ensures
            final(self)@.wf(),
            match old(self)@.propose_err(FlowKind::Release, signer, dists@, false) {
                Some(e) => r === Err(e) && final(self)@ == old(self)@,
                None => r is Ok
                    && final(self)@ == old(self)@.propose_effect(FlowKind::Release, signer, dists@, false),
            },
    {
        let ghost dv = dists@;
        if self.closed {
            return Err(EscrowError::EscrowClosed);
        }
        if self.disputed {
            return Err(EscrowError::EscrowDisputed);
        }
        if !is_member(&self.release_signers, signer) {
            return Err(EscrowError::NotASigner);
        }
        if !check_members(&dists, &self.payees) {
            return Err(EscrowError::BadPayee);
        }
        if !check_positive(&dists) {
            return Err(EscrowError::BadAmount);
        }
        let total = match sum_amounts(&dists) {
            None => {
                return Err(EscrowError::BadTotal);
            },
            Some(t) => t,
        };
        if total <= 0 || total > self.balance {
            return Err(EscrowError::BadTotal);
        }
        if self.nonce == u64::MAX {
            return Err(EscrowError::Overflow);
        }
        self.nonce = self.nonce + 1;
        let mut approvals: Vec<u64> = Vec::new();
        approvals.push(signer);
        self.release = FlowState {
            proposal: Some(Proposal { nonce: self.nonce, dists, gross: false }),
            approvals,
        };
        proof {
            assert(self@ =~~= old(self)@.propose_effect(FlowKind::Release, signer, dv, false));
        }
        Ok(())
    }

    /// Stores a refund proposal: a gross distribution back to payers
    /// awaiting the refund quorum.
    pub fn propose_refund(&mut self, signer: u64, dists: Vec<(u64, i128)>) -> (r: Result<(), EscrowError>)
        requires
            old(self)@.wf(),
        ensures
            final(self)@.wf(),
            match old(self)@.propose_err(FlowKind::Refund, signer, dists@, true) {
                Some(e) => r === Err(e) && final(self)@ == old(self)@,
                None => r is Ok
                    && final(self)@ == old(self)@.propose_effect(FlowKind::Refund, signer, dists@, true),
            },
    {
        let ghost dv = dists@;
        if self.closed {
            return Err(EscrowError::EscrowClosed);
        }
        if self.disputed {
            return Err(EscrowError::EscrowDisputed);
        }
        if !is_member(&self.refund_signers, signer) {
            return Err(EscrowError::NotASigner);
        }
        if !check_members(&dists, &self.payers) {
            return Err(EscrowError::BadPayer);
        }
        if !check_positive(&dists) {
            return Err(EscrowError::BadAmount);
        }
        let total = match sum_amounts(&dists) {
            None => {
                return Err(EscrowError::BadTotal);
            },
            Some(t) => t,
        };
        if total <= 0 || total > self.balance {
            return Err(EscrowError::BadTotal);
        }
        if self.nonce == u64::MAX {
            return Err(EscrowError::Overflow);
        }
        self.nonce = self.nonce + 1;
        let mut approvals: Vec<u64> = Vec::new();
        approvals.push(signer);
        self.refund = FlowState {
            proposal: Some(Proposal { nonce: self.nonce, dists, gross: true }),
            approvals,
        };
        proof {
            assert(self@ =~~= old(self)@.propose_effect(FlowKind::Refund, signer, dv, true));
        }
        Ok(())
    }

    /// Records a release approval, executing the pending release proposal
    /// the moment the quorum is reached.  Re-signing is a no-op; quorum
    /// consumption clears the proposal and its approvals before the
    /// transfers are handed out, so nothing can execute twice.
    pub fn approve_release(&mut self, signer: u64, fee_bps: u32, fee_collector: u64) -> (r: Result<Option<Vec<Transfer>>, EscrowError>)
        requires
            old(self)@.wf(),
        ensures
            final(self)@.wf(),
            match old(self)@.approve_err(FlowKind::Release, signer, fee_bps as int) {
                Some(e) => r === Err(e) && final(self)@ == old(self)@,
                None => match old(self)@.release.proposal {
                    None => false,
                    Some(p) => if quorum_reached(
                        old(self)@.release.approvals,
                        signer,
                        old(self)@.release_threshold,
                    ) {
                        r matches Ok(Some(ts))
                            && ts@ == payout_of(p.dists, p.gross, fee_bps as int, fee_collector)
                            && final(self)@ == old(self)@.with_flow(
                                FlowKind::Release,
                                empty_flow(),
                            ).execute_effect(sum_of(p.dists))
                    } else {
                        r === Ok(None)
                            && final(self)@ == old(self)@.approve_effect(FlowKind::Release, signer)
                    },
                },
            },
    {
        if self.closed {
            return Err(EscrowError::EscrowClosed);
        }
        if self.disputed {
            return Err(EscrowError::EscrowDisputed);
        }
        if !is_member(&self.release_signers, signer) {
            return Err(EscrowError::NotASigner);
        }
        let already = is_member(&self.release.approvals, signer);
        let cur = self.release.approvals.len();
        let t = self.release_threshold as usize;
        let quorum = if already { cur >= t } else { cur >= t - 1 };
        if quorum {
            let built = match &self.release.proposal {
                None => {
                    return Err(EscrowError::NoProposal);
                },
                Some(p) => build_payout(&p.dists, p.gross, fee_bps, fee_collector, self.balance),
            };
            match built {
                Err(e) => Err(e),
                Ok((ts, total)) => {
                    self.release = FlowState::empty();
                    self.apply_total(total);
                    Ok(Some(ts))
                },
            }
        } else {
            if self.release.proposal.is_none() {
                return Err(EscrowError::NoProposal);
            }
            if !already {
                self.release.approvals.push(signer);
            }
            proof {
                assert(self@ =~~= old(self)@.approve_effect(FlowKind::Release, signer));
            }
            Ok(None)
        }
    }

    /// Records a refund approval, executing the pending refund proposal
    /// gross (no fee) the moment the quorum is reached.
    pub fn approve_refund(&mut self, signer: u64, fee_bps: u32, fee_collector: u64) -> (r: Result<Option<Vec<Transfer>>, EscrowError>)
        requires
            old(self)@.wf(),
        ensures
            final(self)@.wf(),
            match old(self)@.approve_err(FlowKind::Refund, signer, fee_bps as int) {
                Some(e) => r === Err(e) && final(self)@ == old(self)@,
                None => match old(self)@.refund.proposal {
                    None => false,
                    Some(p) => if quorum_reached(
                        old(self)@.refund.approvals,
                        signer,
                        old(self)@.refund_threshold,
                    ) {
                        r matches Ok(Some(ts))
                            && ts@ == payout_of(p.dists, p.gross, fee_bps as int, fee_collector)
                            && final(self)@ == old(self)@.with_flow(
                                FlowKind::Refund,
                                empty_flow(),
                            ).execute_effect(sum_of(p.dists))
                    } else {
                        r === Ok(None)
                            && final(self)@ == old(self)@.approve_effect(FlowKind::Refund, signer)
                    },
                },
            },
    {
        if self.closed {
            return Err(EscrowError::EscrowClosed);
        }
        if self.disputed {
            return Err(EscrowError::EscrowDisputed);
        }
        if !is_member(&self.refund_signers, signer) {
            return Err(EscrowError::NotASigner);
        }
        let already = is_member(&self.refund.approvals, signer);
        let cur = self.refund.approvals.len();
        let t = self.refund_threshold as usize;
        let quorum = if already { cur >= t } else { cur >= t - 1 };
        if quorum {
            let built = match &self.refund.proposal {
                None => {
                    return Err(EscrowError::NoProposal);
                },
                Some(p) => build_payout(&p.dists, p.gross, fee_bps, fee_collector, self.balance),
            };
            match built {
                Err(e) => Err(e),
                Ok((ts, total)) => {
                    self.refund = FlowState::empty();
                    self.apply_total(total);
                    Ok(Some(ts))
                },
            }
        } else {
            if self.refund.proposal.is_none() {
                return Err(EscrowError::NoProposal);
            }
            if !already {
                self.refund.approvals.push(signer);
            }
            proof {
                assert(self@ =~~= old(self)@.approve_effect(FlowKind::Refund, signer));
            }
            Ok(None)
        }
    }

    /// The shared arbiter operation: a proposal when `dists` is new, an
    /// approval when it matches the live arbiter proposal, and execution at
    /// quorum.  An arbiter-driven closure also clears the dispute.
    fn arbiter_op(
        &mut self,
        signer: u64,
        dists: Vec<(u64, i128)>,
        gross: bool,
        fee_bps: u32,
        fee_collector: u64,
    ) -> (r: Result<Option<Vec<Transfer>>, EscrowError>)
        requires
            old(self)@.wf(),
        ensures
            final(self)@.wf(),
            match old(self)@.arbiter_err(signer, dists@, gross, fee_bps as int) {
                Some(e) => r === Err(e) && final(self)@ == old(self)@,
                None => {
                    let pre = old(self)@.combined_pre(FlowKind::Arbiter, signer, dists@, gross);
                    if quorum_reached(
                        old(self)@.combined_base(FlowKind::Arbiter, dists@, gross),
                        signer,
                        old(self)@.arbiter_threshold,
                    ) {
                        r matches Ok(Some(ts))
                            && ts@ == payout_of(dists@, gross, fee_bps as int, fee_collector)
                            && final(self)@ == pre.with_flow(FlowKind::Arbiter, empty_flow())
                                .execute_effect(sum_of(dists@)).arbiter_close()
                    } else {
                        r === Ok(None) && final(self)@ == pre
                    }
                },
            },
    {
        let ghost dv = dists@;
        if self.closed {
            return Err(EscrowError::EscrowClosed);
        }
        if !self.disputed {
            return Err(EscrowError::NotDisputed);
        }
        if !is_member(&self.arbiters, signer) {
            return Err(EscrowError::NotASigner);
        }
        if !gross && !check_members(&dists, &self.payees) {
            return Err(EscrowError::BadPayee);
        }
        if gross && !check_members(&dists, &self.payers) {
            return Err(EscrowError::BadPayer);
        }
        if !check_positive(&dists) {
            return Err(EscrowError::BadAmount);
        }
        let total = match sum_amounts(&dists) {
            None => {
                return Err(EscrowError::BadTotal);
            },
            Some(t) => t,
        };
        if total <= 0 || total > self.balance {
            return Err(EscrowError::BadTotal);
        }
        let matching = match &self.arbiter.proposal {
            Some(p) => p.gross == gross && dists_equal(&p.dists, &dists),
            None => false,
        };
        if !matching && self.nonce == u64::MAX {
            return Err(EscrowError::Overflow);
        }
        let already = if matching { is_member(&self.arbiter.approvals, signer) } else { false };
        let cur = if matching { self.arbiter.approvals.len() } else { 0 };
        let t = self.arbiter_threshold as usize;
        let quorum = if already { cur >= t } else { cur >= t - 1 };
        if quorum {
            match build_payout(&dists, gross, fee_bps, fee_collector, self.balance) {
                Err(e) => Err(e),
                Ok((ts, tot)) => {
                    if !matching {
                        self.nonce = self.nonce + 1;
                    }
                    self.arbiter = FlowState::empty();
                    self.apply_total(tot);
                    if self.balance == 0 {
                        self.disputed = false;
                    }
                    proof {
                        let pre = old(self)@.combined_pre(FlowKind::Arbiter, signer, dv, gross);
                        assert(self@ =~~= pre.with_flow(FlowKind::Arbiter, empty_flow())
                            .execute_effect(sum_of(dv)).arbiter_close());
                    }
                    Ok(Some(ts))
                },
            }
        } else {
            if matching {
                if !already {
                    self.arbiter.approvals.push(signer);
                }
                proof {
                    assert(self@ =~~= old(self)@.approve_effect(FlowKind::Arbiter, signer));
                }
            } else {
                self.nonce = self.nonce + 1;
                let mut approvals: Vec<u64> = Vec::new();
                approvals.push(signer);
                self.arbiter = FlowState {
                    proposal: Some(Proposal { nonce: self.nonce, dists, gross }),
                    approvals,
                };
                proof {
                    assert(self@ =~~= old(self)@.propose_effect(FlowKind::Arbiter, signer, dv, gross));
                }
            }
            Ok(None)
        }
    }

    /// An arbiter's vote to release funds to payees (with fee), proposing
    /// or approving as [`Self::arbiter_op`] describes.  Only legal while the
    /// escrow is disputed.
    pub fn arbiter_release(&mut self, signer: u64, dists: Vec<(u64, i128)>, fee_bps: u32, fee_collector: u64) -> (r: Result<Option<Vec<Transfer>>, EscrowError>)
        requires
            old(self)@.wf(),
        ensures
            final(self)@.wf(),
            match old(self)@.arbiter_err(signer, dists@, false, fee_bps as int) {
                Some(e) => r === Err(e) && final(self)@ == old(self)@,
                None => {
                    let pre = old(self)@.combined_pre(FlowKind::Arbiter, signer, dists@, false);
                    if quorum_reached(
                        old(self)@.combined_base(FlowKind::Arbiter, dists@, false),
                        signer,
                        old(self)@.arbiter_threshold,
                    ) {
                        r matches Ok(Some(ts))
                            && ts@ == net_payout(dists@, fee_bps as int, fee_collector)
                            && final(self)@ == pre.with_flow(FlowKind::Arbiter, empty_flow())
                                .execute_effect(sum_of(dists@)).arbiter_close()
                    } else {
                        r === Ok(None) && final(self)@ == pre
                    }
                },
            },
    {
        self.arbiter_op(signer, dists, false, fee_bps, fee_collector)
    }

    /// An arbiter's vote to refund payers gross (no fee), proposing or
    /// approving as [`Self::arbiter_op`] describes.
    pub fn arbiter_refund(&mut self, signer: u64, dists: Vec<(u64, i128)>, fee_bps: u32, fee_collector: u64) -> (r: Result<Option<Vec<Transfer>>, EscrowError>)
        requires
            old(self)@.wf(),
        ensures
            final(self)@.wf(),
            match old(self)@.arbiter_err(signer, dists@, true, fee_bps as int) {
                Some(e) => r === Err(e) && final(self)@ == old(self)@,
                None => {
                    let pre = old(self)@.combined_pre(FlowKind::Arbiter, signer, dists@, true);
                    if quorum_reached(
                        old(self)@.combined_base(FlowKind::Arbiter, dists@, true),
                        signer,
                        old(self)@.arbiter_threshold,
                    ) {
                        r matches Ok(Some(ts))
                            && ts@ == gross_payout(dists@)
                            && final(self)@ == pre.with_flow(FlowKind::Arbiter, empty_flow())
                                .execute_effect(sum_of(dists@)).arbiter_close()
                    } else {
                        r === Ok(None) && final(self)@ == pre
                    }
                },
            },
    {
        self.arbiter_op(signer, dists, true, fee_bps, fee_collector)
    }

    /// An emergency admin's vote to pay out `dists` (with fee), regardless
    /// of the dispute state: the exceptional recovery path, answering to the
    /// global emergency admins and checking no recipient membership.
    /// `is_admin` says whether the caller found `signer` in the global
    /// emergency admin group.
    pub fn emergency_release(
        &mut self,
        signer: u64,
        dists: Vec<(u64, i128)>,
        is_admin: bool,
        ethreshold: u32,
        fee_bps: u32,
        fee_collector: u64,
    ) -> (r: Result<Option<Vec<Transfer>>, EscrowError>)
        requires
            old(self)@.wf(),
        ensures
            final(self)@.wf(),
            match old(self)@.emergency_err(signer, dists@, is_admin, ethreshold, fee_bps as int) {
                Some(e) => r === Err(e) && final(self)@ == old(self)@,
                None => {
                    let pre = old(self)@.combined_pre(FlowKind::Emergency, signer, dists@, false);
                    if quorum_reached(
                        old(self)@.combined_base(FlowKind::Emergency, dists@, false),
                        signer,
                        ethreshold,
                    ) {
                        r matches Ok(Some(ts))
                            && ts@ == net_payout(dists@, fee_bps as int, fee_collector)
                            && final(self)@ == pre.with_flow(FlowKind::Emergency, empty_flow())
                                .execute_effect(sum_of(dists@))
                    } else {
                        r === Ok(None) && final(self)@ == pre
                    }
                },
            },
    {
        let ghost dv = dists@;
        if !is_admin {
            return Err(EscrowError::NotASigner);
        }
        if self.closed {
            return Err(EscrowError::EscrowClosed);
        }
        if !check_positive(&dists) {
            return Err(EscrowError::BadAmount);
        }
        let total = match sum_amounts(&dists) {
            None => {
                return Err(EscrowError::BadTotal);
            },
            Some(t) => t,
        };
        if total <= 0 || total > self.balance {
            return Err(EscrowError::BadTotal);
        }
        let matching = match &self.emergency.proposal {
            Some(p) => p.gross == false && dists_equal(&p.dists, &dists),
            None => false,
        };
        if !matching && self.nonce == u64::MAX {
            return Err(EscrowError::Overflow);
        }
        let already = if matching { is_member(&self.emergency.approvals, signer) } else { false };
        let cur = if matching { self.emergency.approvals.len() } else { 0 };
        let t = ethreshold as usize;
        let quorum = if already { cur >= t } else { t == 0 || cur >= t - 1 };
        if quorum {
            match build_payout(&dists, false, fee_bps, fee_collector, self.balance) {
                Err(e) => Err(e),
                Ok((ts, tot)) => {
                    if !matching {
                        self.nonce = self.nonce + 1;
                    }
                    self.emergency = FlowState::empty();
                    self.apply_total(tot);
                    proof {
                        let pre = old(self)@.combined_pre(FlowKind::Emergency, signer, dv, false);
                        assert(self@ =~~= pre.with_flow(FlowKind::Emergency, empty_flow())
                            .execute_effect(sum_of(dv)));
                    }
                    Ok(Some(ts))
                },
            }
        } else {
            if matching {
                if !already {
                    self.emergency.approvals.push(signer);
                }
                proof {
                    assert(self@ =~~= old(self)@.approve_effect(FlowKind::Emergency, signer));
                }
            } else {
                self.nonce = self.nonce + 1;
                let mut approvals: Vec<u64> = Vec::new();
                approvals.push(signer);
                self.emergency = FlowState {
                    proposal: Some(Proposal { nonce: self.nonce, dists, gross: false }),
                    approvals,
                };
                proof {
                    assert(self@ =~~= old(self)@.propose_effect(FlowKind::Emergency, signer, dv, false));
                }
            }
            Ok(None)
        }
    }

    /// The auto-release time trigger: once the configured timestamp has
    /// passed, pays the whole balance to the payees in an equal split, the
    /// remainder going one unit each to the earliest payees.  Bypasses the
    /// signer quorum entirely and always closes the escrow.
    pub fn auto_release(&mut self, now: u64, fee_bps: u32, fee_collector: u64) -> (r: Result<Vec<Transfer>, EscrowError>)
        requires
            old(self)@.wf(),
        ensures
            final(self)@.wf(),
            match old(self)@.auto_err(now, fee_bps as int) {
                Some(e) => r === Err(e) && final(self)@ == old(self)@,
                None => r matches Ok(ts)
                    && ts@ == net_payout(
                        equal_split(old(self)@.payees, old(self)@.balance as int),
                        fee_bps as int,
                        fee_collector,
                    )
                    && final(self)@ == EscrowView {
                        nonce: (old(self)@.nonce + 1) as u64,
                        ..old(self)@
                    }.execute_effect(old(self)@.balance as int)
                    && final(self)@.balance == 0
                    && final(self)@.closed,
            },
    {
        if self.closed {
            return Err(EscrowError::EscrowClosed);
        }
        if self.disputed {
            return Err(EscrowError::EscrowDisputed);
        }
        match self.auto_release_ts {
            None => {
                return Err(EscrowError::NoAutoRelease);
            },
            Some(at) => {
                if now < at {
                    return Err(EscrowError::TooEarly);
                }
            },
        }
        if self.nonce == u64::MAX {
            return Err(EscrowError::Overflow);
        }
        proof {
            lemma_equal_split_total(self.payees@, self.balance as int);
        }
        let n = self.payees.len();
        let ni = n as i128;
        let base = self.balance / ni;
        let rem = self.balance % ni;
        let mut dists: Vec<(u64, i128)> = Vec::new();
        let mut i: usize = 0;
        while i < n
            invariant
                i <= n,
                n == self.payees@.len(),
                n >= 1,
                ni == n as i128,
                0 <= self.balance <= MAX_AMOUNT,
                base == self.balance as int / ni as int,
                rem == self.balance as int % ni as int,
                0 <= base <= MAX_AMOUNT,
                0 <= rem < ni,
                dists@ == equal_split(self.payees@, self.balance as int).take(i as int),
            decreases n - i,
        {
            let extra: i128 = if (i as i128) < rem { 1 } else { 0 };
            dists.push((self.payees[i], base + extra));
            proof {
                assert(equal_split(self.payees@, self.balance as int).take(i + 1)
                    =~= equal_split(self.payees@, self.balance as int).take(i as int)
                        .push((self.payees@[i as int], (base + extra) as i128)));
            }
            i += 1;
        }
        proof {
            assert(equal_split(self.payees@, self.balance as int).take(n as int)
                =~= equal_split(self.payees@, self.balance as int));
            vstd::arithmetic::div_mod::lemma_div_pos_is_pos(self.balance as int, ni as int);
            vstd::arithmetic::div_mod::lemma_mod_division_less_than_divisor(
                self.balance as int,
                ni as int,
            );
        }
        match build_payout(&dists, false, fee_bps, fee_collector, self.balance) {
            Err(e) => Err(e),
            Ok((ts, tot)) => {
                self.nonce = self.nonce + 1;
                self.apply_total(tot);
                proof {
                    assert(self@ =~~= EscrowView {
                        nonce: (old(self)@.nonce + 1) as u64,
                        ..old(self)@
                    }.execute_effect(old(self)@.balance as int));
                }
                Ok(ts)
            },
        }
    }

    /// The refund time trigger: once the expiry timestamp has passed,
    /// repays each payer up to its recorded deposit, in deposit-list order,
    /// until the balance is exhausted.  No fee is taken, and under the
    /// conservation invariant the escrow always ends closed at balance zero.
    pub fn refund_timeout(&mut self, now: u64) -> (r: Result<Vec<Transfer>, EscrowError>)
        requires
            old(self)@.wf(),
        ensures
            final(self)@.wf(),
            match old(self)@.refund_timeout_err(now) {
                Some(e) => r === Err(e) && final(self)@ == old(self)@,
                None => r matches Ok(ts)
                    && ts@ == refund_plan(old(self)@.deposits, old(self)@.balance as int)
                    && final(self)@ == old(self)@.refund_timeout_effect()
                    && final(self)@.balance == 0
                    && final(self)@.closed,
            },
    {
        if self.closed {
            return Err(EscrowError::EscrowClosed);
        }
        if self.disputed {
            return Err(EscrowError::EscrowDisputed);
        }
        if now < self.expiry_ts {
            return Err(EscrowError::NotExpired);
        }
        let ghost balance0 = self.balance as int;
        let mut ts: Vec<Transfer> = Vec::new();
        proof {
            assert(self.deposits@.skip(0) =~= self.deposits@);
            assert(ts@ + refund_plan(self.deposits@, balance0)
                =~= refund_plan(self.deposits@, balance0));
        }
        let mut remaining = self.balance;
        let n = self.deposits.len();
        let mut i: usize = 0;
        while i < n && remaining > 0
            invariant
                i <= n,
                n == self.deposits@.len(),
                0 <= remaining,
                refund_plan(self.deposits@, balance0)
                    == ts@ + refund_plan(self.deposits@.skip(i as int), remaining as int),
                refund_left(self.deposits@, balance0)
                    == refund_left(self.deposits@.skip(i as int), remaining as int),
                remaining <= self.balance,
                self.balance == old(self).balance,
                self.deposits@ == old(self).deposits@,
                all_positive(self.deposits@),
                balance0 == self.balance as int,
                balance0 <= sum_of(self.deposits@),
            decreases n - i,
        {
            let (p, a) = self.deposits[i];
            let amt = if a <= remaining { a } else { remaining };
            let ghost suffix = self.deposits@.skip(i as int);
            proof {
                assert(suffix[0] == self.deposits@[i as int]);
                assert(suffix.drop_first() =~= self.deposits@.skip(i + 1));
                assert(refund_plan(suffix, remaining as int)
                    == seq![Transfer { to: p, amount: amt }]
                        + refund_plan(self.deposits@.skip(i + 1), remaining as int - amt as int));
                assert(ts@ + refund_plan(suffix, remaining as int)
                    =~= ts@.push(Transfer { to: p, amount: amt })
                        + refund_plan(self.deposits@.skip(i + 1), remaining as int - amt as int));
                assert(refund_left(suffix, remaining as int)
                    == refund_left(self.deposits@.skip(i + 1), remaining as int - amt as int));
            }
            ts.push(Transfer { to: p, amount: amt });
            remaining = remaining - amt;
            i += 1;
        }
        proof {
            if remaining <= 0 {
                assert(refund_plan(self.deposits@.skip(i as int), remaining as int) =~= Seq::empty());
            } else {
                assert(i == n);
                assert(self.deposits@.skip(i as int).len() == 0);
                assert(refund_plan(self.deposits@.skip(i as int), remaining as int) =~= Seq::empty());
            }
            assert(ts@ + Seq::<Transfer>::empty() =~= ts@);
            lemma_refund_exhausts(self.deposits@, balance0);
            assert(remaining == 0);
        }
        self.balance = remaining;
        self.closed = true;
        self.distributed = Ghost(self.distributed@ + (balance0 - remaining as int));
        proof {
            assert(self@ =~~= old(self)@.refund_timeout_effect());
        }
        Ok(ts)
    }

    /// Marks the escrow disputed.  Only a payer or a payee may raise a
    /// dispute, and a dispute on an already disputed escrow changes nothing.
    pub fn open_dispute(&mut self, actor: u64) -> (r: Result<(), EscrowError>)
        requires
            old(self)@.wf(),
        ensures
            final(self)@.wf(),
            match old(self)@.dispute_err(actor) {
                Some(e) => r === Err(e) && final(self)@ == old(self)@,
                None => r is Ok && final(self)@ == EscrowView { disputed: true, ..old(self)@ },
            },
    {
        if self.closed {
            return Err(EscrowError::EscrowClosed);
        }
        if !is_member(&self.payers, actor) && !is_member(&self.payees, actor) {
            return Err(EscrowError::NotParty);
        }
        self.disputed = true;
        proof {
            assert(self@ =~= EscrowView { disputed: true, ..old(self)@ });
        }
        Ok(())
    }
}

} // verus!
