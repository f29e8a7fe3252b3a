//! The escrow's error taxonomy.  Every operation rejects before any mutation:
//! an error means the state it was called on is unchanged.

use vstd::prelude::*;

verus! {

/// Why an escrow operation was rejected.
#[derive(Clone, Copy, Debug, PartialEq, Eq, Structural)]
pub enum EscrowError {
    /// Global fee and emergency configuration written twice.
    AlreadyInitialized,
    /// Global configuration read before it was written.
    NotInitialized,
    /// The caller is not the configuration admin.
    NotAdmin,
    /// A fee rate above 10_000 basis points.
    FeeOutOfRange,
    /// A signer-group threshold of zero, or larger than the group.
    BadThreshold,
    /// An escrow created with no payers or no payees.
    EmptyParties,
    /// An escrow created under an identifier that is already taken.
    EscrowExists,
    /// No escrow under the given identifier.
    EscrowNotFound,
    /// The escrow is closed; no further state-mutating operation succeeds.
    EscrowClosed,
    /// An ordinary release or refund flow while the escrow is disputed.
    EscrowDisputed,
    /// An arbiter flow while the escrow is not disputed.
    NotDisputed,
    /// The caller is not in the signer group of the requested flow.
    NotASigner,
    /// The actor of a dispute is neither a payer nor a payee.
    NotParty,
    /// A deposit from an identity outside the payer set.
    NotPayer,
    /// A release distribution naming a recipient outside the payee set.
    BadPayee,
    /// A refund distribution naming a recipient outside the payer set.
    BadPayer,
    /// A distribution entry with a non-positive amount.
    BadAmount,
    /// A distribution total of zero or above the current balance.
    BadTotal,
    /// A fee rate that would leave a negative net amount.
    FeeTooHigh,
    /// An approval for a flow with no live proposal.
    NoProposal,
    /// A time trigger invoked before its timestamp was reached.
    TooEarly,
    /// A refund timeout invoked before the expiry timestamp.
    NotExpired,
    /// An auto release on an escrow that has no auto-release timestamp.
    NoAutoRelease,
    /// A value that would leave the machine's integer range.
    Overflow,
}

} // verus!
