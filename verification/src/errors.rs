//! Error taxonomy of the escrow ledger.
//!
//! Every rejected operation reports one of these values synchronously and
//! leaves all balances and status fields unchanged.

use vstd::prelude::*;

verus! {

/// Why an operation was rejected.
#[derive(Clone, Copy, Debug, PartialEq, Eq, Structural)]
pub enum EscrowError {
    /// The caller is not the admin bound to the record it tried to mutate.
    Unauthorized,
    /// The campaign is not currently active.
    CampaignNotActive,
    /// The campaign has already been fully funded.
    CampaignAlreadyFunded,
    /// The campaign's funds have already been withdrawn.
    CampaignFundsWithdrawn,
    /// The campaign has not yet reached its funding goal.
    CampaignNotFunded,
    /// The campaign has already left its pending (created) state.
    CampaignAlreadyActivated,
    /// The provided address is not on the withdrawal whitelist.
    NotOnWhitelist,
    /// The provided address is already on the whitelist.
    AlreadyOnWhitelist,
    /// The whitelist has reached its bounded capacity.
    WhitelistFull,
    /// The donation amount is below the minimum required.
    DonationTooSmall,
    /// The campaign goal must be positive.
    InvalidGoalAmount,
    /// No donation record was found for this user and campaign.
    NoDonationFound,
    /// The provided settlement asset is not the expected one.
    InvalidUsdcMint,
    /// The provided treasury account is incorrect.
    InvalidTreasury,
    /// The vault has insufficient funds for this operation.
    InsufficientVaultBalance,
    /// An un-closed campaign with the same (subject, kind) key already exists.
    DuplicateCampaign,
    /// Accumulation would overflow the raised amount or a balance.
    ArithmeticOverflow,
    /// A deduction would drop the raised amount below zero.
    ArithmeticUnderflow,
    /// The refund window has not opened, or the campaign is funded.
    RefundNotAvailable,
    /// The campaign is neither past its expiry window nor unfunded.
    CampaignNotExpiredOrFunded,
}

} // verus!
