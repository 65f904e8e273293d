//! A custodial escrow and crowdfunding ledger.
//!
//! The crate tracks fundraising campaigns against a subject identifier,
//! accepts recorded contributions toward a goal, and releases or refunds the
//! accumulated funds under strict authorization and timing rules. Every
//! operation is a single atomic unit: all precondition checks precede every
//! mutation, so a rejected call leaves balances and status fields exactly as
//! they were.
//!
//! The ledger itself never moves value. Operations that disburse funds return
//! [`transfer::Payment`] instructions for the custodial transfer collaborator
//! to carry out; the caller supplies verified identities and the current time.
//! Two custody disciplines are supported through configuration switches on
//! [`config::Config`]: a token-vault discipline (fee charged on refunds,
//! whitelist-gated withdrawal of the full goal) and a native-balance
//! discipline (expiry-gated refunds, partial withdrawal with the remainder
//! swept to the fee wallet).

pub mod campaign;
pub mod config;
pub mod errors;
pub mod identity;
pub mod laws;
pub mod refund;
pub mod registry;
pub mod transfer;
pub mod withdraw;
