//! Opaque caller and account identities.
//!
//! The platform's identity oracle hands every operation an already verified
//! caller identity. The ledger only ever compares identities for equality or
//! whitelist membership, so an identity is a plain number wrapped in its own
//! type.

use vstd::prelude::*;

verus! {

/// An identity: the admin, the treasury, a donor, a withdrawal beneficiary,
/// a campaign subject or a settlement asset. Compared only for equality.
#[derive(Clone, Copy, Debug, PartialEq, Eq, Structural)]
pub struct Ident(pub u64);

} // verus!
