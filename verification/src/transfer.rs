//! Transfer instructions handed to the custodial transfer collaborator, and
//! the admin's unconditional balance sweep.
//!
//! The ledger never moves value itself. An operation that disburses funds
//! debits its model of the vault and returns [`Payment`] values; the
//! execution environment carries them out atomically with the call.

use vstd::prelude::*;

use crate::errors::EscrowError;
use crate::identity::Ident;

verus! {

/// An instruction to move `amount` units of the smallest currency
/// denomination to `to`.
#[derive(Clone, Copy, Debug, PartialEq, Eq, Structural)]
pub struct Payment {
    /// Destination identity.
    pub to: Ident,
    /// Amount to move, in the smallest denomination.
    pub amount: u64,
}

/// Moves a whole custodial balance from `source_balance` to
/// `destination_balance` under admin authority: a privileged escape hatch.
/// A zero source balance is a silent no-op, not an error; a credit that
/// would overflow the destination is rejected with nothing moved.
pub fn sweep_sol(
    admin: Ident,
    caller: Ident,
    source_balance: &mut u64,
    destination_balance: &mut u64,
) -> (r: Result<(), EscrowError>)
    ensures
        caller != admin ==> {
            &&& r == Err::<(), EscrowError>(EscrowError::Unauthorized)
            &&& *final(source_balance) == *old(source_balance)
            &&& *final(destination_balance) == *old(destination_balance)
        },
        caller == admin && *old(source_balance) + *old(destination_balance) > u64::MAX ==> {
            &&& r == Err::<(), EscrowError>(EscrowError::ArithmeticOverflow)
            &&& *final(source_balance) == *old(source_balance)
            &&& *final(destination_balance) == *old(destination_balance)
        },
        caller == admin && *old(source_balance) + *old(destination_balance) <= u64::MAX ==> {
            &&& r == Ok::<(), EscrowError>(())
            &&& *final(source_balance) == 0
            &&& *final(destination_balance) == *old(source_balance) + *old(destination_balance)
        },
{
    if caller != admin {
        return Err(EscrowError::Unauthorized);
    }
    if *source_balance == 0 {
        return Ok(());
    }
    if *source_balance > u64::MAX - *destination_balance {
        return Err(EscrowError::ArithmeticOverflow);
    }
    *destination_balance = *destination_balance + *source_balance;
    *source_balance = 0;
    Ok(())
}

} // verus!
