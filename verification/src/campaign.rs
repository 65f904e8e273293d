//! Campaign records and their lifecycle: donation accumulation, explicit
//! activation, balance-read funding detection, and closing.
//!
//! The status machine:
//!
//! ```text
//! Created --activate--> Active
//! Active --donation reaches goal--> Funded
//! Funded --refund drops raised below goal--> Active   (fee-on-refund only)
//! Funded --withdraw_funds--> Withdrawn                (terminal)
//! Created/Active --admin close / expiry reclaim--> Closed (terminal)
//! ```
//!
//! No transition leaves a terminal state. Withdrawal and refunds live in
//! their own modules; everything else a campaign does is here.

use vstd::prelude::*;

use crate::config::FundingDetection;
use crate::errors::EscrowError;
use crate::identity::Ident;
use crate::transfer::Payment;

verus! {

/// Enumerated campaign category; with the subject it forms the unique key.
#[derive(Clone, Copy, Debug, PartialEq, Eq, Structural)]
pub enum CampaignKind {
    Cto,
    Boost10,
    Boost30,
    Boost50,
    Boost100,
    Boost500,
    EnhancedInfo,
}

/// Where a campaign stands in its lifecycle.
#[derive(Clone, Copy, Debug, PartialEq, Eq, Structural)]
pub enum CampaignStatus {
    /// Created but awaiting explicit activation.
    Created,
    /// Accepting donations.
    Active,
    /// The goal has been reached; withdrawal is possible.
    Funded,
    /// Funds have been paid out. Terminal.
    Withdrawn,
    /// The record has been closed and its residual balance swept. Terminal.
    Closed,
}

/// One fundraising effort, bound 1:1 to its custodial vault. The
/// `vault_balance` field models the funds the bound vault actually holds;
/// deposits into the vault are reported through [`Campaign::credit_vault`].
#[derive(Clone, Copy, Debug, PartialEq, Eq, Structural)]
pub struct Campaign {
    /// Admin copied from the configuration at creation; authorizes every
    /// campaign-scoped operation.
    pub admin: Ident,
    /// The user on whose behalf the campaign was created.
    pub creator: Ident,
    /// Identifier of the token or entity being promoted (key component).
    pub subject: Ident,
    /// Campaign category (key component).
    pub kind: CampaignKind,
    /// Funding target, in the smallest denomination. Always at least 1.
    pub goal_amount: u64,
    /// Sum of recorded donations not yet refunded.
    pub amount_raised: u64,
    /// Lifecycle state.
    pub status: CampaignStatus,
    /// Creation timestamp, for expiry computation.
    pub created_at: u64,
    /// The funds held by the bound vault.
    pub vault_balance: u64,
    /// The funding-detection discipline this campaign was created under.
    pub funding_detection: FundingDetection,
}

impl Campaign {
    /// Well-formedness. The goal is positive; nothing is raised before
    /// activation; and under push-accumulated funding detection the status
    /// agrees with the raised amount: active means still short of the goal,
    /// funded means the goal was reached.
    pub open spec fn wf(self) -> bool {
        &&& self.goal_amount >= 1
        &&& self.status is Created ==> self.amount_raised == 0
        &&& self.funding_detection is PushAccumulated ==> {
            &&& self.status is Active ==> self.amount_raised < self.goal_amount
            &&& self.status is Funded ==> self.amount_raised >= self.goal_amount
        }
    }

    /// The (subject, kind) key under which the registry keeps this campaign.
    pub open spec fn same_key(self, subject: Ident, kind: CampaignKind) -> bool {
        self.subject == subject && self.kind == kind
    }

    /// Records a donation of `amount`. Accounting only: the matching asset
    /// transfer into the vault is reported separately through
    /// [`Campaign::credit_vault`]. Under push-accumulated funding detection
    /// the status flips to funded as soon as the new total reaches the goal,
    /// and never before.
    pub fn record_donation(&mut self, caller: Ident, amount: u64) -> (r: Result<(), EscrowError>)
        requires
            old(self).wf(),
        ensures
            final(self).wf(),
            donation_allowed(*old(self), caller, amount) ==> {
                &&& r == Ok::<(), EscrowError>(())
                &&& *final(self) == donation_step(*old(self), amount)
            },
            !donation_allowed(*old(self), caller, amount) ==> {
                &&& r == Err::<(), EscrowError>(donation_error(*old(self), caller, amount))
                &&& *final(self) == *old(self)
            },
    {
        if caller != self.admin {
            return Err(EscrowError::Unauthorized);
        }
        match self.status {
            CampaignStatus::Active => {}
            _ => {
                return Err(EscrowError::CampaignNotActive);
            }
        }
        if amount > u64::MAX - self.amount_raised {
            return Err(EscrowError::ArithmeticOverflow);
        }
        self.amount_raised = self.amount_raised + amount;
        if self.funding_detection == FundingDetection::PushAccumulated
            && self.amount_raised >= self.goal_amount
        {
            self.status = CampaignStatus::Funded;
        }
        Ok(())
    }

    /// Reports that the custodial collaborator deposited `amount` into the
    /// bound vault. Fails only when the balance would overflow.
    pub fn credit_vault(&mut self, amount: u64) -> (r: Result<(), EscrowError>)
        requires
            old(self).wf(),
        ensures
            final(self).wf(),
            old(self).vault_balance + amount <= u64::MAX ==> {
                &&& r == Ok::<(), EscrowError>(())
                &&& *final(self) == (Campaign {
                    vault_balance: (old(self).vault_balance + amount) as u64,
                    ..*old(self)
                })
            },
            old(self).vault_balance + amount > u64::MAX ==> {
                &&& r == Err::<(), EscrowError>(EscrowError::ArithmeticOverflow)
                &&& *final(self) == *old(self)
            },
    {
        if amount > u64::MAX - self.vault_balance {
            return Err(EscrowError::ArithmeticOverflow);
        }
        self.vault_balance = self.vault_balance + amount;
        Ok(())
    }

    /// Moves a pending campaign from created to active. Used by deployments
    /// with explicit activation; auto-activated campaigns never sit in the
    /// created state.
    pub fn activate_campaign(&mut self, caller: Ident) -> (r: Result<(), EscrowError>)
        requires
            old(self).wf(),
        ensures
            final(self).wf(),
            activate_allowed(*old(self), caller) ==> {
                &&& r == Ok::<(), EscrowError>(())
                &&& *final(self) == (Campaign { status: CampaignStatus::Active, ..*old(self) })
            },
            !activate_allowed(*old(self), caller) ==> {
                &&& r == Err::<(), EscrowError>(if caller != old(self).admin {
                    EscrowError::Unauthorized
                } else {
                    EscrowError::CampaignAlreadyActivated
                })
                &&& *final(self) == *old(self)
            },
    {
        if caller != self.admin {
            return Err(EscrowError::Unauthorized);
        }
        match self.status {
            CampaignStatus::Created => {
                self.status = CampaignStatus::Active;
                Ok(())
            }
            _ => Err(EscrowError::CampaignAlreadyActivated),
        }
    }

    /// Synchronizes the status with the vault's real balance: the
    /// balance-read funding discipline. Returns whether the campaign is
    /// funded after the call. An active campaign whose vault holds at least
    /// the goal becomes funded; one short of the goal stays active.
    pub fn set_funded_status(&mut self, caller: Ident) -> (r: Result<bool, EscrowError>)
        requires
            old(self).wf(),
            old(self).funding_detection is BalanceRead,
        ensures
            final(self).wf(),
            caller == old(self).admin && old(self).status is Active ==> {
                &&& r == Ok::<bool, EscrowError>(old(self).vault_balance >= old(self).goal_amount)
                &&& *final(self) == (Campaign {
                    status: if old(self).vault_balance >= old(self).goal_amount {
                        CampaignStatus::Funded
                    } else {
                        CampaignStatus::Active
                    },
                    ..*old(self)
                })
            },
            !(caller == old(self).admin && old(self).status is Active) ==> {
                &&& r == Err::<bool, EscrowError>(if caller != old(self).admin {
                    EscrowError::Unauthorized
                } else if old(self).status is Funded {
                    EscrowError::CampaignAlreadyFunded
                } else {
                    EscrowError::CampaignNotActive
                })
                &&& *final(self) == *old(self)
            },
    {
        if caller != self.admin {
            return Err(EscrowError::Unauthorized);
        }
        match self.status {
            CampaignStatus::Active => {
                if self.vault_balance >= self.goal_amount {
                    self.status = CampaignStatus::Funded;
                    Ok(true)
                } else {
                    Ok(false)
                }
            }
            CampaignStatus::Funded => Err(EscrowError::CampaignAlreadyFunded),
            _ => Err(EscrowError::CampaignNotActive),
        }
    }

    /// Administrative close of a never-funded campaign: the residual vault
    /// balance is swept to the admin and the record becomes terminal.
    pub fn close_campaign(&mut self, caller: Ident) -> (r: Result<Payment, EscrowError>)
        requires
            old(self).wf(),
        ensures
            final(self).wf(),
            close_allowed(*old(self), caller) ==> {
                &&& r == Ok::<Payment, EscrowError>(close_payment(*old(self)))
                &&& *final(self) == close_step(*old(self))
            },
            !close_allowed(*old(self), caller) ==> {
                &&& r == Err::<Payment, EscrowError>(close_error(*old(self), caller))
                &&& *final(self) == *old(self)
            },
    {
        if caller != self.admin {
            return Err(EscrowError::Unauthorized);
        }
        match self.status {
            CampaignStatus::Funded => Err(EscrowError::CampaignAlreadyFunded),
            CampaignStatus::Withdrawn => Err(EscrowError::CampaignFundsWithdrawn),
            CampaignStatus::Closed => Err(EscrowError::CampaignNotActive),
            _ => {
                let swept = self.vault_balance;
                self.vault_balance = 0;
                self.status = CampaignStatus::Closed;
                Ok(Payment { to: self.admin, amount: swept })
            }
        }
    }

    /// Reclaims an unfunded campaign once its expiry window has elapsed: the
    /// residual vault balance is swept to the admin and the record becomes
    /// terminal.
    pub fn close_expired_campaign(
        &mut self,
        caller: Ident,
        expiry_window: u64,
        now: u64,
    ) -> (r: Result<Payment, EscrowError>)
        requires
            old(self).wf(),
        ensures
            final(self).wf(),
            close_expired_allowed(*old(self), caller, expiry_window, now) ==> {
                &&& r == Ok::<Payment, EscrowError>(close_payment(*old(self)))
                &&& *final(self) == close_step(*old(self))
            },
            !close_expired_allowed(*old(self), caller, expiry_window, now) ==> {
                &&& r == Err::<Payment, EscrowError>(close_expired_error(
                    *old(self),
                    caller,
                    expiry_window,
                    now,
                ))
                &&& *final(self) == *old(self)
            },
    {
        if caller != self.admin {
            return Err(EscrowError::Unauthorized);
        }
        match self.status {
            CampaignStatus::Withdrawn => Err(EscrowError::CampaignFundsWithdrawn),
            CampaignStatus::Funded => Err(EscrowError::CampaignNotExpiredOrFunded),
            CampaignStatus::Closed => Err(EscrowError::CampaignNotActive),
            _ => {
                if !(now > self.created_at && now - self.created_at > expiry_window) {
                    return Err(EscrowError::CampaignNotExpiredOrFunded);
                }
                let swept = self.vault_balance;
                self.vault_balance = 0;
                self.status = CampaignStatus::Closed;
                Ok(Payment { to: self.admin, amount: swept })
            }
        }
    }
}

/// Activation is permitted when the admin calls on a still pending campaign.
pub open spec fn activate_allowed(c: Campaign, caller: Ident) -> bool {
    caller == c.admin && c.status is Created
}

/// A donation is recorded when the admin calls on an active campaign and the
/// new total still fits in the counter.
pub open spec fn donation_allowed(c: Campaign, caller: Ident, amount: u64) -> bool {
    &&& caller == c.admin
    &&& c.status is Active
    &&& c.amount_raised + amount <= u64::MAX
}

/// The error a rejected `record_donation` reports. A funded campaign is no
/// longer active, so donating to one reports the not-active error.
pub open spec fn donation_error(c: Campaign, caller: Ident, amount: u64) -> EscrowError {
    if caller != c.admin {
        EscrowError::Unauthorized
    } else if !(c.status is Active) {
        EscrowError::CampaignNotActive
    } else {
        EscrowError::ArithmeticOverflow
    }
}

/// The state after a recorded donation of `amount`.
pub open spec fn donation_step(c: Campaign, amount: u64) -> Campaign {
    let raised = (c.amount_raised + amount) as u64;
    Campaign {
        amount_raised: raised,
        status: if c.funding_detection is PushAccumulated && raised >= c.goal_amount {
            CampaignStatus::Funded
        } else {
            c.status
        },
        ..c
    }
}

/// Whether `now` lies strictly past the campaign's expiry window.
pub open spec fn expired(c: Campaign, expiry_window: u64, now: u64) -> bool {
    now - c.created_at > expiry_window
}

/// A campaign may be closed administratively while it has never been funded:
/// in the created or active state.
pub open spec fn close_allowed(c: Campaign, caller: Ident) -> bool {
    &&& caller == c.admin
    &&& (c.status is Created || c.status is Active)
}

/// The error a rejected `close_campaign` reports.
pub open spec fn close_error(c: Campaign, caller: Ident) -> EscrowError {
    if caller != c.admin {
        EscrowError::Unauthorized
    } else if c.status is Funded {
        EscrowError::CampaignAlreadyFunded
    } else if c.status is Withdrawn {
        EscrowError::CampaignFundsWithdrawn
    } else {
        EscrowError::CampaignNotActive
    }
}

/// An expired, unfunded campaign may be reclaimed.
pub open spec fn close_expired_allowed(
    c: Campaign,
    caller: Ident,
    expiry_window: u64,
    now: u64,
) -> bool {
    &&& caller == c.admin
    &&& (c.status is Created || c.status is Active)
    &&& expired(c, expiry_window, now)
}

/// The error a rejected `close_expired_campaign` reports.
pub open spec fn close_expired_error(
    c: Campaign,
    caller: Ident,
    expiry_window: u64,
    now: u64,
) -> EscrowError {
    if caller != c.admin {
        EscrowError::Unauthorized
    } else if c.status is Withdrawn {
        EscrowError::CampaignFundsWithdrawn
    } else if c.status is Closed {
        EscrowError::CampaignNotActive
    } else {
        EscrowError::CampaignNotExpiredOrFunded
    }
}

/// The sweep of the residual vault balance that closing pays to the admin.
pub open spec fn close_payment(c: Campaign) -> Payment {
    Payment { to: c.admin, amount: c.vault_balance }
}

/// The closed record: terminal, with an emptied vault.
pub open spec fn close_step(c: Campaign) -> Campaign {
    Campaign { status: CampaignStatus::Closed, vault_balance: 0, ..c }
}

} // verus!
