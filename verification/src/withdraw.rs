//! Final disbursement of a funded campaign's vault.
//!
//! Under the fee-on-refund discipline the full goal amount goes to a
//! whitelisted beneficiary and no fee is charged. Under the
//! sweep-on-withdraw discipline the caller chooses the part that goes to the
//! beneficiary (any identity; only the admin is authenticated) and the whole
//! remainder of the vault is swept to the fee wallet. Either way the
//! campaign ends withdrawn, a terminal state: no further disbursement is
//! possible, and the transfers commit atomically with the status change.

use vstd::prelude::*;

use crate::campaign::{Campaign, CampaignStatus};
use crate::config::{Config, FeeModel};
use crate::errors::EscrowError;
use crate::identity::Ident;
use crate::transfer::Payment;

verus! {

/// The transfers a granted withdrawal instructs.
#[derive(Clone, Copy, Debug, PartialEq, Eq, Structural)]
pub struct WithdrawReceipt {
    /// The payout to the chosen beneficiary.
    pub to_beneficiary: Payment,
    /// Under sweep-on-withdraw, the remainder of the vault for the fee
    /// wallet; absent under fee-on-refund.
    pub residual: Option<Payment>,
}

/// Withdrawal is permitted when the admin calls on a funded campaign and the
/// discipline's own gate holds: a whitelisted beneficiary and a vault that
/// covers the goal under fee-on-refund; a requested part within the vault's
/// balance under sweep-on-withdraw.
pub open spec fn withdraw_allowed(
    c: Campaign,
    config: Config,
    caller: Ident,
    beneficiary: Ident,
    amount_to_beneficiary: Option<u64>,
) -> bool {
    &&& caller == c.admin
    &&& c.status is Funded
    &&& match config.fee_model {
        FeeModel::FeeOnRefund => config.whitelisted(beneficiary)
            && c.vault_balance >= c.goal_amount,
        FeeModel::SweepOnWithdraw => amount_to_beneficiary matches Some(a)
            && a <= c.vault_balance,
    }
}

/// The error a rejected `withdraw_funds` reports.
pub open spec fn withdraw_error(
    c: Campaign,
    config: Config,
    caller: Ident,
    beneficiary: Ident,
) -> EscrowError {
    if caller != c.admin {
        EscrowError::Unauthorized
    } else if c.status is Withdrawn {
        EscrowError::CampaignFundsWithdrawn
    } else if !(c.status is Funded) {
        EscrowError::CampaignNotFunded
    } else if config.fee_model is FeeOnRefund && !config.whitelisted(beneficiary) {
        EscrowError::NotOnWhitelist
    } else {
        EscrowError::InsufficientVaultBalance
    }
}

/// The state after a granted withdrawal: terminal, with the goal amount gone
/// from the vault (fee-on-refund) or the vault emptied (sweep-on-withdraw).
pub open spec fn withdraw_step(c: Campaign, config: Config) -> Campaign {
    match config.fee_model {
        FeeModel::FeeOnRefund => Campaign {
            vault_balance: (c.vault_balance - c.goal_amount) as u64,
            status: CampaignStatus::Withdrawn,
            ..c
        },
        FeeModel::SweepOnWithdraw => Campaign {
            vault_balance: 0,
            status: CampaignStatus::Withdrawn,
            ..c
        },
    }
}

/// The transfers a granted withdrawal instructs: the full goal to the
/// beneficiary under fee-on-refund; the requested part to the beneficiary
/// and the remainder to the fee wallet under sweep-on-withdraw.
pub open spec fn withdraw_receipt(
    c: Campaign,
    config: Config,
    beneficiary: Ident,
    amount_to_beneficiary: Option<u64>,
) -> WithdrawReceipt {
    match config.fee_model {
        FeeModel::FeeOnRefund => WithdrawReceipt {
            to_beneficiary: Payment { to: beneficiary, amount: c.goal_amount },
            residual: None,
        },
        FeeModel::SweepOnWithdraw => {
            let a = match amount_to_beneficiary {
                Some(a) => a,
                None => 0,
            };
            WithdrawReceipt {
                to_beneficiary: Payment { to: beneficiary, amount: a },
                residual: Some(Payment {
                    to: config.treasury,
                    amount: (c.vault_balance - a) as u64,
                }),
            }
        },
    }
}

impl Campaign {
    /// Disburses a funded campaign's vault and makes the record terminal.
    /// Deployments under sweep-on-withdraw choose the beneficiary's part
    /// with `amount_to_beneficiary`; fee-on-refund deployments pass `None`
    /// and the full goal amount is paid out.
    pub fn withdraw_funds(
        &mut self,
        config: &Config,
        caller: Ident,
        beneficiary: Ident,
        amount_to_beneficiary: Option<u64>,
    ) -> (r: Result<WithdrawReceipt, EscrowError>)
        requires
            old(self).wf(),
            config.wf(),
            config.fee_model is SweepOnWithdraw ==> amount_to_beneficiary is Some,
        ensures
            final(self).wf(),
            withdraw_allowed(*old(self), *config, caller, beneficiary, amount_to_beneficiary)
                ==> {
                &&& r == Ok::<WithdrawReceipt, EscrowError>(withdraw_receipt(
                    *old(self),
                    *config,
                    beneficiary,
                    amount_to_beneficiary,
                ))
                &&& *final(self) == withdraw_step(*old(self), *config)
            },
            !withdraw_allowed(*old(self), *config, caller, beneficiary, amount_to_beneficiary)
                ==> {
                &&& r == Err::<WithdrawReceipt, EscrowError>(withdraw_error(
                    *old(self),
                    *config,
                    caller,
                    beneficiary,
                ))
                &&& *final(self) == *old(self)
            },
    {
        if caller != self.admin {
            return Err(EscrowError::Unauthorized);
        }
        match self.status {
            CampaignStatus::Withdrawn => {
                return Err(EscrowError::CampaignFundsWithdrawn);
            }
            CampaignStatus::Funded => {}
            _ => {
                return Err(EscrowError::CampaignNotFunded);
            }
        }
        match config.fee_model {
            FeeModel::FeeOnRefund => {
                if !config.whitelist_contains(beneficiary) {
                    return Err(EscrowError::NotOnWhitelist);
                }
                if self.vault_balance < self.goal_amount {
                    return Err(EscrowError::InsufficientVaultBalance);
                }
                self.vault_balance = self.vault_balance - self.goal_amount;
                self.status = CampaignStatus::Withdrawn;
                Ok(WithdrawReceipt {
                    to_beneficiary: Payment { to: beneficiary, amount: self.goal_amount },
                    residual: None,
                })
            }
            FeeModel::SweepOnWithdraw => {
                let part = amount_to_beneficiary.unwrap();
                if part > self.vault_balance {
                    return Err(EscrowError::InsufficientVaultBalance);
                }
                let remainder = self.vault_balance - part;
                self.vault_balance = 0;
                self.status = CampaignStatus::Withdrawn;
                Ok(WithdrawReceipt {
                    to_beneficiary: Payment { to: beneficiary, amount: part },
                    residual: Some(Payment { to: config.treasury, amount: remainder }),
                })
            }
        }
    }
}

} // verus!
