//! Fee-deducted return of recorded donations, with possible un-funding.
//!
//! Under the fee-on-refund discipline the refunded amount is split exactly
//! into a payout to the donor and a basis-point fee to the treasury, and a
//! refund that drops the raised amount below the goal reverts a funded
//! campaign to active: the one non-monotonic transition of the status
//! machine. Under the sweep-on-withdraw discipline refunds are fee-free but
//! only open once the expiry window has elapsed on an unfunded campaign.

use vstd::prelude::*;

use crate::campaign::{expired, Campaign, CampaignStatus};
use crate::config::{Config, FeeModel};
use crate::errors::EscrowError;
use crate::identity::Ident;
use crate::transfer::Payment;
use vstd::arithmetic::div_mod::{lemma_div_is_ordered, lemma_div_multiples_vanish, lemma_div_pos_is_pos};
use vstd::arithmetic::mul::{lemma_mul_inequality, lemma_mul_upper_bound};

verus! {

/// The two transfers a refund instructs: the payout to the donor and the
/// processing fee to the treasury (zero under the sweep-on-withdraw
/// discipline). Both are carried out atomically with the call.
#[derive(Clone, Copy, Debug, PartialEq, Eq, Structural)]
pub struct RefundReceipt {
    /// Return to the donor: the refunded amount less the fee.
    pub payout: Payment,
    /// Processing fee to the treasury.
    pub fee: Payment,
}

/// The processing fee on `amount` at a rate of `fee_basis_points` hundredths
/// of a percent, rounded down.
pub open spec fn fee_of(amount: u64, fee_basis_points: u16) -> int {
    (amount * fee_basis_points) / 10000
}

/// What remains of `amount` for the donor once the fee is split off.
pub open spec fn payout_of(amount: u64, fee_basis_points: u16) -> int {
    amount - fee_of(amount, fee_basis_points)
}

/// The fee a refund of `amount` charges under `config`: the basis-point fee
/// under fee-on-refund, nothing under sweep-on-withdraw.
pub open spec fn refund_fee(config: Config, amount: u64) -> int {
    if config.fee_model is FeeOnRefund {
        fee_of(amount, config.fee_basis_points)
    } else {
        0
    }
}

/// The fee never exceeds the refunded amount while the rate is at most
/// 10000 basis points, and the payout-fee split is exact.
pub proof fn lemma_fee_split(amount: u64, fee_basis_points: u16)
    requires
        fee_basis_points <= 10000,
    ensures
        0 <= fee_of(amount, fee_basis_points) <= amount,
        payout_of(amount, fee_basis_points) + fee_of(amount, fee_basis_points) == amount,
        amount * fee_basis_points <= u64::MAX * 10000,
{
    lemma_div_pos_is_pos(amount * fee_basis_points, 10000);
    lemma_mul_inequality(fee_basis_points as int, 10000, amount as int);
    lemma_div_is_ordered(amount * fee_basis_points, amount * 10000, 10000);
    lemma_div_multiples_vanish(amount as int, 10000);
    assert(amount * fee_basis_points == fee_basis_points * amount) by {
        vstd::arithmetic::mul::lemma_mul_is_commutative(amount as int, fee_basis_points as int);
    }
    assert(amount * 10000 == 10000 * amount) by {
        vstd::arithmetic::mul::lemma_mul_is_commutative(amount as int, 10000);
    }
    lemma_mul_upper_bound(amount as int, u64::MAX as int, fee_basis_points as int, 10000);
}

/// A refund of `amount` is permitted when the admin calls, funds were not
/// withdrawn, the vault and the raised amount both cover it, and — under the
/// sweep-on-withdraw discipline — the expiry window has elapsed on an
/// unfunded campaign.
pub open spec fn refund_allowed(
    c: Campaign,
    config: Config,
    caller: Ident,
    amount: u64,
    now: u64,
) -> bool {
    &&& caller == c.admin
    &&& !(c.status is Withdrawn)
    &&& (config.fee_model is SweepOnWithdraw ==> expired(c, config.expiry_window, now)
        && !(c.status is Funded))
    &&& c.vault_balance >= amount
    &&& c.amount_raised >= amount
}

/// The error a rejected `process_refund` reports.
pub open spec fn refund_error(
    c: Campaign,
    config: Config,
    caller: Ident,
    amount: u64,
    now: u64,
) -> EscrowError {
    if caller != c.admin {
        EscrowError::Unauthorized
    } else if c.status is Withdrawn {
        EscrowError::CampaignFundsWithdrawn
    } else if config.fee_model is SweepOnWithdraw
        && !(expired(c, config.expiry_window, now) && !(c.status is Funded)) {
        EscrowError::RefundNotAvailable
    } else if c.vault_balance < amount {
        EscrowError::InsufficientVaultBalance
    } else {
        EscrowError::ArithmeticUnderflow
    }
}

/// The state after a refund of `amount`: the vault and the raised amount are
/// both debited, and under fee-on-refund a funded campaign that drops below
/// its goal reverts to active.
pub open spec fn refund_step(c: Campaign, config: Config, amount: u64) -> Campaign {
    let raised = (c.amount_raised - amount) as u64;
    Campaign {
        vault_balance: (c.vault_balance - amount) as u64,
        amount_raised: raised,
        status: if config.fee_model is FeeOnRefund && c.status is Funded
            && raised < c.goal_amount {
            CampaignStatus::Active
        } else {
            c.status
        },
        ..c
    }
}

/// The two transfers a granted refund of `amount` to `donor` instructs.
pub open spec fn refund_receipt(config: Config, donor: Ident, amount: u64) -> RefundReceipt {
    RefundReceipt {
        payout: Payment { to: donor, amount: (amount - refund_fee(config, amount)) as u64 },
        fee: Payment { to: config.treasury, amount: refund_fee(config, amount) as u64 },
    }
}

impl Campaign {
    /// Returns `amount_to_refund` from the vault towards `donor`, less the
    /// configured fee, which goes to the treasury. The two transfers and the
    /// accounting update commit together or not at all.
    pub fn process_refund(
        &mut self,
        config: &Config,
        caller: Ident,
        amount_to_refund: u64,
        donor: Ident,
        now: u64,
    ) -> (r: Result<RefundReceipt, EscrowError>)
        requires
            old(self).wf(),
            config.wf(),
        ensures
            final(self).wf(),
            refund_allowed(*old(self), *config, caller, amount_to_refund, now) ==> {
                &&& r == Ok::<RefundReceipt, EscrowError>(refund_receipt(
                    *config,
                    donor,
                    amount_to_refund,
                ))
                &&& *final(self) == refund_step(*old(self), *config, amount_to_refund)
            },
            !refund_allowed(*old(self), *config, caller, amount_to_refund, now) ==> {
                &&& r == Err::<RefundReceipt, EscrowError>(refund_error(
                    *old(self),
                    *config,
                    caller,
                    amount_to_refund,
                    now,
                ))
                &&& *final(self) == *old(self)
            },
            r matches Ok(receipt) ==> receipt.payout.amount + receipt.fee.amount
                == amount_to_refund,
    {
        if caller != self.admin {
            return Err(EscrowError::Unauthorized);
        }
        if self.status == CampaignStatus::Withdrawn {
            return Err(EscrowError::CampaignFundsWithdrawn);
        }
        if config.fee_model == FeeModel::SweepOnWithdraw {
            let window_open = now > self.created_at
                && now - self.created_at > config.expiry_window
                && self.status != CampaignStatus::Funded;
            if !window_open {
                return Err(EscrowError::RefundNotAvailable);
            }
        }
        if self.vault_balance < amount_to_refund {
            return Err(EscrowError::InsufficientVaultBalance);
        }
        if self.amount_raised < amount_to_refund {
            return Err(EscrowError::ArithmeticUnderflow);
        }

        proof {
            lemma_fee_split(amount_to_refund, config.fee_basis_points);
        }
        let fee: u64 = match config.fee_model {
            FeeModel::FeeOnRefund => {
                let wide: u128 = (amount_to_refund as u128) * (config.fee_basis_points as u128)
                    / 10000;
                wide as u64
            }
            FeeModel::SweepOnWithdraw => 0,
        };
        let payout: u64 = amount_to_refund - fee;

        self.vault_balance = self.vault_balance - amount_to_refund;
        self.amount_raised = self.amount_raised - amount_to_refund;
        if config.fee_model == FeeModel::FeeOnRefund
            && self.status == CampaignStatus::Funded
            && self.amount_raised < self.goal_amount
        {
            self.status = CampaignStatus::Active;
        }

        Ok(RefundReceipt {
            payout: Payment { to: donor, amount: payout },
            fee: Payment { to: config.treasury, amount: fee },
        })
    }
}

} // verus!
