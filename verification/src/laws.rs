//! Laws of the donation and disbursement machinery, proved once and for all
//! over the same step functions that the executable operations are specified
//! against.

use vstd::prelude::*;

use crate::campaign::{
    activate_allowed, close_allowed, close_expired_allowed, donation_allowed, donation_step,
    Campaign,
};
use crate::config::Config;
use crate::errors::EscrowError;
use crate::identity::Ident;
use crate::refund::{refund_allowed, refund_step};
use crate::withdraw::{withdraw_allowed, withdraw_error, withdraw_step};

verus! {

/// The sum of a sequence of donation amounts.
pub open spec fn sum_of(amounts: Seq<u64>) -> int
    decreases amounts.len(),
{
    if amounts.len() == 0 {
        0
    } else {
        sum_of(amounts.drop_last()) + amounts.last()
    }
}

/// Whether an authorized donation attempt of `amount` is accepted: the
/// campaign is active and the new total still fits in the counter.
pub open spec fn donation_accepted(c: Campaign, amount: u64) -> bool {
    c.status is Active && c.amount_raised + amount <= u64::MAX
}

/// One authorized donation attempt: a recorded donation when accepted, and
/// no change at all when rejected.
pub open spec fn donation_attempt(c: Campaign, amount: u64) -> Campaign {
    if donation_accepted(c, amount) {
        donation_step(c, amount)
    } else {
        c
    }
}

/// The campaign after a whole sequence of authorized donation attempts.
pub open spec fn donate_all(c: Campaign, amounts: Seq<u64>) -> Campaign
    decreases amounts.len(),
{
    if amounts.len() == 0 {
        c
    } else {
        donation_attempt(donate_all(c, amounts.drop_last()), amounts.last())
    }
}

/// The sum of the amounts actually recorded out of a sequence of attempts:
/// rejected attempts record nothing.
pub open spec fn recorded_sum(c: Campaign, amounts: Seq<u64>) -> int
    decreases amounts.len(),
{
    if amounts.len() == 0 {
        0
    } else {
        recorded_sum(c, amounts.drop_last()) + if donation_accepted(
            donate_all(c, amounts.drop_last()),
            amounts.last(),
        ) {
            amounts.last() as int
        } else {
            0
        }
    }
}

/// Law of donation accumulation, for push-accumulated funding detection.
/// Over any sequence of `record_donation` calls on an active campaign, the
/// raised amount equals the starting amount plus the sum of the recorded
/// donations, and the campaign is funded exactly when that total has reached
/// the goal — never before (apply the law to any prefix) and never after a
/// rejected attempt changed anything. Only the raised amount and the status
/// move; every other field stays.
pub proof fn lemma_donations_accumulate(c: Campaign, amounts: Seq<u64>)
    requires
        c.wf(),
        c.funding_detection is PushAccumulated,
        c.status is Active || c.status is Funded,
    ensures
        ({
            let d = donate_all(c, amounts);
            &&& d.wf()
            &&& d == (Campaign {
                amount_raised: d.amount_raised,
                status: d.status,
                ..c
            })
            &&& d.status is Active || d.status is Funded
            &&& d.amount_raised == c.amount_raised + recorded_sum(c, amounts)
            &&& (d.status is Funded <==> c.amount_raised + recorded_sum(c, amounts)
                >= c.goal_amount)
        }),
    decreases amounts.len(),
{
    if amounts.len() > 0 {
        lemma_donations_accumulate(c, amounts.drop_last());
    }
}

/// Completion of the accumulation law: when no attempt in the sequence is
/// rejected — every donation lands while the campaign is still short of its
/// goal, and the grand total fits in the counter — everything is recorded,
/// and the raised amount is exactly the starting amount plus the plain sum
/// of the sequence.
pub proof fn lemma_uninterrupted_donations_sum_up(c: Campaign, amounts: Seq<u64>)
    requires
        c.wf(),
        c.funding_detection is PushAccumulated,
        c.status is Active,
        c.amount_raised + sum_of(amounts) <= u64::MAX,
        forall|k: int| 0 <= k < amounts.len()
            ==> c.amount_raised + sum_of(#[trigger] amounts.take(k)) < c.goal_amount,
    ensures
        recorded_sum(c, amounts) == sum_of(amounts),
        donate_all(c, amounts).amount_raised == c.amount_raised + sum_of(amounts),
    decreases amounts.len(),
{
    if amounts.len() > 0 {
        let pre = amounts.drop_last();
        assert forall|k: int| 0 <= k < pre.len() implies c.amount_raised
            + sum_of(#[trigger] pre.take(k)) < c.goal_amount by {
            assert(pre.take(k) =~= amounts.take(k));
        }
        lemma_uninterrupted_donations_sum_up(c, pre);
        lemma_donations_accumulate(c, pre);
        assert(amounts.take(amounts.len() - 1) =~= pre);
    }
}

/// Law of refund/donation commutation: refunding part of what was raised and
/// then recording a larger donation leaves the same raised amount and status
/// as directly recording the difference. There is no hidden state: the
/// outcome depends only on the raised amount, the goal and the status.
pub proof fn lemma_refund_then_redonate_matches_partial_donation(
    c: Campaign,
    config: Config,
    refund_amount: u64,
    donation: u64,
)
    requires
        c.wf(),
        config.wf(),
        c.status is Active,
        refund_amount <= c.amount_raised,
        refund_amount <= c.vault_balance,
        refund_amount <= donation,
        c.amount_raised - refund_amount + donation <= u64::MAX,
    ensures
        ({
            let via_refund = donation_step(refund_step(c, config, refund_amount), donation);
            let direct = donation_step(c, (donation - refund_amount) as u64);
            &&& via_refund.amount_raised == direct.amount_raised
            &&& via_refund.status == direct.status
        }),
{
}

/// Law of terminal states: no operation moves a withdrawn campaign. Every
/// donation, refund, withdrawal, activation or close is rejected, and a
/// rejected operation leaves the record unchanged.
pub proof fn lemma_withdrawn_is_terminal(
    c: Campaign,
    config: Config,
    caller: Ident,
    beneficiary: Ident,
    amount: u64,
    amount_to_beneficiary: Option<u64>,
    now: u64,
)
    requires
        c.status is Withdrawn,
    ensures
        !donation_allowed(c, caller, amount),
        !refund_allowed(c, config, caller, amount, now),
        !withdraw_allowed(c, config, caller, beneficiary, amount_to_beneficiary),
        !activate_allowed(c, caller),
        !close_allowed(c, caller),
        !close_expired_allowed(c, caller, config.expiry_window, now),
{
}

/// Law of terminal states: no operation moves a closed record (its vault was
/// emptied by the sweep that closed it). The one operation whose gates a
/// closed record can still pass is a refund of zero, and that changes
/// nothing.
pub proof fn lemma_closed_is_terminal(
    c: Campaign,
    config: Config,
    caller: Ident,
    beneficiary: Ident,
    amount: u64,
    amount_to_beneficiary: Option<u64>,
    now: u64,
)
    requires
        c.status is Closed,
        c.vault_balance == 0,
    ensures
        !donation_allowed(c, caller, amount),
        !withdraw_allowed(c, config, caller, beneficiary, amount_to_beneficiary),
        !activate_allowed(c, caller),
        !close_allowed(c, caller),
        !close_expired_allowed(c, caller, config.expiry_window, now),
        refund_allowed(c, config, caller, amount, now) ==> refund_step(c, config, amount) == c,
{
}

/// Law of custody coverage: the raised amount never exceeds what the bound
/// vault actually holds, as long as every recorded donation's asset transfer
/// reaches the vault first. Crediting the vault and recording the same
/// amount keeps the coverage, and so does a granted refund, which debits
/// both sides equally.
pub proof fn lemma_vault_covers_raised(
    c: Campaign,
    config: Config,
    caller: Ident,
    amount: u64,
    now: u64,
)
    requires
        c.amount_raised <= c.vault_balance,
    ensures
        ({
            let credited = Campaign { vault_balance: (c.vault_balance + amount) as u64, ..c };
            c.vault_balance + amount <= u64::MAX && donation_accepted(credited, amount)
                ==> donation_step(credited, amount).amount_raised
                    <= donation_step(credited, amount).vault_balance
        }),
        refund_allowed(c, config, caller, amount, now)
            ==> refund_step(c, config, amount).amount_raised
                <= refund_step(c, config, amount).vault_balance,
{
}

/// Law of withdrawal finality: once a withdrawal has been granted, a second
/// one — by the same admin, towards any beneficiary and for any amount — is
/// rejected with the funds-withdrawn error, and a rejected `withdraw_funds`
/// leaves the campaign and its vault exactly as they were: funds cannot move
/// twice.
pub proof fn lemma_withdraw_is_not_repeatable(
    c: Campaign,
    config: Config,
    caller: Ident,
    beneficiary: Ident,
    amount_to_beneficiary: Option<u64>,
    second_beneficiary: Ident,
    second_amount: Option<u64>,
)
    requires
        withdraw_allowed(c, config, caller, beneficiary, amount_to_beneficiary),
    ensures
        ({
            let after = withdraw_step(c, config);
            &&& after.status is Withdrawn
            &&& !withdraw_allowed(after, config, caller, second_beneficiary, second_amount)
            &&& withdraw_error(after, config, caller, second_beneficiary)
                == EscrowError::CampaignFundsWithdrawn
        }),
{
}

} // verus!
