//! The campaign registry: creation under a unique (subject, kind) key, and
//! destruction of closed records.
//!
//! The registry stands for the durable keyed storage collaborator: it keeps
//! every live campaign, guarantees that no two share a key, and reclaims a
//! record's storage when the campaign is closed. A key becomes free again
//! once its campaign is destroyed, so a later campaign may reuse it.

use vstd::prelude::*;

use crate::campaign::{
    close_allowed, close_error, close_expired_allowed, close_expired_error, close_payment,
    Campaign, CampaignKind, CampaignStatus,
};
use crate::config::{ActivationMode, Config};
use crate::errors::EscrowError;
use crate::identity::Ident;
use crate::transfer::Payment;

verus! {

/// Every stored campaign is well-formed and not closed, and no two stored
/// campaigns share a (subject, kind) key.
pub open spec fn registry_seq_wf(s: Seq<Campaign>) -> bool {
    &&& forall|i: int| 0 <= i < s.len() ==> (#[trigger] s[i]).wf()
    &&& forall|i: int| 0 <= i < s.len() ==> !((#[trigger] s[i]).status is Closed)
    &&& forall|i: int, j: int| #![trigger s[i], s[j]]
        0 <= i < j < s.len() ==> !s[i].same_key(s[j].subject, s[j].kind)
}

/// Whether some stored campaign carries the (subject, kind) key.
pub open spec fn has_key(s: Seq<Campaign>, subject: Ident, kind: CampaignKind) -> bool {
    exists|i: int| 0 <= i < s.len() && (#[trigger] s[i]).same_key(subject, kind)
}

/// The record `create_campaign` stores: admin bound from the configuration,
/// nothing raised, an empty vault, and a status given by the activation mode.
pub open spec fn new_campaign(
    config: Config,
    creator: Ident,
    subject: Ident,
    kind: CampaignKind,
    goal_amount: u64,
    now: u64,
) -> Campaign {
    Campaign {
        admin: config.admin,
        creator,
        subject,
        kind,
        goal_amount,
        amount_raised: 0,
        status: if config.activation_mode is Auto {
            CampaignStatus::Active
        } else {
            CampaignStatus::Created
        },
        created_at: now,
        vault_balance: 0,
        funding_detection: config.funding_detection,
    }
}

/// Creation is permitted when the admin calls, the settlement asset matches
/// the expected one where the configuration names one, and the key is free.
pub open spec fn create_allowed(
    s: Seq<Campaign>,
    config: Config,
    caller: Ident,
    subject: Ident,
    kind: CampaignKind,
    settlement_asset: Ident,
) -> bool {
    &&& caller == config.admin
    &&& (config.expected_settlement_asset matches Some(expected) ==> settlement_asset == expected)
    &&& !has_key(s, subject, kind)
}

/// The error a rejected `create_campaign` reports.
pub open spec fn create_error(
    s: Seq<Campaign>,
    config: Config,
    caller: Ident,
    subject: Ident,
    kind: CampaignKind,
    settlement_asset: Ident,
) -> EscrowError {
    if caller != config.admin {
        EscrowError::Unauthorized
    } else if config.expected_settlement_asset matches Some(expected)
        && settlement_asset != expected {
        EscrowError::InvalidUsdcMint
    } else {
        EscrowError::DuplicateCampaign
    }
}

/// Removing a record keeps the registry's well-formedness.
proof fn lemma_remove_keeps_registry_wf(s: Seq<Campaign>, i: int)
    requires
        registry_seq_wf(s),
        0 <= i < s.len(),
    ensures
        registry_seq_wf(s.remove(i)),
{
    let t = s.remove(i);
    assert forall|p: int| 0 <= p < t.len() implies (#[trigger] t[p]).wf()
        && !(t[p].status is Closed) by {
        if p < i {
            assert(t[p] == s[p]);
        } else {
            assert(t[p] == s[p + 1]);
        }
    }
    assert forall|p: int, q: int| #![trigger t[p], t[q]]
        0 <= p < q < t.len() implies !t[p].same_key(t[q].subject, t[q].kind) by {
        let p0 = if p < i { p } else { p + 1 };
        let q0 = if q < i { q } else { q + 1 };
        assert(t[p] == s[p0]);
        assert(t[q] == s[q0]);
    }
}

/// All live campaigns, uniquely keyed by (subject, kind).
pub struct CampaignRegistry {
    /// The stored records.
    pub campaigns: Vec<Campaign>,
}

impl CampaignRegistry {
    /// See [`registry_seq_wf`].
    pub open spec fn wf(self) -> bool {
        registry_seq_wf(self.campaigns@)
    }

    /// An empty registry.
    pub fn new() -> (r: CampaignRegistry)
        ensures
            r.wf(),
            r.campaigns@ =~= Seq::<Campaign>::empty(),
    {
        CampaignRegistry { campaigns: Vec::new() }
    }

    /// Returns the index of the campaign stored under (subject, kind), if
    /// any.
    pub fn find(&self, subject: Ident, kind: CampaignKind) -> (r: Option<usize>)
        ensures
            r matches Some(i) ==> i < self.campaigns@.len()
                && self.campaigns@[i as int].same_key(subject, kind),
            r is None ==> !has_key(self.campaigns@, subject, kind),
    {
        let mut i: usize = 0;
        while i < self.campaigns.len()
            invariant
                i <= self.campaigns@.len(),
                forall|k: int| 0 <= k < i
                    ==> !(#[trigger] self.campaigns@[k]).same_key(subject, kind),
            decreases self.campaigns@.len() - i,
        {
            let c = &self.campaigns[i];
            if c.subject == subject && c.kind == kind {
                return Some(i);
            }
            i = i + 1;
        }
        None
    }

    /// Creates a new campaign under the (subject, kind) key. The goal must
    /// be positive. Only the admin may call; the settlement asset must match
    /// the expected one where the configuration names one; and creation
    /// fails while an un-closed record already holds the key.
    pub fn create_campaign(
        &mut self,
        config: &Config,
        caller: Ident,
        creator: Ident,
        subject: Ident,
        kind: CampaignKind,
        goal_amount: u64,
        settlement_asset: Ident,
        now: u64,
    ) -> (r: Result<(), EscrowError>)
        requires
            old(self).wf(),
            config.wf(),
            goal_amount >= 1,
        ensures
            final(self).wf(),
            create_allowed(old(self).campaigns@, *config, caller, subject, kind, settlement_asset)
                ==> {
                &&& r == Ok::<(), EscrowError>(())
                &&& final(self).campaigns@ == old(self).campaigns@.push(new_campaign(
                    *config,
                    creator,
                    subject,
                    kind,
                    goal_amount,
                    now,
                ))
            },
            !create_allowed(old(self).campaigns@, *config, caller, subject, kind, settlement_asset)
                ==> {
                &&& r == Err::<(), EscrowError>(create_error(
                    old(self).campaigns@,
                    *config,
                    caller,
                    subject,
                    kind,
                    settlement_asset,
                ))
                &&& final(self).campaigns@ == old(self).campaigns@
            },
    {
        if caller != config.admin {
            return Err(EscrowError::Unauthorized);
        }
        match config.expected_settlement_asset {
            Some(expected) => {
                if settlement_asset != expected {
                    return Err(EscrowError::InvalidUsdcMint);
                }
            }
            None => {}
        }
        match self.find(subject, kind) {
            Some(_) => Err(EscrowError::DuplicateCampaign),
            None => {
                let status = match config.activation_mode {
                    ActivationMode::Auto => CampaignStatus::Active,
                    ActivationMode::Explicit => CampaignStatus::Created,
                };
                self.campaigns.push(Campaign {
                    admin: config.admin,
                    creator,
                    subject,
                    kind,
                    goal_amount,
                    amount_raised: 0,
                    status,
                    created_at: now,
                    vault_balance: 0,
                    funding_detection: config.funding_detection,
                });
                Ok(())
            }
        }
    }

    /// Administratively closes the campaign at `i` and destroys its record:
    /// the residual vault balance is swept to the admin and the key becomes
    /// free again. A rejected call leaves the registry unchanged.
    pub fn close_campaign(&mut self, caller: Ident, i: usize) -> (r: Result<Payment, EscrowError>)
        requires
            old(self).wf(),
            i < old(self).campaigns@.len(),
        ensures
            final(self).wf(),
            close_allowed(old(self).campaigns@[i as int], caller) ==> {
                &&& r == Ok::<Payment, EscrowError>(close_payment(old(self).campaigns@[i as int]))
                &&& final(self).campaigns@ == old(self).campaigns@.remove(i as int)
            },
            !close_allowed(old(self).campaigns@[i as int], caller) ==> {
                &&& r == Err::<Payment, EscrowError>(close_error(
                    old(self).campaigns@[i as int],
                    caller,
                ))
                &&& final(self).campaigns@ == old(self).campaigns@
            },
    {
        let mut c = self.campaigns.remove(i);
        proof {
            lemma_remove_keeps_registry_wf(old(self).campaigns@, i as int);
        }
        match c.close_campaign(caller) {
            Ok(payment) => Ok(payment),
            Err(e) => {
                self.campaigns.insert(i, c);
                proof {
                    assert(old(self).campaigns@.remove(i as int).insert(
                        i as int,
                        old(self).campaigns@[i as int],
                    ) =~= old(self).campaigns@);
                }
                Err(e)
            }
        }
    }

    /// Reclaims the expired, unfunded campaign at `i` and destroys its
    /// record: the residual vault balance is swept to the admin. A rejected
    /// call leaves the registry unchanged.
    pub fn close_expired_campaign(
        &mut self,
        config: &Config,
        caller: Ident,
        i: usize,
        now: u64,
    ) -> (r: Result<Payment, EscrowError>)
        requires
            old(self).wf(),
            i < old(self).campaigns@.len(),
        ensures
            final(self).wf(),
            close_expired_allowed(old(self).campaigns@[i as int], caller, config.expiry_window, now)
                ==> {
                &&& r == Ok::<Payment, EscrowError>(close_payment(old(self).campaigns@[i as int]))
                &&& final(self).campaigns@ == old(self).campaigns@.remove(i as int)
            },
            !close_expired_allowed(
                old(self).campaigns@[i as int],
                caller,
                config.expiry_window,
                now,
            ) ==> {
                &&& r == Err::<Payment, EscrowError>(close_expired_error(
                    old(self).campaigns@[i as int],
                    caller,
                    config.expiry_window,
                    now,
                ))
                &&& final(self).campaigns@ == old(self).campaigns@
            },
    {
        let mut c = self.campaigns.remove(i);
        proof {
            lemma_remove_keeps_registry_wf(old(self).campaigns@, i as int);
        }
        match c.close_expired_campaign(caller, config.expiry_window, now) {
            Ok(payment) => Ok(payment),
            Err(e) => {
                self.campaigns.insert(i, c);
                proof {
                    assert(old(self).campaigns@.remove(i as int).insert(
                        i as int,
                        old(self).campaigns@[i as int],
                    ) =~= old(self).campaigns@);
                }
                Err(e)
            }
        }
    }
}

} // verus!
