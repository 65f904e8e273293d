//! Global configuration: admin identity, fee destination, fee rate,
//! withdrawal whitelist, and the deployment's custody discipline switches.
//!
//! Exactly one configuration exists per deployment; the durable storage
//! collaborator enforces that uniqueness at creation. The admin identity is
//! immutable after creation: no operation of this crate changes it.

use vstd::prelude::*;

use crate::errors::EscrowError;
use crate::identity::Ident;

verus! {

/// Upper bound on the fee rate: 10000 basis points is 100%.
pub const MAX_FEE_BASIS_POINTS: u16 = 10000;

/// Bounded capacity of the withdrawal whitelist.
pub const MAX_WHITELIST_MEMBERS: usize = 10;

/// The conventional expiry window: one hour. Deployments configure their own
/// window at [`initialize`]; this named value is the customary choice.
pub const DEFAULT_EXPIRY_WINDOW_SECS: u64 = 3600;

/// Whether a campaign starts out active or waits for an explicit activation.
#[derive(Clone, Copy, Debug, PartialEq, Eq, Structural)]
pub enum ActivationMode {
    /// A created campaign is immediately active (token-vault discipline).
    Auto,
    /// A created campaign waits for `activate_campaign` (native-balance
    /// discipline).
    Explicit,
}

/// How disbursement charges its fee, and which gates apply.
#[derive(Clone, Copy, Debug, PartialEq, Eq, Structural)]
pub enum FeeModel {
    /// Token-vault discipline: refunds split off a basis-point fee to the
    /// treasury; withdrawal pays the full goal to a whitelisted beneficiary
    /// with no fee.
    FeeOnRefund,
    /// Native-balance discipline: refunds are fee-free but gated on the
    /// expiry window; withdrawal pays a chosen part to any beneficiary and
    /// sweeps the remainder of the vault to the fee wallet.
    SweepOnWithdraw,
}

/// Whether funding is detected by accumulating recorded donations or by
/// reading the vault's balance at an explicit status-sync call.
#[derive(Clone, Copy, Debug, PartialEq, Eq, Structural)]
pub enum FundingDetection {
    /// `record_donation` flips the status to funded as soon as the
    /// accumulated raised amount reaches the goal.
    PushAccumulated,
    /// Only `set_funded_status` flips the status, by comparing the vault's
    /// balance against the goal.
    BalanceRead,
}

/// The configuration singleton.
pub struct Config {
    /// Identity with exclusive rights to mutate this configuration and to
    /// authorize privileged operations.
    pub admin: Ident,
    /// Destination of collected fees and residual funds.
    pub treasury: Ident,
    /// Fee rate in hundredths of a percent, at most [`MAX_FEE_BASIS_POINTS`].
    pub fee_basis_points: u16,
    /// Identities eligible to receive withdrawal payouts.
    pub whitelist: Vec<Ident>,
    /// When set, campaign creation insists on this settlement asset.
    pub expected_settlement_asset: Option<Ident>,
    /// Whether campaigns start active or pending.
    pub activation_mode: ActivationMode,
    /// The deployment's disbursement discipline.
    pub fee_model: FeeModel,
    /// The deployment's funding-detection discipline.
    pub funding_detection: FundingDetection,
    /// Seconds after creation at which an unfunded campaign becomes
    /// reclaimable.
    pub expiry_window: u64,
}

impl Config {
    /// Well-formedness: the fee rate never exceeds 100% and the whitelist is
    /// a bounded set (no duplicates).
    pub open spec fn wf(self) -> bool {
        &&& self.fee_basis_points <= MAX_FEE_BASIS_POINTS
        &&& self.whitelist@.len() <= MAX_WHITELIST_MEMBERS
        &&& forall|i: int, j: int|
            0 <= i < j < self.whitelist@.len() ==> self.whitelist@[i] != self.whitelist@[j]
    }

    /// Whether `member` may receive withdrawal payouts.
    pub open spec fn whitelisted(self, member: Ident) -> bool {
        self.whitelist@.contains(member)
    }

    /// All fields except the whitelist are equal between `a` and `b`. The
    /// whitelist operations change nothing else; in particular the admin is
    /// immutable.
    pub open spec fn fixed_fields_unchanged(a: Config, b: Config) -> bool {
        &&& a.admin == b.admin
        &&& a.treasury == b.treasury
        &&& a.fee_basis_points == b.fee_basis_points
        &&& a.expected_settlement_asset == b.expected_settlement_asset
        &&& a.activation_mode == b.activation_mode
        &&& a.fee_model == b.fee_model
        &&& a.funding_detection == b.funding_detection
        &&& a.expiry_window == b.expiry_window
    }

    /// Returns whether `member` is on the whitelist.
    pub fn whitelist_contains(&self, member: Ident) -> (r: bool)
        ensures
            r == self.whitelisted(member),
    {
        let mut i: usize = 0;
        while i < self.whitelist.len()
            invariant
                i <= self.whitelist@.len(),
                forall|k: int| 0 <= k < i ==> self.whitelist@[k] != member,
            decreases self.whitelist@.len() - i,
        {
            if self.whitelist[i] == member {
                return true;
            }
            i = i + 1;
        }
        false
    }

    /// Adds `member` to the withdrawal whitelist. Only the admin may call;
    /// adding a present member fails, as does exceeding the bounded capacity.
    pub fn add_to_whitelist(&mut self, caller: Ident, member: Ident) -> (r: Result<(), EscrowError>)
        requires
            old(self).wf(),
        ensures
            final(self).wf(),
            Config::fixed_fields_unchanged(*old(self), *final(self)),
            add_whitelist_allowed(*old(self), caller, member) ==> {
                &&& r == Ok::<(), EscrowError>(())
                &&& final(self).whitelist@ == old(self).whitelist@.push(member)
            },
            !add_whitelist_allowed(*old(self), caller, member) ==> {
                &&& r == Err::<(), EscrowError>(add_whitelist_error(*old(self), caller, member))
                &&& final(self).whitelist@ == old(self).whitelist@
            },
    {
        if caller != self.admin {
            return Err(EscrowError::Unauthorized);
        }
        if self.whitelist_contains(member) {
            return Err(EscrowError::AlreadyOnWhitelist);
        }
        if self.whitelist.len() >= MAX_WHITELIST_MEMBERS {
            return Err(EscrowError::WhitelistFull);
        }
        self.whitelist.push(member);
        Ok(())
    }

    /// Removes `member` from the withdrawal whitelist. Only the admin may
    /// call; removing an absent member is a silent no-op.
    pub fn remove_from_whitelist(&mut self, caller: Ident, member: Ident) -> (r: Result<(), EscrowError>)
        requires
            old(self).wf(),
        ensures
            final(self).wf(),
            Config::fixed_fields_unchanged(*old(self), *final(self)),
            caller != old(self).admin ==> {
                &&& r == Err::<(), EscrowError>(EscrowError::Unauthorized)
                &&& final(self).whitelist@ == old(self).whitelist@
            },
            caller == old(self).admin ==> {
                &&& r == Ok::<(), EscrowError>(())
                &&& !final(self).whitelisted(member)
                &&& forall|x: Ident| x != member ==> final(self).whitelisted(x) == old(self).whitelisted(x)
                &&& (!old(self).whitelisted(member) ==> final(self).whitelist@ == old(self).whitelist@)
                &&& (old(self).whitelisted(member) ==> exists|i: int|
                    {
                        &&& 0 <= i < old(self).whitelist@.len()
                        &&& old(self).whitelist@[i] == member
                        &&& final(self).whitelist@ == old(self).whitelist@.remove(i)
                    })
            },
    {
        if caller != self.admin {
            return Err(EscrowError::Unauthorized);
        }
        let mut i: usize = 0;
        while i < self.whitelist.len()
            invariant
                old(self).wf(),
                caller == old(self).admin,
                self.whitelist@ == old(self).whitelist@,
                Config::fixed_fields_unchanged(*old(self), *self),
                i <= old(self).whitelist@.len(),
                forall|k: int| 0 <= k < i ==> old(self).whitelist@[k] != member,
            decreases old(self).whitelist@.len() - i,
        {
            if self.whitelist[i] == member {
                self.whitelist.remove(i);
                proof {
                    lemma_remove_clears_membership(old(self).whitelist@, i as int);
                }
                return Ok(());
            }
            i = i + 1;
        }
        assert(!old(self).whitelist@.contains(member));
        Ok(())
    }
}

/// A member may be added when the admin calls, the member is absent, and the
/// bounded capacity is not yet reached.
pub open spec fn add_whitelist_allowed(config: Config, caller: Ident, member: Ident) -> bool {
    &&& caller == config.admin
    &&& !config.whitelisted(member)
    &&& config.whitelist@.len() < MAX_WHITELIST_MEMBERS
}

/// The error a rejected `add_to_whitelist` reports.
pub open spec fn add_whitelist_error(config: Config, caller: Ident, member: Ident) -> EscrowError {
    if caller != config.admin {
        EscrowError::Unauthorized
    } else if config.whitelisted(member) {
        EscrowError::AlreadyOnWhitelist
    } else {
        EscrowError::WhitelistFull
    }
}

/// Removing the only occurrence of a value from a duplicate-free sequence
/// clears its membership and leaves every other value's membership as it was.
proof fn lemma_remove_clears_membership(s: Seq<Ident>, i: int)
    requires
        0 <= i < s.len(),
        forall|p: int, q: int| 0 <= p < q < s.len() ==> s[p] != s[q],
    ensures
        !s.remove(i).contains(s[i]),
        forall|x: Ident| x != s[i] ==> s.remove(i).contains(x) == s.contains(x),
        forall|p: int, q: int| 0 <= p < q < s.remove(i).len() ==> s.remove(i)[p] != s.remove(i)[q],
{
    let t = s.remove(i);
    assert forall|k: int| 0 <= k < t.len() implies t[k] != s[i] by {
        if k < i {
            assert(t[k] == s[k]);
        } else {
            assert(t[k] == s[k + 1]);
        }
    }
    assert forall|x: Ident| x != s[i] implies t.contains(x) == s.contains(x) by {
        if s.contains(x) {
            let k = choose|k: int| 0 <= k < s.len() && s[k] == x;
            if k < i {
                assert(t[k] == x);
            } else {
                assert(t[k - 1] == x);
            }
        }
        if t.contains(x) {
            let k = choose|k: int| 0 <= k < t.len() && t[k] == x;
            if k < i {
                assert(s[k] == x);
            } else {
                assert(s[k + 1] == x);
            }
        }
    }
    assert forall|p: int, q: int| 0 <= p < q < t.len() implies t[p] != t[q] by {
        let p0 = if p < i { p } else { p + 1 };
        let q0 = if q < i { q } else { q + 1 };
        assert(t[p] == s[p0]);
        assert(t[q] == s[q0]);
    }
}

/// Creates the configuration singleton. The storage collaborator guarantees
/// that at most one exists per deployment; the admin set here is immutable.
pub fn initialize(
    admin: Ident,
    treasury: Ident,
    fee_basis_points: u16,
    initial_whitelisted_member: Ident,
    expected_settlement_asset: Option<Ident>,
    activation_mode: ActivationMode,
    fee_model: FeeModel,
    funding_detection: FundingDetection,
    expiry_window: u64,
) -> (r: Config)
    requires
        fee_basis_points <= MAX_FEE_BASIS_POINTS,
    ensures
        r.wf(),
        r.admin == admin,
        r.treasury == treasury,
        r.fee_basis_points == fee_basis_points,
        r.whitelist@ =~= seq![initial_whitelisted_member],
        r.expected_settlement_asset == expected_settlement_asset,
        r.activation_mode == activation_mode,
        r.fee_model == fee_model,
        r.funding_detection == funding_detection,
        r.expiry_window == expiry_window,
{
    let mut whitelist: Vec<Ident> = Vec::new();
    whitelist.push(initial_whitelisted_member);
    Config {
        admin,
        treasury,
        fee_basis_points,
        whitelist,
        expected_settlement_asset,
        activation_mode,
        fee_model,
        funding_detection,
        expiry_window,
    }
}

} // verus!
