//! End-to-end tests of the escrow ledger: configuration, campaign lifecycle,
//! donation accounting, fee-split refunds, withdrawal finality and expiry
//! reclamation, under both custody disciplines.

use dex_raise::campaign::{Campaign, CampaignKind, CampaignStatus};
use dex_raise::config::{
    initialize, ActivationMode, Config, FeeModel, FundingDetection, DEFAULT_EXPIRY_WINDOW_SECS,
};
use dex_raise::errors::EscrowError;
use dex_raise::identity::Ident;
use dex_raise::registry::CampaignRegistry;
use dex_raise::transfer::{sweep_sol, Payment};

fn admin() -> Ident {
    Ident(1)
}

fn treasury() -> Ident {
    Ident(2)
}

fn member_a() -> Ident {
    Ident(3)
}

fn usdc() -> Ident {
    Ident(4)
}

fn donor() -> Ident {
    Ident(5)
}

fn subject() -> Ident {
    Ident(6)
}

fn outsider() -> Ident {
    Ident(99)
}

/// Token-vault discipline: auto activation, fee on refunds (50 basis
/// points), whitelist-gated withdrawal, push-accumulated funding.
fn token_vault_config() -> Config {
    initialize(
        admin(),
        treasury(),
        50,
        member_a(),
        Some(usdc()),
        ActivationMode::Auto,
        FeeModel::FeeOnRefund,
        FundingDetection::PushAccumulated,
        DEFAULT_EXPIRY_WINDOW_SECS,
    )
}

/// Native-balance discipline: explicit activation, expiry-gated fee-free
/// refunds, partial withdrawal with a sweep, balance-read funding.
fn native_config() -> Config {
    initialize(
        admin(),
        treasury(),
        0,
        member_a(),
        None,
        ActivationMode::Explicit,
        FeeModel::SweepOnWithdraw,
        FundingDetection::BalanceRead,
        DEFAULT_EXPIRY_WINDOW_SECS,
    )
}

fn fresh_campaign(config: &Config, goal: u64, created_at: u64) -> Campaign {
    let mut reg = CampaignRegistry::new();
    reg.create_campaign(
        config,
        admin(),
        donor(),
        subject(),
        CampaignKind::Cto,
        goal,
        usdc(),
        created_at,
    )
    .unwrap();
    reg.campaigns.remove(0)
}

/// A token-vault campaign funded to exactly its goal, with the vault
/// credited to match.
fn funded_campaign(config: &Config, goal: u64) -> Campaign {
    let mut c = fresh_campaign(config, goal, 0);
    c.record_donation(admin(), goal).unwrap();
    c.credit_vault(goal).unwrap();
    assert_eq!(c.status, CampaignStatus::Funded);
    c
}

// ---------------------------------------------------------------------
// Configuration and whitelist
// ---------------------------------------------------------------------

#[test]
fn initialize_sets_fields_and_seeds_whitelist() {
    let config = token_vault_config();
    assert_eq!(config.admin, admin());
    assert_eq!(config.treasury, treasury());
    assert_eq!(config.fee_basis_points, 50);
    assert_eq!(config.whitelist, vec![member_a()]);
    assert_eq!(config.expected_settlement_asset, Some(usdc()));
    assert_eq!(config.expiry_window, DEFAULT_EXPIRY_WINDOW_SECS);
}

#[test]
fn add_to_whitelist_appends_new_member() {
    let mut config = token_vault_config();
    assert_eq!(config.add_to_whitelist(admin(), Ident(7)), Ok(()));
    assert_eq!(config.whitelist, vec![member_a(), Ident(7)]);
}

#[test]
fn add_to_whitelist_rejects_present_member() {
    let mut config = token_vault_config();
    assert_eq!(
        config.add_to_whitelist(admin(), member_a()),
        Err(EscrowError::AlreadyOnWhitelist)
    );
    assert_eq!(config.whitelist, vec![member_a()]);
}

#[test]
fn add_to_whitelist_rejects_non_admin() {
    let mut config = token_vault_config();
    assert_eq!(
        config.add_to_whitelist(outsider(), Ident(7)),
        Err(EscrowError::Unauthorized)
    );
}

#[test]
fn add_to_whitelist_rejects_when_capacity_reached() {
    let mut config = token_vault_config();
    for n in 0..9u64 {
        config.add_to_whitelist(admin(), Ident(100 + n)).unwrap();
    }
    assert_eq!(config.whitelist.len(), 10);
    assert_eq!(
        config.add_to_whitelist(admin(), Ident(200)),
        Err(EscrowError::WhitelistFull)
    );
}

#[test]
fn remove_from_whitelist_removes_member() {
    let mut config = token_vault_config();
    config.add_to_whitelist(admin(), Ident(7)).unwrap();
    assert_eq!(config.remove_from_whitelist(admin(), member_a()), Ok(()));
    assert_eq!(config.whitelist, vec![Ident(7)]);
}

#[test]
fn remove_from_whitelist_absent_member_is_noop() {
    let mut config = token_vault_config();
    assert_eq!(config.remove_from_whitelist(admin(), Ident(7)), Ok(()));
    assert_eq!(config.whitelist, vec![member_a()]);
}

#[test]
fn remove_from_whitelist_rejects_non_admin() {
    let mut config = token_vault_config();
    assert_eq!(
        config.remove_from_whitelist(outsider(), member_a()),
        Err(EscrowError::Unauthorized)
    );
    assert_eq!(config.whitelist, vec![member_a()]);
}

// ---------------------------------------------------------------------
// Campaign creation and keying
// ---------------------------------------------------------------------

#[test]
fn create_campaign_binds_admin_and_starts_active_under_auto() {
    let config = token_vault_config();
    let c = fresh_campaign(&config, 1000, 42);
    assert_eq!(c.admin, admin());
    assert_eq!(c.creator, donor());
    assert_eq!(c.subject, subject());
    assert_eq!(c.kind, CampaignKind::Cto);
    assert_eq!(c.goal_amount, 1000);
    assert_eq!(c.amount_raised, 0);
    assert_eq!(c.status, CampaignStatus::Active);
    assert_eq!(c.created_at, 42);
    assert_eq!(c.vault_balance, 0);
}

#[test]
fn create_campaign_starts_pending_under_explicit_activation() {
    let config = native_config();
    let mut c = fresh_campaign(&config, 1000, 0);
    assert_eq!(c.status, CampaignStatus::Created);
    assert_eq!(c.activate_campaign(admin()), Ok(()));
    assert_eq!(c.status, CampaignStatus::Active);
}

#[test]
fn activate_campaign_rejects_already_active() {
    let config = token_vault_config();
    let mut c = fresh_campaign(&config, 1000, 0);
    assert_eq!(
        c.activate_campaign(admin()),
        Err(EscrowError::CampaignAlreadyActivated)
    );
}

#[test]
fn create_campaign_rejects_duplicate_key() {
    let config = token_vault_config();
    let mut reg = CampaignRegistry::new();
    reg.create_campaign(
        &config,
        admin(),
        donor(),
        subject(),
        CampaignKind::Boost10,
        1000,
        usdc(),
        0,
    )
    .unwrap();
    assert_eq!(
        reg.create_campaign(
            &config,
            admin(),
            donor(),
            subject(),
            CampaignKind::Boost10,
            2000,
            usdc(),
            5,
        ),
        Err(EscrowError::DuplicateCampaign)
    );
    // The same subject under another kind is a different key.
    assert_eq!(
        reg.create_campaign(
            &config,
            admin(),
            donor(),
            subject(),
            CampaignKind::Boost30,
            2000,
            usdc(),
            5,
        ),
        Ok(())
    );
    assert_eq!(reg.campaigns.len(), 2);
}

#[test]
fn create_campaign_rejects_wrong_settlement_asset() {
    let config = token_vault_config();
    let mut reg = CampaignRegistry::new();
    assert_eq!(
        reg.create_campaign(
            &config,
            admin(),
            donor(),
            subject(),
            CampaignKind::Cto,
            1000,
            Ident(77),
            0,
        ),
        Err(EscrowError::InvalidUsdcMint)
    );
    assert_eq!(reg.campaigns.len(), 0);
}

#[test]
fn create_campaign_rejects_non_admin() {
    let config = token_vault_config();
    let mut reg = CampaignRegistry::new();
    assert_eq!(
        reg.create_campaign(
            &config,
            outsider(),
            donor(),
            subject(),
            CampaignKind::Cto,
            1000,
            usdc(),
            0,
        ),
        Err(EscrowError::Unauthorized)
    );
}

#[test]
fn find_locates_campaign_by_key() {
    let config = token_vault_config();
    let mut reg = CampaignRegistry::new();
    reg.create_campaign(
        &config,
        admin(),
        donor(),
        subject(),
        CampaignKind::Boost50,
        1000,
        usdc(),
        0,
    )
    .unwrap();
    reg.create_campaign(
        &config,
        admin(),
        donor(),
        Ident(8),
        CampaignKind::Boost50,
        500,
        usdc(),
        0,
    )
    .unwrap();
    assert_eq!(reg.find(Ident(8), CampaignKind::Boost50), Some(1));
    assert_eq!(reg.find(subject(), CampaignKind::Boost50), Some(0));
    assert_eq!(reg.find(subject(), CampaignKind::EnhancedInfo), None);
}

#[test]
fn key_is_free_again_after_close() {
    let config = token_vault_config();
    let mut reg = CampaignRegistry::new();
    reg.create_campaign(
        &config,
        admin(),
        donor(),
        subject(),
        CampaignKind::Cto,
        1000,
        usdc(),
        0,
    )
    .unwrap();
    reg.close_campaign(admin(), 0).unwrap();
    assert_eq!(reg.campaigns.len(), 0);
    assert_eq!(
        reg.create_campaign(
            &config,
            admin(),
            donor(),
            subject(),
            CampaignKind::Cto,
            3000,
            usdc(),
            9,
        ),
        Ok(())
    );
}

// ---------------------------------------------------------------------
// Donation accumulation
// ---------------------------------------------------------------------

#[test]
fn donations_of_400_then_700_fund_a_goal_of_1000() {
    let config = token_vault_config();
    let mut c = fresh_campaign(&config, 1000, 0);
    assert_eq!(c.record_donation(admin(), 400), Ok(()));
    assert_eq!(c.status, CampaignStatus::Active);
    assert_eq!(c.amount_raised, 400);
    assert_eq!(c.record_donation(admin(), 700), Ok(()));
    assert_eq!(c.status, CampaignStatus::Funded);
    assert_eq!(c.amount_raised, 1100);
}

#[test]
fn raised_amount_is_the_sum_of_recorded_donations() {
    let config = token_vault_config();
    let mut c = fresh_campaign(&config, 1_000_000, 0);
    let amounts = [1u64, 20, 300, 4000, 50000];
    let mut sum = 0u64;
    for a in amounts {
        assert_eq!(c.record_donation(admin(), a), Ok(()));
        sum += a;
        assert_eq!(c.amount_raised, sum);
        // Never funded before the sum reaches the goal.
        assert_eq!(c.status, CampaignStatus::Active);
    }
    assert_eq!(c.record_donation(admin(), 1_000_000 - sum), Ok(()));
    assert_eq!(c.status, CampaignStatus::Funded);
}

#[test]
fn record_donation_rejects_when_already_funded() {
    let config = token_vault_config();
    let mut c = funded_campaign(&config, 1000);
    // A funded campaign is no longer active, so it reports the
    // not-active error.
    assert_eq!(
        c.record_donation(admin(), 1),
        Err(EscrowError::CampaignNotActive)
    );
    assert_eq!(c.amount_raised, 1000);
}

#[test]
fn record_donation_rejects_pending_campaign() {
    let config = native_config();
    let mut c = fresh_campaign(&config, 1000, 0);
    assert_eq!(
        c.record_donation(admin(), 10),
        Err(EscrowError::CampaignNotActive)
    );
}

#[test]
fn record_donation_rejects_overflow() {
    let config = token_vault_config();
    let mut c = fresh_campaign(&config, u64::MAX, 0);
    assert_eq!(c.record_donation(admin(), u64::MAX - 1), Ok(()));
    assert_eq!(c.status, CampaignStatus::Active);
    assert_eq!(
        c.record_donation(admin(), 2),
        Err(EscrowError::ArithmeticOverflow)
    );
    assert_eq!(c.amount_raised, u64::MAX - 1);
}

#[test]
fn credit_vault_rejects_overflowing_balance() {
    let config = token_vault_config();
    let mut c = fresh_campaign(&config, 1000, 0);
    c.credit_vault(u64::MAX).unwrap();
    assert_eq!(c.credit_vault(1), Err(EscrowError::ArithmeticOverflow));
    assert_eq!(c.vault_balance, u64::MAX);
}

#[test]
fn record_donation_rejects_non_admin() {
    let config = token_vault_config();
    let mut c = fresh_campaign(&config, 1000, 0);
    assert_eq!(
        c.record_donation(outsider(), 10),
        Err(EscrowError::Unauthorized)
    );
    assert_eq!(c.amount_raised, 0);
}

// ---------------------------------------------------------------------
// Refunds
// ---------------------------------------------------------------------

#[test]
fn refund_of_1000_at_50_bps_pays_995_and_charges_5() {
    let config = token_vault_config();
    let mut c = funded_campaign(&config, 1000);
    let receipt = c
        .process_refund(&config, admin(), 1000, donor(), 0)
        .unwrap();
    assert_eq!(receipt.payout, Payment { to: donor(), amount: 995 });
    assert_eq!(receipt.fee, Payment { to: treasury(), amount: 5 });
    assert_eq!(c.vault_balance, 0);
    assert_eq!(c.amount_raised, 0);
}

#[test]
fn full_refund_reverts_funded_campaign_to_active() {
    let config = token_vault_config();
    let mut c = funded_campaign(&config, 1000);
    c.process_refund(&config, admin(), 600, donor(), 0).unwrap();
    assert_eq!(c.status, CampaignStatus::Active);
    assert_eq!(c.amount_raised, 400);
}

#[test]
fn refund_then_redonation_matches_direct_partial_donation() {
    let config = token_vault_config();

    // Path one: refund 300, then donate 500.
    let mut via_refund = fresh_campaign(&config, 1000, 0);
    via_refund.record_donation(admin(), 400).unwrap();
    via_refund.credit_vault(400).unwrap();
    via_refund
        .process_refund(&config, admin(), 300, donor(), 0)
        .unwrap();
    via_refund.record_donation(admin(), 500).unwrap();

    // Path two: donate the 200 difference directly.
    let mut direct = fresh_campaign(&config, 1000, 0);
    direct.record_donation(admin(), 400).unwrap();
    direct.record_donation(admin(), 200).unwrap();

    assert_eq!(via_refund.amount_raised, direct.amount_raised);
    assert_eq!(via_refund.status, direct.status);
}

#[test]
fn refund_rejects_after_withdrawal() {
    let config = token_vault_config();
    let mut c = funded_campaign(&config, 1000);
    c.withdraw_funds(&config, admin(), member_a(), None).unwrap();
    assert_eq!(
        c.process_refund(&config, admin(), 1, donor(), 0),
        Err(EscrowError::CampaignFundsWithdrawn)
    );
}

#[test]
fn refund_rejects_insufficient_vault_balance() {
    let config = token_vault_config();
    let mut c = fresh_campaign(&config, 1000, 0);
    c.record_donation(admin(), 500).unwrap();
    c.credit_vault(200).unwrap();
    assert_eq!(
        c.process_refund(&config, admin(), 300, donor(), 0),
        Err(EscrowError::InsufficientVaultBalance)
    );
    assert_eq!(c.vault_balance, 200);
    assert_eq!(c.amount_raised, 500);
}

#[test]
fn refund_rejects_more_than_was_raised() {
    let config = token_vault_config();
    let mut c = fresh_campaign(&config, 1000, 0);
    c.record_donation(admin(), 100).unwrap();
    c.credit_vault(500).unwrap();
    assert_eq!(
        c.process_refund(&config, admin(), 300, donor(), 0),
        Err(EscrowError::ArithmeticUnderflow)
    );
    assert_eq!(c.amount_raised, 100);
    assert_eq!(c.vault_balance, 500);
}

#[test]
fn native_refund_waits_for_the_expiry_window() {
    let config = native_config();
    let mut c = fresh_campaign(&config, 1000, 1000);
    c.activate_campaign(admin()).unwrap();
    c.record_donation(admin(), 100).unwrap();
    c.credit_vault(100).unwrap();
    // Inside the window: rejected, nothing changes.
    assert_eq!(
        c.process_refund(&config, admin(), 100, donor(), 1000 + 3600),
        Err(EscrowError::RefundNotAvailable)
    );
    // Past the window: the whole amount comes back, fee-free.
    let receipt = c
        .process_refund(&config, admin(), 100, donor(), 1000 + 3601)
        .unwrap();
    assert_eq!(receipt.payout, Payment { to: donor(), amount: 100 });
    assert_eq!(receipt.fee, Payment { to: treasury(), amount: 0 });
    assert_eq!(c.amount_raised, 0);
}

// ---------------------------------------------------------------------
// Withdrawal
// ---------------------------------------------------------------------

#[test]
fn withdraw_pays_goal_to_whitelisted_member_only() {
    let config = token_vault_config();
    let mut c = funded_campaign(&config, 1000);
    // Beneficiary off the whitelist: rejected.
    assert_eq!(
        c.withdraw_funds(&config, admin(), outsider(), None),
        Err(EscrowError::NotOnWhitelist)
    );
    assert_eq!(c.status, CampaignStatus::Funded);
    // Whitelisted beneficiary: the full goal, and the campaign ends.
    let receipt = c.withdraw_funds(&config, admin(), member_a(), None).unwrap();
    assert_eq!(
        receipt.to_beneficiary,
        Payment { to: member_a(), amount: 1000 }
    );
    assert_eq!(receipt.residual, None);
    assert_eq!(c.status, CampaignStatus::Withdrawn);
    assert_eq!(c.vault_balance, 0);
}

#[test]
fn withdraw_twice_fails_and_moves_nothing_twice() {
    let config = token_vault_config();
    let mut c = funded_campaign(&config, 1000);
    c.withdraw_funds(&config, admin(), member_a(), None).unwrap();
    let frozen = c;
    assert_eq!(
        c.withdraw_funds(&config, admin(), member_a(), None),
        Err(EscrowError::CampaignFundsWithdrawn)
    );
    assert_eq!(c, frozen);
}

#[test]
fn withdraw_rejects_unfunded_campaign() {
    let config = token_vault_config();
    let mut c = fresh_campaign(&config, 1000, 0);
    c.record_donation(admin(), 999).unwrap();
    c.credit_vault(999).unwrap();
    assert_eq!(
        c.withdraw_funds(&config, admin(), member_a(), None),
        Err(EscrowError::CampaignNotFunded)
    );
}

#[test]
fn withdraw_rejects_vault_short_of_goal() {
    let config = token_vault_config();
    let mut c = fresh_campaign(&config, 1000, 0);
    c.record_donation(admin(), 1000).unwrap();
    c.credit_vault(900).unwrap();
    assert_eq!(
        c.withdraw_funds(&config, admin(), member_a(), None),
        Err(EscrowError::InsufficientVaultBalance)
    );
}

#[test]
fn native_withdraw_splits_part_and_sweeps_remainder() {
    let config = native_config();
    let mut c = fresh_campaign(&config, 1000, 0);
    c.activate_campaign(admin()).unwrap();
    c.credit_vault(1500).unwrap();
    assert_eq!(c.set_funded_status(admin()), Ok(true));
    let receipt = c
        .withdraw_funds(&config, admin(), outsider(), Some(600))
        .unwrap();
    assert_eq!(
        receipt.to_beneficiary,
        Payment { to: outsider(), amount: 600 }
    );
    assert_eq!(
        receipt.residual,
        Some(Payment { to: treasury(), amount: 900 })
    );
    assert_eq!(c.status, CampaignStatus::Withdrawn);
    assert_eq!(c.vault_balance, 0);
}

#[test]
fn set_funded_status_reads_the_vault_balance() {
    let config = native_config();
    let mut c = fresh_campaign(&config, 1000, 0);
    c.activate_campaign(admin()).unwrap();
    c.credit_vault(999).unwrap();
    assert_eq!(c.set_funded_status(admin()), Ok(false));
    assert_eq!(c.status, CampaignStatus::Active);
    c.credit_vault(1).unwrap();
    assert_eq!(c.set_funded_status(admin()), Ok(true));
    assert_eq!(c.status, CampaignStatus::Funded);
}

// ---------------------------------------------------------------------
// Closing and expiry reclamation
// ---------------------------------------------------------------------

#[test]
fn close_expired_respects_the_window_and_destroys_the_record() {
    let config = token_vault_config();
    let mut reg = CampaignRegistry::new();
    reg.create_campaign(
        &config,
        admin(),
        donor(),
        subject(),
        CampaignKind::Cto,
        1000,
        usdc(),
        1000,
    )
    .unwrap();
    reg.campaigns[0].credit_vault(25).unwrap();
    // One second short of the window: rejected, the record stays.
    assert_eq!(
        reg.close_expired_campaign(&config, admin(), 0, 1000 + 3599),
        Err(EscrowError::CampaignNotExpiredOrFunded)
    );
    assert_eq!(reg.campaigns.len(), 1);
    // One second past the window: the residual is swept to the admin and
    // the record is destroyed.
    assert_eq!(
        reg.close_expired_campaign(&config, admin(), 0, 1000 + 3601),
        Ok(Payment { to: admin(), amount: 25 })
    );
    assert_eq!(reg.campaigns.len(), 0);
}

#[test]
fn close_expired_rejects_funded_campaign() {
    let config = token_vault_config();
    let mut reg = CampaignRegistry::new();
    reg.create_campaign(
        &config,
        admin(),
        donor(),
        subject(),
        CampaignKind::Cto,
        1000,
        usdc(),
        0,
    )
    .unwrap();
    reg.campaigns[0].record_donation(admin(), 1000).unwrap();
    assert_eq!(
        reg.close_expired_campaign(&config, admin(), 0, 100_000),
        Err(EscrowError::CampaignNotExpiredOrFunded)
    );
    assert_eq!(reg.campaigns.len(), 1);
}

#[test]
fn close_campaign_sweeps_residual_to_admin_at_any_time() {
    let config = token_vault_config();
    let mut reg = CampaignRegistry::new();
    reg.create_campaign(
        &config,
        admin(),
        donor(),
        subject(),
        CampaignKind::Cto,
        1000,
        usdc(),
        0,
    )
    .unwrap();
    reg.campaigns[0].credit_vault(40).unwrap();
    assert_eq!(
        reg.close_campaign(admin(), 0),
        Ok(Payment { to: admin(), amount: 40 })
    );
    assert_eq!(reg.campaigns.len(), 0);
}

#[test]
fn close_campaign_rejects_funded_campaign() {
    let config = token_vault_config();
    let mut reg = CampaignRegistry::new();
    reg.create_campaign(
        &config,
        admin(),
        donor(),
        subject(),
        CampaignKind::Cto,
        1000,
        usdc(),
        0,
    )
    .unwrap();
    reg.campaigns[0].record_donation(admin(), 1000).unwrap();
    assert_eq!(
        reg.close_campaign(admin(), 0),
        Err(EscrowError::CampaignAlreadyFunded)
    );
    assert_eq!(reg.campaigns.len(), 1);
}

// ---------------------------------------------------------------------
// Terminal states and custody coverage
// ---------------------------------------------------------------------

#[test]
fn withdrawn_campaign_rejects_every_operation() {
    let config = token_vault_config();
    let mut c = funded_campaign(&config, 1000);
    c.withdraw_funds(&config, admin(), member_a(), None).unwrap();
    let frozen = c;
    assert_eq!(
        c.record_donation(admin(), 1),
        Err(EscrowError::CampaignNotActive)
    );
    assert_eq!(
        c.process_refund(&config, admin(), 0, donor(), 0),
        Err(EscrowError::CampaignFundsWithdrawn)
    );
    assert_eq!(
        c.withdraw_funds(&config, admin(), member_a(), None),
        Err(EscrowError::CampaignFundsWithdrawn)
    );
    assert_eq!(
        c.activate_campaign(admin()),
        Err(EscrowError::CampaignAlreadyActivated)
    );
    assert_eq!(
        c.close_campaign(admin()),
        Err(EscrowError::CampaignFundsWithdrawn)
    );
    assert_eq!(
        c.close_expired_campaign(admin(), 0, u64::MAX),
        Err(EscrowError::CampaignFundsWithdrawn)
    );
    assert_eq!(c, frozen);
}

#[test]
fn vault_covers_raised_while_deposits_precede_recording() {
    let config = token_vault_config();
    let mut c = fresh_campaign(&config, 10_000, 0);
    for amount in [500u64, 1, 2499] {
        c.credit_vault(amount).unwrap();
        c.record_donation(admin(), amount).unwrap();
        assert!(c.amount_raised <= c.vault_balance);
    }
    c.process_refund(&config, admin(), 1500, donor(), 0).unwrap();
    assert!(c.amount_raised <= c.vault_balance);
    assert_eq!(c.amount_raised, 1500);
    assert_eq!(c.vault_balance, 1500);
}

// ---------------------------------------------------------------------
// Balance sweep
// ---------------------------------------------------------------------

#[test]
fn sweep_moves_the_whole_source_balance() {
    let mut source = 750u64;
    let mut destination = 10u64;
    assert_eq!(sweep_sol(admin(), admin(), &mut source, &mut destination), Ok(()));
    assert_eq!(source, 0);
    assert_eq!(destination, 760);
}

#[test]
fn sweep_of_empty_source_is_a_silent_noop() {
    let mut source = 0u64;
    let mut destination = 10u64;
    assert_eq!(sweep_sol(admin(), admin(), &mut source, &mut destination), Ok(()));
    assert_eq!(destination, 10);
}

#[test]
fn sweep_rejects_non_admin() {
    let mut source = 5u64;
    let mut destination = 0u64;
    assert_eq!(
        sweep_sol(admin(), outsider(), &mut source, &mut destination),
        Err(EscrowError::Unauthorized)
    );
    assert_eq!(source, 5);
}

#[test]
fn sweep_rejects_overflowing_destination() {
    let mut source = 2u64;
    let mut destination = u64::MAX - 1;
    assert_eq!(
        sweep_sol(admin(), admin(), &mut source, &mut destination),
        Err(EscrowError::ArithmeticOverflow)
    );
    assert_eq!(source, 2);
    assert_eq!(destination, u64::MAX - 1);
}
