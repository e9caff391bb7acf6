use chainequity_token::allowlist::{
    add_to_allowlist, remove_from_allowlist, update_allowlist_status, AllowlistRegistry,
    AllowlistStatus,
};
use chainequity_token::config::{TokenConfig, TokenFeatures};
use chainequity_token::errors::TokenError;
use chainequity_token::restrictions::{
    day_index, set_wallet_restrictions, RestrictionsRegistry, WalletRestrictions,
};
use chainequity_token::transfer::{mint_tokens, transfer_tokens};

const SENDER: u64 = 100;
const RECIPIENT: u64 = 200;
const ADMIN: u64 = 1;

fn test_config() -> TokenConfig {
    TokenConfig {
        token_id: 1,
        authority: ADMIN,
        mint: 12,
        symbol: "ACME".to_string(),
        name: "Acme Equity".to_string(),
        decimals: 6,
        total_supply: 1_000_000,
        split_multiplier: 1,
        features: TokenFeatures {
            vesting_enabled: true,
            governance_enabled: false,
            dividends_enabled: true,
            transfer_restrictions_enabled: true,
            upgradeable: false,
        },
        is_paused: false,
        upgrade_timelock: 0,
        created_at: 0,
    }
}

fn approved_pair() -> AllowlistRegistry {
    let mut allowlist = AllowlistRegistry { entries: Vec::new() };
    add_to_allowlist(&mut allowlist, &test_config(), SENDER, 2, ADMIN, 10).unwrap();
    add_to_allowlist(&mut allowlist, &test_config(), RECIPIENT, 2, ADMIN, 10).unwrap();
    allowlist
}

fn limited_sender(limit: u64) -> RestrictionsRegistry {
    let mut restrictions = RestrictionsRegistry { entries: Vec::new() };
    set_wallet_restrictions(
        &mut restrictions,
        &test_config(),
        SENDER,
        Some(limit),
        None,
        None,
        0,
    )
    .unwrap();
    restrictions
}

#[test]
fn transfer_between_approved_wallets_succeeds() {
    let allowlist = approved_pair();
    let mut restrictions = RestrictionsRegistry { entries: Vec::new() };
    let r = transfer_tokens(
        &test_config(),
        &allowlist,
        &mut restrictions,
        SENDER,
        RECIPIENT,
        500,
        1_000,
    );
    assert!(r.is_ok());
}

#[test]
fn daily_limit_blocks_second_transfer_same_day() {
    let allowlist = approved_pair();
    let mut restrictions = limited_sender(100);
    let config = test_config();
    assert!(
        transfer_tokens(&config, &allowlist, &mut restrictions, SENDER, RECIPIENT, 60, 1_000)
            .is_ok()
    );
    let r = transfer_tokens(&config, &allowlist, &mut restrictions, SENDER, RECIPIENT, 60, 2_000);
    assert_eq!(r.unwrap_err(), TokenError::DailyLimitExceeded);
}

#[test]
fn daily_limit_resets_across_day_boundary() {
    let allowlist = approved_pair();
    let mut restrictions = limited_sender(100);
    let config = test_config();
    assert!(
        transfer_tokens(&config, &allowlist, &mut restrictions, SENDER, RECIPIENT, 60, 1_000)
            .is_ok()
    );
    // next UTC day: the window resets before the limit check
    let next_day = 86_400 + 100;
    assert!(
        transfer_tokens(&config, &allowlist, &mut restrictions, SENDER, RECIPIENT, 60, next_day)
            .is_ok()
    );
    assert_eq!(restrictions.entries[0].transferred_today, 60);
    assert_eq!(restrictions.entries[0].last_transfer_day, next_day);
}

#[test]
fn failed_limit_check_leaves_window_untouched() {
    let allowlist = approved_pair();
    let mut restrictions = limited_sender(100);
    let config = test_config();
    assert!(
        transfer_tokens(&config, &allowlist, &mut restrictions, SENDER, RECIPIENT, 90, 1_000)
            .is_ok()
    );
    let before = restrictions.entries[0];
    let r = transfer_tokens(&config, &allowlist, &mut restrictions, SENDER, RECIPIENT, 20, 1_500);
    assert_eq!(r.unwrap_err(), TokenError::DailyLimitExceeded);
    assert_eq!(restrictions.entries[0], before);
}

#[test]
fn lockout_blocks_transfer_until_expiry() {
    let allowlist = approved_pair();
    let config = test_config();
    let mut restrictions = RestrictionsRegistry { entries: Vec::new() };
    set_wallet_restrictions(&mut restrictions, &config, SENDER, None, Some(5_000), None, 0)
        .unwrap();
    let r = transfer_tokens(&config, &allowlist, &mut restrictions, SENDER, RECIPIENT, 1, 4_999);
    assert_eq!(r.unwrap_err(), TokenError::InLockoutPeriod);
    assert!(
        transfer_tokens(&config, &allowlist, &mut restrictions, SENDER, RECIPIENT, 1, 5_000)
            .is_ok()
    );
}

#[test]
fn daily_accounting_overflow_is_reported() {
    let allowlist = approved_pair();
    let config = test_config();
    let mut restrictions = RestrictionsRegistry {
        entries: vec![WalletRestrictions {
            wallet: SENDER,
            daily_transfer_limit: Some(u64::MAX),
            transferred_today: u64::MAX,
            last_transfer_day: 1_000,
            lockout_until: None,
            max_balance: None,
        }],
    };
    let r = transfer_tokens(&config, &allowlist, &mut restrictions, SENDER, RECIPIENT, 1, 2_000);
    assert_eq!(r.unwrap_err(), TokenError::MathOverflow);
}

#[test]
fn paused_token_blocks_transfers() {
    let allowlist = approved_pair();
    let mut config = test_config();
    config.is_paused = true;
    let mut restrictions = RestrictionsRegistry { entries: Vec::new() };
    let r = transfer_tokens(&config, &allowlist, &mut restrictions, SENDER, RECIPIENT, 1, 1_000);
    assert_eq!(r.unwrap_err(), TokenError::TransfersPaused);
}

#[test]
fn zero_amount_transfer_is_rejected() {
    let allowlist = approved_pair();
    let mut restrictions = RestrictionsRegistry { entries: Vec::new() };
    let r = transfer_tokens(
        &test_config(),
        &allowlist,
        &mut restrictions,
        SENDER,
        RECIPIENT,
        0,
        1_000,
    );
    assert_eq!(r.unwrap_err(), TokenError::InvalidAmount);
}

#[test]
fn unknown_sender_is_rejected() {
    let mut allowlist = AllowlistRegistry { entries: Vec::new() };
    add_to_allowlist(&mut allowlist, &test_config(), RECIPIENT, 2, ADMIN, 10).unwrap();
    let mut restrictions = RestrictionsRegistry { entries: Vec::new() };
    let r = transfer_tokens(
        &test_config(),
        &allowlist,
        &mut restrictions,
        SENDER,
        RECIPIENT,
        1,
        1_000,
    );
    assert_eq!(r.unwrap_err(), TokenError::SenderNotApproved);
}

#[test]
fn revoked_wallet_can_neither_send_nor_receive() {
    let config = test_config();
    let mut allowlist = approved_pair();
    remove_from_allowlist(&mut allowlist, SENDER).unwrap();
    let mut restrictions = RestrictionsRegistry { entries: Vec::new() };
    let r = transfer_tokens(&config, &allowlist, &mut restrictions, SENDER, RECIPIENT, 1, 1_000);
    assert_eq!(r.unwrap_err(), TokenError::SenderNotApproved);
    let r = transfer_tokens(&config, &allowlist, &mut restrictions, RECIPIENT, SENDER, 1, 1_000);
    assert_eq!(r.unwrap_err(), TokenError::RecipientNotApproved);
}

#[test]
fn suspended_wallet_can_neither_send_nor_receive() {
    let config = test_config();
    let mut allowlist = approved_pair();
    update_allowlist_status(&mut allowlist, SENDER, AllowlistStatus::Suspended).unwrap();
    let mut restrictions = RestrictionsRegistry { entries: Vec::new() };
    let r = transfer_tokens(&config, &allowlist, &mut restrictions, SENDER, RECIPIENT, 1, 1_000);
    assert_eq!(r.unwrap_err(), TokenError::SenderNotApproved);
    let r = transfer_tokens(&config, &allowlist, &mut restrictions, RECIPIENT, SENDER, 1, 1_000);
    assert_eq!(r.unwrap_err(), TokenError::RecipientNotApproved);
    update_allowlist_status(&mut allowlist, SENDER, AllowlistStatus::Active).unwrap();
    assert!(
        transfer_tokens(&config, &allowlist, &mut restrictions, SENDER, RECIPIENT, 1, 1_000)
            .is_ok()
    );
}

#[test]
fn mint_books_supply_for_approved_recipient() {
    let allowlist = approved_pair();
    let mut config = test_config();
    let new_supply = mint_tokens(&mut config, &allowlist, RECIPIENT, 5_000).unwrap();
    assert_eq!(new_supply, 1_005_000);
    assert_eq!(config.total_supply, 1_005_000);
}

#[test]
fn mint_rejects_unapproved_recipient() {
    let allowlist = approved_pair();
    let mut config = test_config();
    let r = mint_tokens(&mut config, &allowlist, 999, 5_000);
    assert_eq!(r.unwrap_err(), TokenError::RecipientNotApproved);
    assert_eq!(config.total_supply, 1_000_000);
}

#[test]
fn mint_rejects_zero_and_paused_and_overflow() {
    let allowlist = approved_pair();
    let mut config = test_config();
    assert_eq!(
        mint_tokens(&mut config, &allowlist, RECIPIENT, 0).unwrap_err(),
        TokenError::InvalidAmount
    );
    config.is_paused = true;
    assert_eq!(
        mint_tokens(&mut config, &allowlist, RECIPIENT, 1).unwrap_err(),
        TokenError::TransfersPaused
    );
    config.is_paused = false;
    config.total_supply = u64::MAX;
    assert_eq!(
        mint_tokens(&mut config, &allowlist, RECIPIENT, 1).unwrap_err(),
        TokenError::MathOverflow
    );
}

#[test]
fn restrictions_update_keeps_running_total() {
    let config = test_config();
    let allowlist = approved_pair();
    let mut restrictions = limited_sender(100);
    assert!(
        transfer_tokens(&config, &allowlist, &mut restrictions, SENDER, RECIPIENT, 40, 1_000)
            .is_ok()
    );
    // raising the limit keeps what was already counted today
    set_wallet_restrictions(&mut restrictions, &config, SENDER, Some(200), None, None, 1_500)
        .unwrap();
    assert_eq!(restrictions.entries[0].transferred_today, 40);
    assert_eq!(restrictions.entries[0].daily_transfer_limit, Some(200));
}

#[test]
fn restrictions_require_the_feature() {
    let mut config = test_config();
    config.features.transfer_restrictions_enabled = false;
    let mut restrictions = RestrictionsRegistry { entries: Vec::new() };
    let r = set_wallet_restrictions(&mut restrictions, &config, SENDER, Some(1), None, None, 0);
    assert_eq!(r.unwrap_err(), TokenError::FeatureDisabled);
}

#[test]
fn day_index_is_midnight_aligned() {
    assert_eq!(day_index(0), 0);
    assert_eq!(day_index(86_399), 0);
    assert_eq!(day_index(86_400), 1);
    assert_eq!(day_index(-1), -1);
    assert_eq!(day_index(-86_400), -1);
    assert_eq!(day_index(-86_401), -2);
    assert_eq!(day_index(i64::MAX), i64::MAX / 86_400);
    assert_eq!(day_index(i64::MIN), i64::MIN.div_euclid(86_400));
}
