use chainequity_token::allowlist::{
    add_to_allowlist, remove_from_allowlist, update_allowlist_status, AllowlistRegistry,
    AllowlistStatus,
};
use chainequity_token::config::{
    change_symbol, execute_split_batch, finalize_split, set_token_paused, TokenConfig,
    TokenFeatures,
};
use chainequity_token::errors::TokenError;

fn test_config() -> TokenConfig {
    TokenConfig {
        token_id: 1,
        authority: 1,
        mint: 12,
        symbol: "ACME".to_string(),
        name: "Acme Equity".to_string(),
        decimals: 6,
        total_supply: 10_000,
        split_multiplier: 1,
        features: TokenFeatures {
            vesting_enabled: false,
            governance_enabled: false,
            dividends_enabled: false,
            transfer_restrictions_enabled: false,
            upgradeable: false,
        },
        is_paused: false,
        upgrade_timelock: 0,
        created_at: 0,
    }
}

#[test]
fn split_doubles_supply_and_multiplier() {
    let mut config = test_config();
    finalize_split(&mut config, 2).unwrap();
    assert_eq!(config.total_supply, 20_000);
    assert_eq!(config.split_multiplier, 2);
    finalize_split(&mut config, 3).unwrap();
    assert_eq!(config.total_supply, 60_000);
    assert_eq!(config.split_multiplier, 6);
}

#[test]
fn split_ratio_of_one_is_rejected() {
    let mut config = test_config();
    assert_eq!(finalize_split(&mut config, 1).unwrap_err(), TokenError::InvalidSplitRatio);
    assert_eq!(finalize_split(&mut config, 0).unwrap_err(), TokenError::InvalidSplitRatio);
    assert_eq!(config.total_supply, 10_000);
    assert_eq!(config.split_multiplier, 1);
}

#[test]
fn split_overflow_is_reported_and_rolls_nothing() {
    let mut config = test_config();
    config.total_supply = u64::MAX / 2 + 1;
    assert_eq!(finalize_split(&mut config, 2).unwrap_err(), TokenError::MathOverflow);
    assert_eq!(config.total_supply, u64::MAX / 2 + 1);
    assert_eq!(config.split_multiplier, 1);
}

#[test]
fn split_batch_validates_ratio() {
    assert_eq!(execute_split_batch(2, 17).unwrap(), 17);
    assert_eq!(execute_split_batch(1, 17).unwrap_err(), TokenError::InvalidSplitRatio);
}

#[test]
fn symbol_change_replaces_only_the_symbol() {
    let mut config = test_config();
    change_symbol(&mut config, "NEWCO".to_string()).unwrap();
    assert_eq!(config.symbol, "NEWCO");
    assert_eq!(config.name, "Acme Equity");
    assert_eq!(config.total_supply, 10_000);
}

#[test]
fn symbol_change_rejects_empty_and_long() {
    let mut config = test_config();
    assert_eq!(
        change_symbol(&mut config, String::new()).unwrap_err(),
        TokenError::SymbolEmpty
    );
    assert_eq!(
        change_symbol(&mut config, "ELEVENCHARS".to_string()).unwrap_err(),
        TokenError::SymbolTooLong
    );
    assert_eq!(config.symbol, "ACME");
    change_symbol(&mut config, "TENCHARSOK".to_string()).unwrap();
    assert_eq!(config.symbol, "TENCHARSOK");
}

#[test]
fn pause_toggle() {
    let mut config = test_config();
    set_token_paused(&mut config, true);
    assert!(config.is_paused);
    set_token_paused(&mut config, false);
    assert!(!config.is_paused);
}

#[test]
fn allowlist_approval_and_double_approval() {
    let config = test_config();
    let mut allowlist = AllowlistRegistry { entries: Vec::new() };
    add_to_allowlist(&mut allowlist, &config, 42, 3, 1, 999).unwrap();
    assert!(allowlist.is_active(42));
    assert_eq!(allowlist.entries[0].kyc_level, 3);
    assert_eq!(allowlist.entries[0].approved_at, 999);
    assert_eq!(allowlist.entries[0].approved_by, 1);
    let r = add_to_allowlist(&mut allowlist, &config, 42, 3, 1, 999);
    assert_eq!(r.unwrap_err(), TokenError::AlreadyOnAllowlist);
}

#[test]
fn allowlist_approval_fails_while_paused() {
    let mut config = test_config();
    config.is_paused = true;
    let mut allowlist = AllowlistRegistry { entries: Vec::new() };
    let r = add_to_allowlist(&mut allowlist, &config, 42, 3, 1, 999);
    assert_eq!(r.unwrap_err(), TokenError::TransfersPaused);
}

#[test]
fn status_update_keeps_audit_trail() {
    let config = test_config();
    let mut allowlist = AllowlistRegistry { entries: Vec::new() };
    add_to_allowlist(&mut allowlist, &config, 42, 3, 1, 999).unwrap();
    update_allowlist_status(&mut allowlist, 42, AllowlistStatus::Suspended).unwrap();
    assert!(!allowlist.is_active(42));
    assert_eq!(allowlist.entries[0].kyc_level, 3);
    assert_eq!(allowlist.entries[0].approved_at, 999);
    assert!(matches!(allowlist.entries[0].status, AllowlistStatus::Suspended));
}

#[test]
fn status_update_requires_an_entry() {
    let mut allowlist = AllowlistRegistry { entries: Vec::new() };
    let r = update_allowlist_status(&mut allowlist, 42, AllowlistStatus::Suspended);
    assert_eq!(r.unwrap_err(), TokenError::NotOnAllowlist);
}

#[test]
fn removal_deletes_the_entry() {
    let config = test_config();
    let mut allowlist = AllowlistRegistry { entries: Vec::new() };
    add_to_allowlist(&mut allowlist, &config, 42, 3, 1, 999).unwrap();
    add_to_allowlist(&mut allowlist, &config, 43, 1, 1, 999).unwrap();
    remove_from_allowlist(&mut allowlist, 42).unwrap();
    assert!(!allowlist.is_active(42));
    assert!(allowlist.is_active(43));
    assert_eq!(allowlist.entries.len(), 1);
    let r = remove_from_allowlist(&mut allowlist, 42);
    assert_eq!(r.unwrap_err(), TokenError::NotOnAllowlist);
}

#[test]
fn error_reasons_are_human_readable() {
    assert_eq!(TokenError::InLockoutPeriod.reason(), "Wallet is in lockout period");
    assert_eq!(TokenError::DailyLimitExceeded.reason(), "Transfer exceeds daily limit");
}
