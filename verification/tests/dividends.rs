use chainequity_token::config::{TokenConfig, TokenFeatures};
use chainequity_token::dividends::{
    claim_dividend, create_dividend_round, DividendStatus,
};
use chainequity_token::errors::TokenError;

fn test_config(total_supply: u64) -> TokenConfig {
    TokenConfig {
        token_id: 1,
        authority: 1,
        mint: 12,
        symbol: "ACME".to_string(),
        name: "Acme Equity".to_string(),
        decimals: 6,
        total_supply,
        split_multiplier: 1,
        features: TokenFeatures {
            vesting_enabled: false,
            governance_enabled: false,
            dividends_enabled: true,
            transfer_restrictions_enabled: false,
            upgradeable: false,
        },
        is_paused: false,
        upgrade_timelock: 0,
        created_at: 0,
    }
}

#[test]
fn round_fixes_pro_rata_rate_at_creation() {
    let config = test_config(1_000);
    let round = create_dividend_round(&config, 1, 77, 1_000_000, None, 500).unwrap();
    // 1,000,000 pool * 1e6 scale / 1,000 supply
    assert_eq!(round.amount_per_share, 1_000_000_000);
    assert!(matches!(round.status, DividendStatus::Active));
    assert_eq!(round.created_at, 500);
    assert_eq!(round.expires_at, None);
    assert_eq!(round.claims.len(), 0);
}

#[test]
fn holder_of_ten_tokens_claims_ten_thousand() {
    let config = test_config(1_000);
    let mut round = create_dividend_round(&config, 1, 77, 1_000_000, None, 500).unwrap();
    let paid = claim_dividend(&mut round, 42, 10, 600).unwrap();
    assert_eq!(paid, 10_000);
    assert_eq!(round.claims.len(), 1);
    assert_eq!(round.claims[0].wallet, 42);
    assert_eq!(round.claims[0].amount, 10_000);
    assert_eq!(round.claims[0].claimed_at, 600);
}

#[test]
fn second_claim_fails_regardless_of_balance() {
    let config = test_config(1_000);
    let mut round = create_dividend_round(&config, 1, 77, 1_000_000, None, 500).unwrap();
    claim_dividend(&mut round, 42, 10, 600).unwrap();
    // even with a larger balance the existing record blocks payment
    let r = claim_dividend(&mut round, 42, 1_000_000, 700);
    assert_eq!(r.unwrap_err(), TokenError::AlreadyClaimed);
    let r = claim_dividend(&mut round, 42, 0, 700);
    assert_eq!(r.unwrap_err(), TokenError::AlreadyClaimed);
    assert_eq!(round.claims.len(), 1);
    // a different wallet still claims normally
    assert_eq!(claim_dividend(&mut round, 43, 1, 700).unwrap(), 1_000);
}

#[test]
fn round_requires_the_dividend_feature() {
    let mut config = test_config(1_000);
    config.features.dividends_enabled = false;
    let r = create_dividend_round(&config, 1, 77, 1_000_000, None, 500);
    assert_eq!(r.unwrap_err(), TokenError::FeatureDisabled);
}

#[test]
fn round_requires_a_funded_pool() {
    let config = test_config(1_000);
    let r = create_dividend_round(&config, 1, 77, 0, None, 500);
    assert_eq!(r.unwrap_err(), TokenError::InvalidAmount);
}

#[test]
fn zero_supply_round_pays_nobody() {
    let config = test_config(0);
    let mut round = create_dividend_round(&config, 1, 77, 1_000_000, None, 500).unwrap();
    assert_eq!(round.amount_per_share, 0);
    let r = claim_dividend(&mut round, 42, 10, 600);
    assert_eq!(r.unwrap_err(), TokenError::NoEntitlement);
}

#[test]
fn oversized_rate_is_reported_as_overflow() {
    let config = test_config(1);
    let r = create_dividend_round(&config, 1, 77, u64::MAX, None, 500);
    assert_eq!(r.unwrap_err(), TokenError::MathOverflow);
}

#[test]
fn expired_round_rejects_claims() {
    let config = test_config(1_000);
    let mut round = create_dividend_round(&config, 1, 77, 1_000_000, Some(100), 500).unwrap();
    assert_eq!(round.expires_at, Some(600));
    assert_eq!(claim_dividend(&mut round, 42, 10, 600).unwrap(), 10_000);
    let r = claim_dividend(&mut round, 43, 10, 601);
    assert_eq!(r.unwrap_err(), TokenError::DividendExpired);
}

#[test]
fn far_future_expiry_saturates() {
    let config = test_config(1_000);
    let round = create_dividend_round(&config, 1, 77, 1_000_000, Some(u64::MAX), 100).unwrap();
    assert_eq!(round.expires_at, Some(i64::MAX));
}

#[test]
fn inactive_round_rejects_claims() {
    let config = test_config(1_000);
    let mut round = create_dividend_round(&config, 1, 77, 1_000_000, None, 500).unwrap();
    round.status = DividendStatus::Completed;
    let r = claim_dividend(&mut round, 42, 10, 600);
    assert_eq!(r.unwrap_err(), TokenError::DividendNotActive);
}

#[test]
fn dust_balance_has_no_entitlement() {
    // pool 1 over supply 1,000,000: rate 1; 100 tokens earn 100/1e6 = 0
    let config = test_config(1_000_000);
    let mut round = create_dividend_round(&config, 1, 77, 1, None, 500).unwrap();
    assert_eq!(round.amount_per_share, 1);
    let r = claim_dividend(&mut round, 42, 100, 600);
    assert_eq!(r.unwrap_err(), TokenError::NoEntitlement);
    let r = claim_dividend(&mut round, 42, 0, 600);
    assert_eq!(r.unwrap_err(), TokenError::NoEntitlement);
    assert_eq!(round.claims.len(), 0);
}
