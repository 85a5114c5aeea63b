//! Tests for the balance aggregator: per-token default substitution,
//! batch ordering, the non-zero filter, the preset list, and the version
//! probe.

use portfolio_reader::reader::{filter_non_zero, preset_tokens, PortfolioReader};
use portfolio_reader::token::{Address, TokenFetch, TokenQueryResult};
use portfolio_reader::u256::U256;

fn addr(fill: u8) -> Address {
    Address::from_bytes([fill; 20])
}

fn fetch_ok(balance: u64, decimals: u8, symbol: &str) -> TokenFetch {
    TokenFetch {
        balance: Some(U256::from_u64(balance)),
        decimals: Some(decimals),
        symbol: Some(symbol.to_owned()),
    }
}

fn fetch_failed() -> TokenFetch {
    TokenFetch { balance: None, decimals: None, symbol: None }
}

#[test]
fn test_portfolio_reader() {
    let contract = PortfolioReader::new();

    // Test that the contract version is correct
    assert_eq!(U256::from_u64(1), contract.get_version());
}

#[test]
fn single_conforming_token_is_unmodified() {
    let reader = PortfolioReader::new();
    let user = addr(1);
    let token = addr(2);
    let result = reader.get_token_balance(user, token, fetch_ok(42, 6, "USDC"));
    assert_eq!(
        result,
        TokenQueryResult {
            token,
            balance: U256::from_u64(42),
            decimals: 6,
            symbol: "USDC".to_owned(),
        }
    );
}

#[test]
fn single_unreachable_token_gets_defaults() {
    let reader = PortfolioReader::new();
    let token = addr(3);
    let result = reader.get_token_balance(addr(1), token, fetch_failed());
    assert_eq!(
        result,
        TokenQueryResult {
            token,
            balance: U256::from_u64(0),
            decimals: 18,
            symbol: "UNKNOWN".to_owned(),
        }
    );
}

#[test]
fn sub_query_failures_are_independent() {
    let reader = PortfolioReader::new();
    let token = addr(4);

    // Only the symbol sub-query failed: balance and decimals pass through.
    let partial = TokenFetch {
        balance: Some(U256::from_u64(9)),
        decimals: Some(8),
        symbol: None,
    };
    let result = reader.get_token_balance(addr(1), token, partial);
    assert_eq!(result.balance, U256::from_u64(9));
    assert_eq!(result.decimals, 8);
    assert_eq!(result.symbol, "UNKNOWN".to_owned());

    // Only the balance sub-query failed: the rest passes through.
    let partial = TokenFetch {
        balance: None,
        decimals: Some(12),
        symbol: Some("WBTC".to_owned()),
    };
    let result = reader.get_token_balance(addr(1), token, partial);
    assert_eq!(result.balance, U256::from_u64(0));
    assert_eq!(result.decimals, 12);
    assert_eq!(result.symbol, "WBTC".to_owned());
}

#[test]
fn batch_of_empty_list_is_empty() {
    let reader = PortfolioReader::new();
    let results = reader.get_user_portfolio(addr(1), Vec::new(), Vec::new());
    assert!(results.is_empty());
}

#[test]
fn batch_preserves_order_and_duplicates() {
    let reader = PortfolioReader::new();
    let token_a = addr(10);
    let token_b = addr(11);
    let tokens = vec![token_a, token_b, token_a];
    let fetches = vec![
        fetch_ok(5, 6, "AAA"),
        fetch_failed(),
        fetch_ok(7, 18, "AAA"),
    ];
    let results = reader.get_user_portfolio(addr(1), tokens, fetches);
    assert_eq!(results.len(), 3);
    assert_eq!(results[0].token, token_a);
    assert_eq!(results[1].token, token_b);
    assert_eq!(results[2].token, token_a);
    assert_eq!(results[0].balance, U256::from_u64(5));
    assert_eq!(results[1].balance, U256::from_u64(0));
    assert_eq!(results[2].balance, U256::from_u64(7));
}

#[test]
fn filter_keeps_exactly_positive_balances_in_order() {
    let reader = PortfolioReader::new();
    let tokens = vec![addr(20), addr(21), addr(22), addr(23)];
    let fetches = vec![
        fetch_ok(0, 6, "ZERO"),
        fetch_ok(3, 6, "THREE"),
        fetch_failed(),
        fetch_ok(8, 6, "EIGHT"),
    ];
    let results = reader.get_user_portfolio(addr(1), tokens, fetches);
    let kept = filter_non_zero(results);
    assert_eq!(kept.len(), 2);
    assert_eq!(kept[0].symbol, "THREE".to_owned());
    assert_eq!(kept[1].symbol, "EIGHT".to_owned());

    // Filtering a second time changes nothing.
    let again = filter_non_zero(kept);
    assert_eq!(again.len(), 2);
    assert_eq!(again[0].symbol, "THREE".to_owned());
    assert_eq!(again[1].symbol, "EIGHT".to_owned());
}

#[test]
fn non_zero_balances_are_filtered_batch() {
    let reader = PortfolioReader::new();
    let tokens = vec![addr(30), addr(31)];
    let fetches = vec![fetch_ok(0, 6, "ZERO"), fetch_ok(1, 6, "ONE")];
    let results = reader.get_non_zero_balances(addr(1), tokens, fetches);
    assert_eq!(results.len(), 1);
    assert_eq!(results[0].token, addr(31));
    assert_eq!(results[0].symbol, "ONE".to_owned());
}

#[test]
fn preset_query_equals_batch_over_preset_list() {
    let reader = PortfolioReader::new();
    let user = addr(1);
    let fetches = || {
        vec![fetch_ok(100, 18, "AI16Z"), fetch_failed(), fetch_ok(2, 18, "WETH")]
    };
    let preset = reader.get_portfolio_balances(user, fetches());
    let batch = reader.get_user_portfolio(user, preset_tokens(), fetches());
    assert_eq!(preset, batch);
}

#[test]
fn preset_list_holds_the_three_fixed_addresses() {
    let tokens = preset_tokens();
    assert_eq!(tokens.len(), 3);
    assert_eq!(
        tokens[0].bytes,
        [
            0x2d, 0x5a, 0x4f, 0x56, 0x34, 0x04, 0x1f, 0x50, 0x18, 0x0a, 0x25, 0xf2, 0x6b, 0x2a,
            0x83, 0x64, 0x45, 0x2e, 0x31, 0x52,
        ]
    );
    assert_eq!(
        tokens[1].bytes,
        [
            0x2c, 0xea, 0xf3, 0xdc, 0x8f, 0x19, 0xfe, 0x2a, 0xdd, 0xb5, 0x46, 0x12, 0x58, 0xa2,
            0xf6, 0xbf, 0x3a, 0xb3, 0x5a, 0x28,
        ]
    );
    assert_eq!(
        tokens[2].bytes,
        [
            0xe5, 0x91, 0xbf, 0x0a, 0x0c, 0xf9, 0x24, 0xa0, 0x67, 0x4d, 0x77, 0x92, 0xdb, 0x04,
            0x6b, 0x23, 0xce, 0xbf, 0x5f, 0x34,
        ]
    );
}

#[test]
fn version_is_always_one() {
    let reader = PortfolioReader::new();
    assert_eq!(reader.get_version(), U256::from_u64(1));
    assert_eq!(reader.get_version(), U256::from_u64(1));
}

#[test]
fn holdings_scenario_one_real_token_one_empty_address() {
    let reader = PortfolioReader::new();
    let user = addr(1);
    let token_a = addr(0xaa);
    let token_b = addr(0xbb);

    // Token A is a conforming six-decimal token holding one million units for
    // the user; token B is an address with no deployed code, so every
    // sub-query against it fails.
    let fetches = vec![fetch_ok(1_000_000, 6, "TOKA"), fetch_failed()];
    let results = reader.get_user_portfolio(user, vec![token_a, token_b], fetches);
    assert_eq!(
        results,
        vec![
            TokenQueryResult {
                token: token_a,
                balance: U256::from_u64(1_000_000),
                decimals: 6,
                symbol: "TOKA".to_owned(),
            },
            TokenQueryResult {
                token: token_b,
                balance: U256::from_u64(0),
                decimals: 18,
                symbol: "UNKNOWN".to_owned(),
            },
        ]
    );

    let kept = filter_non_zero(results);
    assert_eq!(kept.len(), 1);
    assert_eq!(kept[0].token, token_a);
    assert_eq!(kept[0].balance, U256::from_u64(1_000_000));
}

#[test]
fn u256_limb_arithmetic() {
    assert!(U256::zero().is_zero());
    assert!(U256::from_u64(0).is_zero());
    assert!(!U256::from_u64(1).is_zero());

    // A value living only in the most significant limb is still non-zero.
    let high = U256::from_limbs(0, 0, 0, 7);
    assert!(!high.is_zero());
    assert_ne!(high, U256::zero());
    assert_eq!(U256::from_limbs(9, 0, 0, 0), U256::from_u64(9));
}
