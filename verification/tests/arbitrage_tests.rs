use pair_arbitrage::arbitrage::ArbitrageDetector;
use pair_arbitrage::decimal::Amount;
use pair_arbitrage::models::{MarketData, TokenPrice};
use pair_arbitrage::monitor::MarketSnapshot;

fn amount(mantissa: i128, scale: u32) -> Amount {
    Amount::new(mantissa, scale).expect("a representable amount")
}

fn parts(a: Amount) -> (i128, u32) {
    (a.mantissa(), a.scale())
}

fn token(id: &str, ask: Option<Amount>) -> TokenPrice {
    TokenPrice { token_id: id.to_string(), bid: None, ask }
}

fn market(condition_id: &str, name: &str, up: Option<TokenPrice>, down: Option<TokenPrice>) -> MarketData {
    MarketData {
        condition_id: condition_id.to_string(),
        market_name: name.to_string(),
        up_token: up,
        down_token: down,
    }
}

fn snapshot(
    eth_up: Option<TokenPrice>,
    eth_down: Option<TokenPrice>,
    btc_up: Option<TokenPrice>,
    btc_down: Option<TokenPrice>,
) -> MarketSnapshot {
    MarketSnapshot {
        eth_market: market("eth-cond", "ETH", eth_up, eth_down),
        btc_market: market("btc-cond", "BTC", btc_up, btc_down),
        timestamp: 0,
    }
}

fn detector() -> ArbitrageDetector {
    ArbitrageDetector::new(Some(amount(1, 2)))
}

#[test]
fn new_defaults_to_one_cent() {
    assert_eq!(parts(ArbitrageDetector::new(None).min_profit_threshold()), (1, 2));
    assert_eq!(parts(ArbitrageDetector::new(Some(amount(5, 3))).min_profit_threshold()), (5, 3));
}

#[test]
fn profitable_pairing_is_emitted_once() {
    let found = detector().check_arbitrage(
        &token("eth-up", Some(amount(65, 2))),
        &token("btc-down", Some(amount(30, 2))),
        &"eth-cond".to_string(),
        &"btc-cond".to_string(),
    );
    let opportunity = found.expect("an opportunity");
    assert_eq!(parts(opportunity.eth_up_price), (65, 2));
    assert_eq!(parts(opportunity.btc_down_price), (30, 2));
    assert_eq!(parts(opportunity.total_cost), (95, 2));
    assert_eq!(parts(opportunity.expected_profit), (5, 2));
    assert_eq!(opportunity.eth_up_token_id, "eth-up");
    assert_eq!(opportunity.btc_down_token_id, "btc-down");
    assert_eq!(opportunity.eth_condition_id, "eth-cond");
    assert_eq!(opportunity.btc_condition_id, "btc-cond");
}

#[test]
fn profit_below_threshold_is_not_emitted() {
    let found = detector().check_arbitrage(
        &token("a", Some(amount(650, 3))),
        &token("b", Some(amount(345, 3))),
        &"c1".to_string(),
        &"c2".to_string(),
    );
    assert!(found.is_none());
}

#[test]
fn profit_equal_to_threshold_is_emitted() {
    let found = detector().check_arbitrage(
        &token("a", Some(amount(65, 2))),
        &token("b", Some(amount(34, 2))),
        &"c1".to_string(),
        &"c2".to_string(),
    );
    let opportunity = found.expect("an opportunity");
    assert_eq!(parts(opportunity.total_cost), (99, 2));
    assert_eq!(parts(opportunity.expected_profit), (1, 2));
}

#[test]
fn both_asks_below_floor_are_rejected() {
    let found = detector().check_arbitrage(
        &token("a", Some(amount(40, 2))),
        &token("b", Some(amount(50, 2))),
        &"c1".to_string(),
        &"c2".to_string(),
    );
    assert!(found.is_none());
    let cheap = detector().check_arbitrage(
        &token("a", Some(amount(1, 2))),
        &token("b", Some(amount(59, 2))),
        &"c1".to_string(),
        &"c2".to_string(),
    );
    assert!(cheap.is_none());
}

#[test]
fn one_ask_at_the_floor_passes_the_filter() {
    let found = detector().check_arbitrage(
        &token("a", Some(amount(6, 1))),
        &token("b", Some(amount(3, 1))),
        &"c1".to_string(),
        &"c2".to_string(),
    );
    let opportunity = found.expect("an opportunity");
    assert_eq!(parts(opportunity.total_cost), (9, 1));
    assert_eq!(parts(opportunity.expected_profit), (1, 1));
}

#[test]
fn cost_of_one_or_more_is_rejected() {
    let exact = detector().check_arbitrage(
        &token("a", Some(amount(7, 1))),
        &token("b", Some(amount(3, 1))),
        &"c1".to_string(),
        &"c2".to_string(),
    );
    assert!(exact.is_none());
    let above = detector().check_arbitrage(
        &token("a", Some(amount(7, 1))),
        &token("b", Some(amount(65, 2))),
        &"c1".to_string(),
        &"c2".to_string(),
    );
    assert!(above.is_none());
}

#[test]
fn missing_ask_skips_the_pairing() {
    let d = detector();
    let c1 = "c1".to_string();
    let c2 = "c2".to_string();
    assert!(d.check_arbitrage(&token("a", None), &token("b", Some(amount(3, 1))), &c1, &c2).is_none());
    assert!(d.check_arbitrage(&token("a", Some(amount(65, 2))), &token("b", None), &c1, &c2).is_none());
    assert!(d.check_arbitrage(&token("a", None), &token("b", None), &c1, &c2).is_none());
}

#[test]
fn overflowing_sum_is_rejected() {
    let huge = amount(pair_arbitrage::decimal::MAX_MANTISSA, 0);
    let found = detector().check_arbitrage(
        &token("a", Some(huge)),
        &token("b", Some(huge)),
        &"c1".to_string(),
        &"c2".to_string(),
    );
    assert!(found.is_none());
}

#[test]
fn accept_cost_judges_a_given_sum() {
    let high = amount(65, 2);
    let low = amount(30, 2);
    assert_eq!(ArbitrageDetector::accept_cost(high, low, Some(amount(95, 2))).map(parts), Some((95, 2)));
    assert!(ArbitrageDetector::accept_cost(high, low, Some(amount(10, 1))).is_none());
    assert!(ArbitrageDetector::accept_cost(high, low, None).is_none());
    assert!(ArbitrageDetector::accept_cost(low, low, Some(amount(60, 2))).is_none());
}

#[test]
fn accept_profit_judges_a_given_difference() {
    let d = detector();
    assert_eq!(d.accept_profit(Some(amount(5, 2))).map(parts), Some((5, 2)));
    assert_eq!(d.accept_profit(Some(amount(10, 3))).map(parts), Some((10, 3)));
    assert!(d.accept_profit(Some(amount(9, 3))).is_none());
    assert!(d.accept_profit(None).is_none());
}

#[test]
fn detect_reports_both_pairings_in_order() {
    let s = snapshot(
        Some(token("eth-up", Some(amount(65, 2)))),
        Some(token("eth-down", Some(amount(20, 2)))),
        Some(token("btc-up", Some(amount(70, 2)))),
        Some(token("btc-down", Some(amount(30, 2)))),
    );
    let found = detector().detect_opportunities(&s);
    assert_eq!(found.len(), 2);
    assert_eq!(found[0].eth_up_token_id, "eth-up");
    assert_eq!(found[0].btc_down_token_id, "btc-down");
    assert_eq!(parts(found[0].total_cost), (95, 2));
    assert_eq!(found[1].eth_up_token_id, "eth-down");
    assert_eq!(found[1].btc_down_token_id, "btc-up");
    assert_eq!(parts(found[1].total_cost), (90, 2));
    assert_eq!(parts(found[1].expected_profit), (10, 2));
    assert_eq!(found[1].eth_condition_id, "eth-cond");
    assert_eq!(found[1].btc_condition_id, "btc-cond");
}

#[test]
fn detect_reports_only_the_second_pairing() {
    let s = snapshot(
        Some(token("eth-up", Some(amount(65, 2)))),
        Some(token("eth-down", Some(amount(20, 2)))),
        Some(token("btc-up", Some(amount(70, 2)))),
        Some(token("btc-down", Some(amount(40, 2)))),
    );
    let found = detector().detect_opportunities(&s);
    assert_eq!(found.len(), 1);
    assert_eq!(found[0].eth_up_token_id, "eth-down");
}

#[test]
fn detect_skips_missing_legs() {
    let s = snapshot(
        None,
        Some(token("eth-down", Some(amount(20, 2)))),
        Some(token("btc-up", None)),
        Some(token("btc-down", Some(amount(30, 2)))),
    );
    assert!(detector().detect_opportunities(&s).is_empty());
    let empty = snapshot(None, None, None, None);
    assert!(detector().detect_opportunities(&empty).is_empty());
}

#[test]
fn ask_price_is_the_quoted_ask() {
    assert_eq!(token("a", Some(amount(65, 2))).ask_price().map(parts), Some((65, 2)));
    assert!(token("a", None).ask_price().is_none());
}
