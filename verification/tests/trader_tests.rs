use pair_arbitrage::decimal::{Amount, MAX_MANTISSA};
use pair_arbitrage::models::{
    ArbitrageOpportunity, MarketDetails, OrderSide, PendingTrade, Token, TradingConfig,
};
use pair_arbitrage::trader::{
    read_market_result, token_is_winner, unit_payout, TradeError, Trader, CACHE_TTL_MS, MIN_SETTLE_AGE_MS,
};

fn amount(mantissa: i128, scale: u32) -> Amount {
    Amount::new(mantissa, scale).expect("a representable amount")
}

fn parts(a: Amount) -> (i128, u32) {
    (a.mantissa(), a.scale())
}

fn config(max_position_size: Amount) -> TradingConfig {
    TradingConfig { min_profit_threshold: amount(1, 2), max_position_size }
}

fn trader(max: i128, simulation: bool) -> Trader {
    Trader::new(config(amount(max, 0)), simulation)
}

fn opportunity(eth_cond: &str, btc_cond: &str, ask1: Amount, ask2: Amount) -> ArbitrageOpportunity {
    let total_cost = ask1.checked_add(ask2).expect("a sum");
    let expected_profit = amount(10, 1).checked_sub(total_cost).expect("a difference");
    ArbitrageOpportunity {
        eth_up_price: ask1,
        btc_down_price: ask2,
        total_cost,
        expected_profit,
        eth_up_token_id: format!("{}-up", eth_cond),
        btc_down_token_id: format!("{}-down", btc_cond),
        eth_condition_id: eth_cond.to_string(),
        btc_condition_id: btc_cond.to_string(),
    }
}

fn position(units: Amount, investment: Amount, timestamp: u64) -> PendingTrade {
    PendingTrade {
        eth_token_id: "eth-up".to_string(),
        btc_token_id: "btc-down".to_string(),
        eth_condition_id: "eth".to_string(),
        btc_condition_id: "btc".to_string(),
        investment_amount: investment,
        units,
        timestamp,
    }
}

fn resolved(closed: bool, winner_id: &str, loser_id: &str) -> MarketDetails {
    MarketDetails {
        tokens: vec![
            Token { token_id: loser_id.to_string(), outcome: "x".to_string(), winner: false },
            Token { token_id: winner_id.to_string(), outcome: "y".to_string(), winner: true },
        ],
        closed,
    }
}

fn key(s: &str) -> String {
    s.to_string()
}

#[test]
fn new_tracker_is_empty() {
    let t = trader(100, true);
    let (total, trades) = t.get_stats();
    assert_eq!(parts(total), (0, 0));
    assert_eq!(trades, 0);
    assert_eq!(t.pending_count(), 0);
    assert!(t.is_simulation());
    assert!(t.markets_to_query(u64::MAX).is_empty());
    assert!(!trader(100, false).is_simulation());
}

#[test]
fn profit_one_winner() {
    let t = trader(100, true);
    let trade = position(amount(100, 0), amount(75, 0), 0);
    assert_eq!(parts(t.calculate_actual_profit(&trade, true, false)), (25, 0));
    assert_eq!(parts(t.calculate_actual_profit(&trade, false, true)), (25, 0));
}

#[test]
fn profit_both_winners() {
    let t = trader(100, true);
    let trade = position(amount(100, 0), amount(75, 0), 0);
    assert_eq!(parts(t.calculate_actual_profit(&trade, true, true)), (125, 0));
}

#[test]
fn profit_no_winner() {
    let t = trader(100, true);
    let trade = position(amount(100, 0), amount(75, 0), 0);
    assert_eq!(parts(t.calculate_actual_profit(&trade, false, false)), (-75, 0));
}

#[test]
fn profit_of_fractional_units() {
    let t = trader(100, true);
    let trade = position(amount(13333, 2), amount(100, 0), 0);
    assert_eq!(parts(t.calculate_actual_profit(&trade, true, false)), (3333, 2));
    assert_eq!(parts(t.calculate_actual_profit(&trade, true, true)), (16666, 2));
}

#[test]
fn unit_payout_counts_the_winners() {
    assert_eq!(parts(unit_payout(true, true)), (2, 0));
    assert_eq!(parts(unit_payout(true, false)), (1, 0));
    assert_eq!(parts(unit_payout(false, true)), (1, 0));
    assert_eq!(parts(unit_payout(false, false)), (0, 0));
}

#[test]
fn position_size_is_the_maximum_for_an_exact_multiple() {
    let t = trader(100, true);
    let o = opportunity("eth", "btc", amount(3, 1), amount(2, 1));
    let size = t.calculate_position_size(&o).expect("a size");
    assert!(size.has_same_value(&amount(100, 0)));
    let sizing = t.size_position(&o).expect("a sizing");
    assert!(sizing.position_size.has_same_value(&amount(100, 0)));
    assert!(sizing.units.has_same_value(&amount(200, 0)));
}

#[test]
fn position_size_never_exceeds_the_maximum() {
    let max = amount(100, 0);
    let t = trader(100, true);
    for cost in [amount(75, 2), amount(3, 1), amount(97, 2), amount(1, 3), amount(999, 3), amount(7, 0)] {
        let o = ArbitrageOpportunity { total_cost: cost, ..opportunity("e", "b", amount(6, 1), amount(1, 1)) };
        let size = t.calculate_position_size(&o).expect("a size");
        assert!(!max.is_less_than(&size));
        assert!(amount(9999, 2).is_less_than(&size));
        let again = t.calculate_position_size(&o).expect("a size");
        assert_eq!(parts(again), parts(size));
    }
}

#[test]
fn units_for_three_quarters() {
    let t = trader(100, true);
    let o = opportunity("eth", "btc", amount(65, 2), amount(10, 2));
    let sizing = t.size_position(&o).expect("a sizing");
    assert!(sizing.position_size.has_same_value(&amount(100, 0)));
    assert!(amount(1333333, 4).is_less_than(&sizing.units));
    assert!(sizing.units.is_less_than(&amount(1333334, 4)));
}

#[test]
fn zero_cost_cannot_be_sized() {
    let mut t = trader(100, true);
    let o = ArbitrageOpportunity { total_cost: amount(0, 2), ..opportunity("e", "b", amount(6, 1), amount(1, 1)) };
    assert!(t.calculate_position_size(&o).is_none());
    assert_eq!(t.size_position(&o).err(), Some(TradeError::ZeroCost));
    assert_eq!(t.execute_arbitrage(&o, 0).err(), Some(TradeError::ZeroCost));
    assert_eq!(t.pending_count(), 0);
    assert_eq!(t.get_stats().1, 0);
}

#[test]
fn unrepresentable_units_cannot_be_sized() {
    let mut t = Trader::new(config(amount(MAX_MANTISSA, 0)), false);
    let o = ArbitrageOpportunity { total_cost: amount(1, 28), ..opportunity("e", "b", amount(6, 1), amount(1, 1)) };
    assert_eq!(t.size_position(&o).err(), Some(TradeError::Overflow));
    assert_eq!(t.execute_arbitrage(&o, 0).err(), Some(TradeError::Overflow));
    assert_eq!(t.simulate_trade(&o, 0).err(), Some(TradeError::Overflow));
    assert_eq!(t.execute_real_trade(&o, 0).err(), Some(TradeError::Overflow));
    assert_eq!(t.pending_count(), 0);
    assert_eq!(t.get_stats().1, 0);
}

#[test]
fn simulation_records_without_orders() {
    let mut t = trader(100, true);
    let o = opportunity("eth", "btc", amount(3, 1), amount(2, 1));
    let receipt = t.execute_arbitrage(&o, 1_000).expect("a receipt");
    assert!(receipt.orders.is_empty());
    assert!(receipt.position_size.has_same_value(&amount(100, 0)));
    assert!(receipt.units.has_same_value(&amount(200, 0)));
    assert_eq!(t.pending_count(), 1);
    assert_eq!(t.get_stats().1, 1);
    let held = t.pending_trade(&key("eth"), &key("btc")).expect("a position");
    assert_eq!(held.eth_token_id, "eth-up");
    assert_eq!(held.btc_token_id, "btc-down");
    assert_eq!(held.eth_condition_id, "eth");
    assert_eq!(held.btc_condition_id, "btc");
    assert_eq!(held.timestamp, 1_000);
    assert_eq!(parts(held.units), parts(receipt.units));
    assert_eq!(parts(held.investment_amount), parts(receipt.position_size));
    assert!(t.pending_trade(&key("btc"), &key("eth")).is_none());
}

#[test]
fn live_mode_hands_back_two_buy_orders() {
    let mut t = trader(100, false);
    let o = opportunity("eth", "btc", amount(65, 2), amount(30, 2));
    let receipt = t.execute_arbitrage(&o, 0).expect("a receipt");
    assert_eq!(receipt.orders.len(), 2);
    assert_eq!(receipt.orders[0].token_id, "eth-up");
    assert_eq!(receipt.orders[0].side, OrderSide::Buy);
    assert_eq!(parts(receipt.orders[0].price), (65, 2));
    assert_eq!(parts(receipt.orders[0].size), parts(receipt.position_size));
    assert_eq!(receipt.orders[1].token_id, "btc-down");
    assert_eq!(receipt.orders[1].side, OrderSide::Buy);
    assert_eq!(parts(receipt.orders[1].price), (30, 2));
    assert_eq!(parts(receipt.orders[1].size), parts(receipt.position_size));
    assert_eq!(t.pending_count(), 1);
}

#[test]
fn simulate_and_real_trade_differ_only_in_orders() {
    let o = opportunity("eth", "btc", amount(65, 2), amount(30, 2));
    let mut a = trader(100, false);
    let mut b = trader(100, true);
    let simulated = a.simulate_trade(&o, 7).expect("a receipt");
    let real = b.execute_real_trade(&o, 7).expect("a receipt");
    assert!(simulated.orders.is_empty());
    assert_eq!(real.orders.len(), 2);
    assert_eq!(parts(simulated.units), parts(real.units));
    assert_eq!(parts(simulated.position_size), parts(real.position_size));
    assert_eq!(a.pending_count(), 1);
    assert_eq!(b.pending_count(), 1);
}

#[test]
fn two_opportunities_on_one_pair_accumulate() {
    let mut t = trader(100, true);
    let first = opportunity("eth", "btc", amount(3, 1), amount(2, 1));
    let second = opportunity("eth", "btc", amount(15, 2), amount(10, 2));
    let one = t.execute_arbitrage(&first, 1_000).expect("a receipt");
    let two = t.execute_arbitrage(&second, 2_000).expect("a receipt");
    assert!(one.units.has_same_value(&amount(200, 0)));
    assert!(two.units.has_same_value(&amount(400, 0)));
    assert_eq!(t.pending_count(), 1);
    assert_eq!(t.get_stats().1, 2);
    let held = t.pending_trade(&key("eth"), &key("btc")).expect("a position");
    assert!(held.units.has_same_value(&amount(600, 0)));
    assert!(held.investment_amount.has_same_value(&amount(200, 0)));
    assert_eq!(parts(held.units), parts(one.units.saturating_add(two.units)));
    assert_eq!(parts(held.investment_amount), parts(one.position_size.saturating_add(two.position_size)));
    assert_eq!(held.timestamp, 1_000);
    assert_eq!(held.eth_token_id, "eth-up");
}

#[test]
fn other_pairs_get_their_own_position() {
    let mut t = trader(100, true);
    t.execute_arbitrage(&opportunity("eth", "btc", amount(3, 1), amount(2, 1)), 0).expect("a receipt");
    t.execute_arbitrage(&opportunity("eth", "btc2", amount(3, 1), amount(2, 1)), 5).expect("a receipt");
    t.execute_arbitrage(&opportunity("eth_", "btc", amount(3, 1), amount(2, 1)), 9).expect("a receipt");
    assert_eq!(t.pending_count(), 3);
    assert_eq!(t.pending_trade(&key("eth"), &key("btc2")).expect("a position").timestamp, 5);
    assert_eq!(t.pending_trade(&key("eth_"), &key("btc")).expect("a position").timestamp, 9);
    assert_eq!(t.pending_trade(&key("eth"), &key("btc")).expect("a position").timestamp, 0);
}

#[test]
fn winner_is_read_from_the_first_matching_token() {
    let tokens = vec![
        Token { token_id: "a".to_string(), outcome: "Up".to_string(), winner: false },
        Token { token_id: "b".to_string(), outcome: "Down".to_string(), winner: true },
        Token { token_id: "a".to_string(), outcome: "Up".to_string(), winner: true },
    ];
    assert!(!token_is_winner(&tokens, &key("a")));
    assert!(token_is_winner(&tokens, &key("b")));
    assert!(!token_is_winner(&tokens, &key("c")));
    assert!(!token_is_winner(&Vec::new(), &key("a")));
}

#[test]
fn open_market_reports_no_winner() {
    let open = resolved(false, "w", "l");
    assert_eq!(read_market_result(&open, &key("w")), (false, false));
    let closed = resolved(true, "w", "l");
    assert_eq!(read_market_result(&closed, &key("w")), (true, true));
    assert_eq!(read_market_result(&closed, &key("l")), (true, false));
    assert_eq!(read_market_result(&closed, &key("unknown")), (true, false));
}

#[test]
fn cache_answers_for_a_minute() {
    let mut t = trader(100, true);
    assert!(t.check_market_result_cached(&key("eth"), &key("w"), 0).is_none());
    assert!(!t.has_fresh_entry(&key("eth"), 0));
    t.store_market_result(key("eth"), resolved(true, "w", "l"), 10_000);
    assert_eq!(t.check_market_result_cached(&key("eth"), &key("w"), 10_000), Some((true, true)));
    assert_eq!(t.check_market_result_cached(&key("eth"), &key("l"), 10_000 + CACHE_TTL_MS - 1), Some((true, false)));
    assert_eq!(t.check_market_result_cached(&key("eth"), &key("w"), 0), Some((true, true)));
    assert!(t.has_fresh_entry(&key("eth"), 10_000 + CACHE_TTL_MS - 1));
    assert!(t.check_market_result_cached(&key("eth"), &key("w"), 10_000 + CACHE_TTL_MS).is_none());
    assert!(!t.has_fresh_entry(&key("eth"), 10_000 + CACHE_TTL_MS));
    assert!(t.check_market_result_cached(&key("btc"), &key("w"), 10_000).is_none());
}

#[test]
fn storing_again_replaces_the_entry() {
    let mut t = trader(100, true);
    t.store_market_result(key("eth"), resolved(false, "w", "l"), 0);
    assert_eq!(t.check_market_result_cached(&key("eth"), &key("w"), 1), Some((false, false)));
    t.store_market_result(key("eth"), resolved(true, "w", "l"), 70_000);
    assert_eq!(t.check_market_result_cached(&key("eth"), &key("w"), 70_001), Some((true, true)));
    assert_eq!(t.check_market_result_cached(&key("eth"), &key("w"), 129_999), Some((true, true)));
    assert!(t.check_market_result_cached(&key("eth"), &key("w"), 130_000).is_none());
}

#[test]
fn young_position_is_not_swept_even_if_markets_closed() {
    let mut t = trader(100, false);
    t.execute_arbitrage(&opportunity("eth", "btc", amount(3, 1), amount(2, 1)), 1_000).expect("a receipt");
    let now = 1_000 + MIN_SETTLE_AGE_MS - 1;
    assert!(t.markets_to_query(now).is_empty());
    t.store_market_result(key("eth"), resolved(true, "eth-up", "eth-down"), now);
    t.store_market_result(key("btc"), resolved(true, "btc-down", "btc-up"), now);
    let orders = t.check_pending_trades(now);
    assert!(orders.is_empty());
    assert_eq!(t.pending_count(), 1);
    assert_eq!(parts(t.get_stats().0), (0, 0));
}

#[test]
fn due_position_asks_for_its_markets_once() {
    let mut t = trader(100, true);
    t.execute_arbitrage(&opportunity("eth", "btc", amount(3, 1), amount(2, 1)), 0).expect("a receipt");
    t.execute_arbitrage(&opportunity("eth", "btc2", amount(3, 1), amount(2, 1)), 0).expect("a receipt");
    t.execute_arbitrage(&opportunity("eth3", "btc3", amount(3, 1), amount(2, 1)), 500_000).expect("a receipt");
    let now = MIN_SETTLE_AGE_MS;
    assert_eq!(t.markets_to_query(now), vec![key("eth"), key("btc"), key("btc2")]);
    t.store_market_result(key("btc"), resolved(false, "a", "b"), now);
    assert_eq!(t.markets_to_query(now + 1), vec![key("eth"), key("btc2")]);
    assert_eq!(t.markets_to_query(now + CACHE_TTL_MS), vec![key("eth"), key("btc"), key("btc2")]);
    assert!(t.markets_to_query(now - 1).is_empty());
}

#[test]
fn sweep_settles_a_resolved_position() {
    let mut t = trader(100, false);
    let receipt =
        t.execute_arbitrage(&opportunity("eth", "btc", amount(3, 1), amount(2, 1)), 0).expect("a receipt");
    let now = MIN_SETTLE_AGE_MS;
    t.store_market_result(key("eth"), resolved(true, "eth-up", "eth-down"), now);
    t.store_market_result(key("btc"), resolved(true, "btc-up", "btc-down"), now);
    let orders = t.check_pending_trades(now);
    assert_eq!(orders.len(), 1);
    assert_eq!(orders[0].token_id, "eth-up");
    assert_eq!(orders[0].side, OrderSide::Sell);
    assert_eq!(parts(orders[0].price), (10, 1));
    assert_eq!(parts(orders[0].size), parts(receipt.units));
    assert_eq!(t.pending_count(), 0);
    let (total, trades) = t.get_stats();
    assert!(total.has_same_value(&amount(100, 0)));
    assert_eq!(trades, 1);
    assert!(t.check_pending_trades(now).is_empty());
    assert!(t.get_stats().0.has_same_value(&amount(100, 0)));
}

#[test]
fn sweep_in_simulation_places_no_order() {
    let mut t = trader(100, true);
    t.execute_arbitrage(&opportunity("eth", "btc", amount(3, 1), amount(2, 1)), 0).expect("a receipt");
    let now = MIN_SETTLE_AGE_MS + 5;
    t.store_market_result(key("eth"), resolved(true, "eth-up", "eth-down"), now);
    t.store_market_result(key("btc"), resolved(true, "btc-down", "btc-up"), now);
    let orders = t.check_pending_trades(now);
    assert!(orders.is_empty());
    assert_eq!(t.pending_count(), 0);
    assert!(t.get_stats().0.has_same_value(&amount(300, 0)));
}

#[test]
fn sweep_keeps_positions_that_are_not_both_closed() {
    let mut t = trader(100, false);
    t.execute_arbitrage(&opportunity("eth", "btc", amount(3, 1), amount(2, 1)), 0).expect("a receipt");
    t.execute_arbitrage(&opportunity("eth2", "btc2", amount(3, 1), amount(2, 1)), 0).expect("a receipt");
    t.execute_arbitrage(&opportunity("eth3", "btc3", amount(3, 1), amount(2, 1)), 0).expect("a receipt");
    let now = MIN_SETTLE_AGE_MS;
    t.store_market_result(key("eth"), resolved(true, "eth-up", "eth-down"), now);
    t.store_market_result(key("btc"), resolved(false, "btc-down", "btc-up"), now);
    t.store_market_result(key("eth2"), resolved(true, "eth2-down", "eth2-up"), now);
    t.store_market_result(key("btc2"), resolved(true, "btc2-up", "btc2-down"), now);
    t.store_market_result(key("eth3"), resolved(true, "eth3-up", "eth3-down"), now);
    let orders = t.check_pending_trades(now);
    assert!(orders.is_empty());
    assert_eq!(t.pending_count(), 2);
    assert!(t.pending_trade(&key("eth"), &key("btc")).is_some());
    assert!(t.pending_trade(&key("eth2"), &key("btc2")).is_none());
    assert!(t.pending_trade(&key("eth3"), &key("btc3")).is_some());
    assert!(t.get_stats().0.has_same_value(&amount(-100, 0)));
}

#[test]
fn sweep_ignores_a_stale_cache_entry() {
    let mut t = trader(100, false);
    t.execute_arbitrage(&opportunity("eth", "btc", amount(3, 1), amount(2, 1)), 0).expect("a receipt");
    let now = MIN_SETTLE_AGE_MS;
    t.store_market_result(key("eth"), resolved(true, "eth-up", "eth-down"), now);
    t.store_market_result(key("btc"), resolved(true, "btc-down", "btc-up"), now);
    let later = now + CACHE_TTL_MS;
    assert!(t.check_pending_trades(later).is_empty());
    assert_eq!(t.pending_count(), 1);
    assert_eq!(t.markets_to_query(later), vec![key("eth"), key("btc")]);
    let orders = t.check_pending_trades(later - 1);
    assert_eq!(orders.len(), 2);
    assert_eq!(orders[0].token_id, "eth-up");
    assert_eq!(orders[1].token_id, "btc-down");
    assert_eq!(t.pending_count(), 0);
    assert!(t.get_stats().0.has_same_value(&amount(300, 0)));
}

#[test]
fn sell_orders_name_the_winning_legs() {
    let t = trader(100, false);
    let trade = position(amount(13333, 2), amount(100, 0), 0);
    let both = t.sell_winning_tokens(&trade, true, true);
    assert_eq!(both.len(), 2);
    assert_eq!(both[0].token_id, "eth-up");
    assert_eq!(both[1].token_id, "btc-down");
    assert_eq!(parts(both[0].size), (13333, 2));
    assert_eq!(parts(both[1].price), (10, 1));
    assert_eq!(both[1].side, OrderSide::Sell);
    let second = t.sell_winning_tokens(&trade, false, true);
    assert_eq!(second.len(), 1);
    assert_eq!(second[0].token_id, "btc-down");
    assert!(t.sell_winning_tokens(&trade, false, false).is_empty());
}
