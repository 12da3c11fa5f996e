//! The trade tracker: it sizes and records positions, decides which markets
//! must be asked for their result, and settles positions whose two markets
//! have both closed.
//!
//! The tracker places no order and queries no market. It hands its caller
//! the orders to place and the markets to query, and takes the answers in.

use crate::clock::{elapsed, elapsed_ms};
use crate::decimal::{
    decimal_checked_quotient, decimal_saturating_difference, decimal_saturating_product,
    decimal_saturating_sum, Amount,
};
use crate::models::{
    ArbitrageOpportunity, CachedMarketData, MarketDetails, OrderRequest, OrderSide, PendingTrade, Token,
    TradingConfig,
};
use vstd::prelude::*;

verus! {

/// How long a market's cached metadata answers lookups, in milliseconds.
pub const CACHE_TTL_MS: u64 = 60_000;

/// The age from which a position is checked for resolution, in
/// milliseconds: markets close after fifteen minutes, so a position younger
/// than fourteen cannot have resolved.
pub const MIN_SETTLE_AGE_MS: u64 = 840_000;

/// Why an opportunity could not be turned into a position.
#[derive(Clone, Copy, Debug, PartialEq, Eq, Structural)]
pub enum TradeError {
    /// The opportunity costs nothing, so no number of units can be bought.
    ZeroCost,
    /// The number of units does not fit in an amount.
    Overflow,
}

/// The size of one position: what is invested, and how many unit pairs that buys.
#[derive(Clone, Copy, Debug)]
pub struct Sizing {
    pub position_size: Amount,
    pub units: Amount,
}

/// The amount invested in an opportunity that costs `cost` a unit: as many
/// units as `max` buys, priced at `cost`, and never more than `max`.
pub open spec fn position_size_for(max: Amount, cost: Amount) -> Option<Amount> {
    match decimal_checked_quotient(max, cost) {
        Some(units) => Some(decimal_saturating_product(units, cost).min_spec(max)),
        None => None,
    }
}

/// The investment and the number of units for an opportunity that costs
/// `cost` a unit.
pub open spec fn sizing_for(max: Amount, cost: Amount) -> Option<Sizing> {
    match position_size_for(max, cost) {
        Some(position_size) => match decimal_checked_quotient(position_size, cost) {
            Some(units) => Some(Sizing { position_size, units }),
            None => None,
        },
        None => None,
    }
}

/// Why no position can be sized at `cost`, if none can.
pub open spec fn sizing_error(max: Amount, cost: Amount) -> Option<TradeError> {
    if cost.units() == 0 {
        Some(TradeError::ZeroCost)
    } else if sizing_for(max, cost) is None {
        Some(TradeError::Overflow)
    } else {
        None
    }
}

/// What one unit pair pays once both markets have resolved: one for each
/// winning leg.
pub open spec fn payout_per_unit(eth_winner: bool, btc_winner: bool) -> Amount {
    if eth_winner && btc_winner {
        Amount::of(2, 0)
    } else if eth_winner || btc_winner {
        Amount::of(1, 0)
    } else {
        Amount::of(0, 0)
    }
}

/// The realized profit of a position: what its units pay, less what was invested.
pub open spec fn actual_profit(trade: PendingTrade, eth_winner: bool, btc_winner: bool) -> Amount {
    decimal_saturating_difference(
        decimal_saturating_product(payout_per_unit(eth_winner, btc_winner), trade.units),
        trade.investment_amount,
    )
}

/// The limit order that buys `size` worth of a token at `price`.
pub open spec fn buy_order(token_id: String, size: Amount, price: Amount) -> OrderRequest {
    OrderRequest { token_id, side: OrderSide::Buy, size, price }
}

/// The limit order that sells `units` of a resolved winning token at 1.0.
pub open spec fn sell_order(token_id: String, units: Amount) -> OrderRequest {
    OrderRequest { token_id, side: OrderSide::Sell, size: units, price: Amount::of(10, 1) }
}

/// The two buy orders of an opportunity, each for the whole position size.
pub open spec fn opening_orders(opportunity: ArbitrageOpportunity, position_size: Amount) -> Seq<
    OrderRequest,
> {
    seq![
        buy_order(opportunity.eth_up_token_id, position_size, opportunity.eth_up_price),
        buy_order(opportunity.btc_down_token_id, position_size, opportunity.btc_down_price),
    ]
}

/// The sell orders for the winning legs of a resolved position.
pub open spec fn winning_sells(trade: PendingTrade, eth_winner: bool, btc_winner: bool) -> Seq<
    OrderRequest,
> {
    (if eth_winner {
        seq![sell_order(trade.eth_token_id, trade.units)]
    } else {
        Seq::empty()
    }) + (if btc_winner {
        seq![sell_order(trade.btc_token_id, trade.units)]
    } else {
        Seq::empty()
    })
}

/// Whether the position is held on this pair of markets.
pub open spec fn same_pair(trade: PendingTrade, eth_condition_id: Seq<char>, btc_condition_id: Seq<char>) -> bool {
    trade.eth_condition_id@ == eth_condition_id && trade.btc_condition_id@ == btc_condition_id
}

/// No two positions are held on the same pair of markets.
pub open spec fn distinct_pairs(pending: Seq<PendingTrade>) -> bool {
    forall|i: int, j: int|
        0 <= i < j < pending.len() ==> !same_pair(
            #[trigger] pending[i],
            (#[trigger] pending[j]).eth_condition_id@,
            pending[j].btc_condition_id@,
        )
}

/// Where the position on this pair of markets stands, if one is held.
pub open spec fn pending_index(
    pending: Seq<PendingTrade>,
    eth_condition_id: Seq<char>,
    btc_condition_id: Seq<char>,
) -> Option<int> {
    if exists|i: int| 0 <= i < pending.len() && same_pair(#[trigger] pending[i], eth_condition_id, btc_condition_id) {
        Some(
            choose|i: int|
                0 <= i < pending.len() && same_pair(#[trigger] pending[i], eth_condition_id, btc_condition_id),
        )
    } else {
        None
    }
}

/// The position that an opportunity opens.
pub open spec fn opened(opportunity: ArbitrageOpportunity, sizing: Sizing, now_ms: u64) -> PendingTrade {
    PendingTrade {
        eth_token_id: opportunity.eth_up_token_id,
        btc_token_id: opportunity.btc_down_token_id,
        eth_condition_id: opportunity.eth_condition_id,
        btc_condition_id: opportunity.btc_condition_id,
        investment_amount: sizing.position_size,
        units: sizing.units,
        timestamp: now_ms,
    }
}

/// A position after one more opportunity on its pair of markets: units and
/// investment add up, everything else stays.
pub open spec fn accumulated(trade: PendingTrade, sizing: Sizing) -> PendingTrade {
    PendingTrade {
        units: decimal_saturating_sum(trade.units, sizing.units),
        investment_amount: decimal_saturating_sum(trade.investment_amount, sizing.position_size),
        ..trade
    }
}

/// The positions after an opportunity was recorded.
pub open spec fn recorded(
    pending: Seq<PendingTrade>,
    opportunity: ArbitrageOpportunity,
    sizing: Sizing,
    now_ms: u64,
) -> Seq<PendingTrade> {
    match pending_index(pending, opportunity.eth_condition_id@, opportunity.btc_condition_id@) {
        Some(i) => pending.update(i, accumulated(pending[i], sizing)),
        None => pending.push(opened(opportunity, sizing, now_ms)),
    }
}

/// One more than `count`, as far as the counter goes.
pub open spec fn counted(count: u64) -> u64 {
    if count < u64::MAX {
        (count + 1) as u64
    } else {
        count
    }
}

/// Whether `tokens[at]` is the first token with this identifier.
pub open spec fn first_with_id(tokens: Seq<Token>, token_id: Seq<char>, at: int) -> bool {
    &&& 0 <= at < tokens.len()
    &&& tokens[at].token_id@ == token_id
    &&& forall|j: int| 0 <= j < at ==> (#[trigger] tokens[j]).token_id@ != token_id
}

/// Whether the first token with this identifier is flagged as the winner;
/// false where the market has no such token.
pub open spec fn token_wins(tokens: Seq<Token>, token_id: Seq<char>) -> bool {
    exists|at: int| first_with_id(tokens, token_id, at) && tokens[at].winner
}

/// What a market's metadata says of one of its tokens: whether the market
/// has closed and, if so, whether the token won.
pub open spec fn market_result(market: MarketDetails, token_id: Seq<char>) -> (bool, bool) {
    if market.closed {
        (true, token_wins(market.tokens@, token_id))
    } else {
        (false, false)
    }
}

/// No market is cached twice.
pub open spec fn distinct_markets(cache: Seq<CachedMarketData>) -> bool {
    forall|i: int, j: int|
        0 <= i < j < cache.len() ==> (#[trigger] cache[i]).condition_id@ != (
        #[trigger] cache[j]).condition_id@
}

/// Where the market's entry stands in the cache, if it has one.
pub open spec fn cache_index(cache: Seq<CachedMarketData>, condition_id: Seq<char>) -> Option<int> {
    if exists|i: int| 0 <= i < cache.len() && (#[trigger] cache[i]).condition_id@ == condition_id {
        Some(choose|i: int| 0 <= i < cache.len() && (#[trigger] cache[i]).condition_id@ == condition_id)
    } else {
        None
    }
}

/// The market's cached entry, if it has one that is younger than a minute.
pub open spec fn fresh_entry(cache: Seq<CachedMarketData>, condition_id: Seq<char>, now_ms: u64) -> Option<
    CachedMarketData,
> {
    match cache_index(cache, condition_id) {
        Some(i) if elapsed(cache[i].cached_at, now_ms) < CACHE_TTL_MS => Some(cache[i]),
        _ => None,
    }
}

/// What the cache answers for a token of a market; `None` where the market
/// has to be queried.
pub open spec fn cached_result(
    cache: Seq<CachedMarketData>,
    condition_id: Seq<char>,
    token_id: Seq<char>,
    now_ms: u64,
) -> Option<(bool, bool)> {
    match fresh_entry(cache, condition_id, now_ms) {
        Some(entry) => Some(market_result(entry.market, token_id)),
        None => None,
    }
}

/// The cache after a market's metadata was stored: it replaces the entry
/// that the market had, or is added.
pub open spec fn stored(cache: Seq<CachedMarketData>, entry: CachedMarketData) -> Seq<CachedMarketData> {
    match cache_index(cache, entry.condition_id@) {
        Some(i) => cache.update(i, entry),
        None => cache.push(entry),
    }
}

/// Whether a position is old enough to be checked for resolution.
pub open spec fn is_due(trade: PendingTrade, now_ms: u64) -> bool {
    elapsed(trade.timestamp, now_ms) >= MIN_SETTLE_AGE_MS
}

/// What is known of one leg: the cache's answer, and "open" where the cache
/// has none.
pub open spec fn leg_result(
    cache: Seq<CachedMarketData>,
    condition_id: Seq<char>,
    token_id: Seq<char>,
    now_ms: u64,
) -> (bool, bool) {
    match cached_result(cache, condition_id, token_id, now_ms) {
        Some(result) => result,
        None => (false, false),
    }
}

/// What is known of a position's first leg.
pub open spec fn eth_result(trade: PendingTrade, cache: Seq<CachedMarketData>, now_ms: u64) -> (bool, bool) {
    leg_result(cache, trade.eth_condition_id@, trade.eth_token_id@, now_ms)
}

/// What is known of a position's second leg.
pub open spec fn btc_result(trade: PendingTrade, cache: Seq<CachedMarketData>, now_ms: u64) -> (bool, bool) {
    leg_result(cache, trade.btc_condition_id@, trade.btc_token_id@, now_ms)
}

/// Whether a sweep at `now_ms` settles the position: it is old enough and
/// both its markets are known to have closed.
pub open spec fn settles(trade: PendingTrade, cache: Seq<CachedMarketData>, now_ms: u64) -> bool {
    &&& is_due(trade, now_ms)
    &&& eth_result(trade, cache, now_ms).0
    &&& btc_result(trade, cache, now_ms).0
}

/// The profit that settling the position realizes.
pub open spec fn settled_profit(trade: PendingTrade, cache: Seq<CachedMarketData>, now_ms: u64) -> Amount {
    actual_profit(trade, eth_result(trade, cache, now_ms).1, btc_result(trade, cache, now_ms).1)
}

/// The sell orders that settling the position calls for.
pub open spec fn settled_sells(trade: PendingTrade, cache: Seq<CachedMarketData>, now_ms: u64) -> Seq<
    OrderRequest,
> {
    winning_sells(trade, eth_result(trade, cache, now_ms).1, btc_result(trade, cache, now_ms).1)
}

/// The positions that a sweep leaves pending, in their order.
pub open spec fn remaining(pending: Seq<PendingTrade>, cache: Seq<CachedMarketData>, now_ms: u64) -> Seq<
    PendingTrade,
> {
    pending.filter(|trade: PendingTrade| !settles(trade, cache, now_ms))
}

/// The total profit after a sweep: the profit of each settled position is
/// added in the positions' order.
pub open spec fn total_after(
    pending: Seq<PendingTrade>,
    cache: Seq<CachedMarketData>,
    now_ms: u64,
    total: Amount,
) -> Amount
    decreases pending.len(),
{
    if pending.len() == 0 {
        total
    } else {
        let before = total_after(pending.drop_last(), cache, now_ms, total);
        if settles(pending.last(), cache, now_ms) {
            decimal_saturating_sum(before, settled_profit(pending.last(), cache, now_ms))
        } else {
            before
        }
    }
}

/// The sell orders of a sweep: those of each settled position, in the
/// positions' order.
pub open spec fn sells_after(pending: Seq<PendingTrade>, cache: Seq<CachedMarketData>, now_ms: u64) -> Seq<
    OrderRequest,
>
    decreases pending.len(),
{
    if pending.len() == 0 {
        Seq::empty()
    } else {
        let before = sells_after(pending.drop_last(), cache, now_ms);
        if settles(pending.last(), cache, now_ms) {
            before + settled_sells(pending.last(), cache, now_ms)
        } else {
            before
        }
    }
}

/// Whether a sweep at `now_ms` needs this market queried first: a position
/// that is old enough has a leg in it, and the cache has no fresh entry.
pub open spec fn needs_query(
    pending: Seq<PendingTrade>,
    cache: Seq<CachedMarketData>,
    condition_id: Seq<char>,
    now_ms: u64,
) -> bool {
    &&& fresh_entry(cache, condition_id, now_ms) is None
    &&& exists|i: int|
        0 <= i < pending.len() && is_due(#[trigger] pending[i], now_ms) && (pending[i].eth_condition_id@
            == condition_id || pending[i].btc_condition_id@ == condition_id)
}

/// What a tracker holds.
pub struct TraderState {
    pub config: TradingConfig,
    pub simulation_mode: bool,
    pub total_profit: Amount,
    pub trades_executed: u64,
    pub pending_trades: Seq<PendingTrade>,
    pub market_cache: Seq<CachedMarketData>,
}

impl TraderState {
    /// At most one position for each pair of markets, and at most one cache
    /// entry for each market.
    pub open spec fn wf(self) -> bool {
        &&& distinct_pairs(self.pending_trades)
        &&& distinct_markets(self.market_cache)
    }

    /// The state after an opportunity was recorded with the given size.
    pub open spec fn after_trade(self, opportunity: ArbitrageOpportunity, sizing: Sizing, now_ms: u64) -> TraderState {
        TraderState {
            pending_trades: recorded(self.pending_trades, opportunity, sizing, now_ms),
            trades_executed: counted(self.trades_executed),
            ..self
        }
    }

    /// The state after a market's metadata was stored.
    pub open spec fn after_store(self, entry: CachedMarketData) -> TraderState {
        TraderState { market_cache: stored(self.market_cache, entry), ..self }
    }

    /// The state after a sweep of the pending positions.
    pub open spec fn after_sweep(self, now_ms: u64) -> TraderState {
        TraderState {
            pending_trades: remaining(self.pending_trades, self.market_cache, now_ms),
            total_profit: total_after(self.pending_trades, self.market_cache, now_ms, self.total_profit),
            ..self
        }
    }
}

/// What the caller is handed when an opportunity was recorded.
#[derive(Debug)]
pub struct TradeReceipt {
    pub position_size: Amount,
    pub units: Amount,
    /// The orders to place: none in simulation, else one for each leg.
    pub orders: Vec<OrderRequest>,
}

/// Sizes, records and settles positions.
#[derive(Debug)]
pub struct Trader {
    config: TradingConfig,
    simulation_mode: bool,
    total_profit: Amount,
    trades_executed: u64,
    pending_trades: Vec<PendingTrade>,
    market_cache: Vec<CachedMarketData>,
}

impl View for Trader {
    type V = TraderState;

    closed spec fn view(&self) -> TraderState {
        TraderState {
            config: self.config,
            simulation_mode: self.simulation_mode,
            total_profit: self.total_profit,
            trades_executed: self.trades_executed,
            pending_trades: self.pending_trades@,
            market_cache: self.market_cache@,
        }
    }
}

/// What one unit pair pays once both markets have resolved.
pub fn unit_payout(eth_winner: bool, btc_winner: bool) -> (r: Amount)
    ensures
        r == payout_per_unit(eth_winner, btc_winner),
{
    if eth_winner && btc_winner {
        Amount::from_i64(2, 0)
    } else if eth_winner || btc_winner {
        Amount::from_i64(1, 0)
    } else {
        Amount::from_i64(0, 0)
    }
}

/// Whether the first token with this identifier is flagged as the winner.
pub fn token_is_winner(tokens: &Vec<Token>, token_id: &String) -> (r: bool)
    ensures
        r == token_wins(tokens@, token_id@),
{
    let mut i: usize = 0;
    while i < tokens.len()
        invariant
            i <= tokens.len(),
            forall|j: int| 0 <= j < i ==> (#[trigger] tokens@[j]).token_id@ != token_id@,
        decreases tokens.len() - i,
    {
        if tokens[i].token_id == *token_id {
            assert(first_with_id(tokens@, token_id@, i as int));
            proof {
                if token_wins(tokens@, token_id@) {
                    let at = choose|at: int| first_with_id(tokens@, token_id@, at) && tokens@[at].winner;
                    assert(at == i);
                }
            }
            return tokens[i].winner;
        }
        i += 1;
    }
    false
}

/// What a market's metadata says of one of its tokens.
pub fn read_market_result(market: &MarketDetails, token_id: &String) -> (r: (bool, bool))
    ensures
        r == market_result(*market, token_id@),
{
    if market.closed {
        (true, token_is_winner(&market.tokens, token_id))
    } else {
        (false, false)
    }
}

/// Where the market's entry stands in the cache.
fn find_cached(cache: &Vec<CachedMarketData>, condition_id: &String) -> (r: Option<usize>)
    requires
        distinct_markets(cache@),
    ensures
        r matches Some(i) ==> cache_index(cache@, condition_id@) == Some(i as int) && i < cache.len()
            && cache@[i as int].condition_id@ == condition_id@,
        r is None ==> cache_index(cache@, condition_id@) is None,
{
    let mut i: usize = 0;
    while i < cache.len()
        invariant
            i <= cache.len(),
            distinct_markets(cache@),
            forall|j: int| 0 <= j < i ==> (#[trigger] cache@[j]).condition_id@ != condition_id@,
        decreases cache.len() - i,
    {
        if cache[i].condition_id == *condition_id {
            proof {
                let found = cache_index(cache@, condition_id@);
                assert(cache@[i as int].condition_id@ == condition_id@);
                assert(found is Some);
                let at = found->0;
                assert(cache@[at].condition_id@ == condition_id@);
                assert(at == i);
            }
            return Some(i);
        }
        i += 1;
    }
    None
}

/// Where the position on this pair of markets stands.
fn find_pending(pending: &Vec<PendingTrade>, eth_condition_id: &String, btc_condition_id: &String) -> (r:
    Option<usize>)
    requires
        distinct_pairs(pending@),
    ensures
        r matches Some(i) ==> pending_index(pending@, eth_condition_id@, btc_condition_id@) == Some(i as int)
            && i < pending.len() && same_pair(pending@[i as int], eth_condition_id@, btc_condition_id@),
        r is None ==> pending_index(pending@, eth_condition_id@, btc_condition_id@) is None,
{
    let mut i: usize = 0;
    while i < pending.len()
        invariant
            i <= pending.len(),
            distinct_pairs(pending@),
            forall|j: int| 0 <= j < i ==> !same_pair(#[trigger] pending@[j], eth_condition_id@, btc_condition_id@),
        decreases pending.len() - i,
    {
        if pending[i].eth_condition_id == *eth_condition_id && pending[i].btc_condition_id == *btc_condition_id {
            proof {
                let found = pending_index(pending@, eth_condition_id@, btc_condition_id@);
                assert(same_pair(pending@[i as int], eth_condition_id@, btc_condition_id@));
                assert(found is Some);
                let at = found->0;
                assert(same_pair(pending@[at], eth_condition_id@, btc_condition_id@));
                assert(at == i);
            }
            return Some(i);
        }
        i += 1;
    }
    None
}

/// Whether a market already stands in a list of markets.
pub open spec fn listed(markets: Seq<String>, condition_id: Seq<char>) -> bool {
    exists|k: int| 0 <= k < markets.len() && (#[trigger] markets[k])@ == condition_id
}

/// The list of markets to query with one more market: it is added where
/// the cache has no fresh entry for it and the list does not name it yet.
pub open spec fn with_query(
    markets: Seq<String>,
    cache: Seq<CachedMarketData>,
    condition_id: String,
    now_ms: u64,
) -> Seq<String> {
    if fresh_entry(cache, condition_id@, now_ms) is None && !listed(markets, condition_id@) {
        markets.push(condition_id)
    } else {
        markets
    }
}

/// The markets to query before a sweep, in the order in which the sweep
/// comes to them: position by position, the first leg before the second.
pub open spec fn queries_for(pending: Seq<PendingTrade>, cache: Seq<CachedMarketData>, now_ms: u64) -> Seq<
    String,
>
    decreases pending.len(),
{
    if pending.len() == 0 {
        Seq::empty()
    } else {
        let before = queries_for(pending.drop_last(), cache, now_ms);
        let trade = pending.last();
        if is_due(trade, now_ms) {
            with_query(
                with_query(before, cache, trade.eth_condition_id, now_ms),
                cache,
                trade.btc_condition_id,
                now_ms,
            )
        } else {
            before
        }
    }
}

/// A sweep leaves no two positions on the same pair of markets where there
/// were none before.
pub proof fn lemma_remaining_distinct(pending: Seq<PendingTrade>, cache: Seq<CachedMarketData>, now_ms: u64)
    requires
        distinct_pairs(pending),
    ensures
        distinct_pairs(remaining(pending, cache, now_ms)),
        forall|k: int|
            0 <= k < remaining(pending, cache, now_ms).len() ==> pending.contains(
                #[trigger] remaining(pending, cache, now_ms)[k],
            ),
    decreases pending.len(),
{
    reveal(Seq::filter);
    let keep = |trade: PendingTrade| !settles(trade, cache, now_ms);
    if pending.len() > 0 {
        let front = pending.drop_last();
        lemma_remaining_distinct(front, cache, now_ms);
        let sub = remaining(front, cache, now_ms);
        assert(sub == front.filter(keep));
        assert forall|k: int| 0 <= k < sub.len() implies pending.contains(#[trigger] sub[k]) && !same_pair(
            sub[k],
            pending.last().eth_condition_id@,
            pending.last().btc_condition_id@,
        ) by {
            assert(front.contains(sub[k]));
            let j = choose|j: int| 0 <= j < front.len() && front[j] == sub[k];
            assert(pending[j] == sub[k]);
            assert(pending[pending.len() - 1] == pending.last());
        }
        let all = remaining(pending, cache, now_ms);
        if keep(pending.last()) {
            assert(all == sub.push(pending.last()));
            assert(pending[pending.len() - 1] == pending.last());
            assert forall|k: int| 0 <= k < all.len() implies pending.contains(#[trigger] all[k]) by {
                if k < sub.len() {
                    assert(all[k] == sub[k]);
                }
            }
            assert forall|a: int, b: int| 0 <= a < b < all.len() implies !same_pair(
                #[trigger] all[a],
                (#[trigger] all[b]).eth_condition_id@,
                all[b].btc_condition_id@,
            ) by {
                assert(all[a] == sub[a]);
                if b < sub.len() {
                    assert(all[b] == sub[b]);
                }
            }
        } else {
            assert(all == sub);
        }
    }
}

/// Recording an opportunity keeps the positions on distinct pairs of
/// markets: it adds to the one position on the opportunity's pair, or
/// opens the only one.
pub proof fn lemma_recorded_distinct(
    pending: Seq<PendingTrade>,
    opportunity: ArbitrageOpportunity,
    sizing: Sizing,
    now_ms: u64,
)
    requires
        distinct_pairs(pending),
    ensures
        distinct_pairs(recorded(pending, opportunity, sizing, now_ms)),
{
    let after = recorded(pending, opportunity, sizing, now_ms);
    match pending_index(pending, opportunity.eth_condition_id@, opportunity.btc_condition_id@) {
        Some(at) => {
            assert forall|i: int, j: int| 0 <= i < j < after.len() implies !same_pair(
                #[trigger] after[i],
                (#[trigger] after[j]).eth_condition_id@,
                after[j].btc_condition_id@,
            ) by {
                assert(same_pair(pending[i], after[i].eth_condition_id@, after[i].btc_condition_id@));
                assert(same_pair(pending[j], after[j].eth_condition_id@, after[j].btc_condition_id@));
            }
        },
        None => {
            assert forall|i: int, j: int| 0 <= i < j < after.len() implies !same_pair(
                #[trigger] after[i],
                (#[trigger] after[j]).eth_condition_id@,
                after[j].btc_condition_id@,
            ) by {
                assert(after[i] == pending[i]);
                if j < pending.len() {
                    assert(after[j] == pending[j]);
                }
            }
        },
    }
}

/// Two opportunities on the same pair of markets, recorded one after the
/// other by a tracker that held no position on that pair, leave exactly
/// one position on it: its units are the sum of the units computed for
/// each, its investment the sum of the two position sizes, and it is dated
/// by the first. Both trades are counted.
pub proof fn lemma_trades_accumulate(
    state: TraderState,
    first: ArbitrageOpportunity,
    second: ArbitrageOpportunity,
    first_at_ms: u64,
    second_at_ms: u64,
)
    requires
        state.wf(),
        first.eth_condition_id@ == second.eth_condition_id@,
        first.btc_condition_id@ == second.btc_condition_id@,
        pending_index(state.pending_trades, first.eth_condition_id@, first.btc_condition_id@) is None,
        sizing_error(state.config.max_position_size, first.total_cost) is None,
        sizing_error(state.config.max_position_size, second.total_cost) is None,
    ensures
        ({
            let one = sizing_for(state.config.max_position_size, first.total_cost)->0;
            let two = sizing_for(state.config.max_position_size, second.total_cost)->0;
            let after = state.after_trade(first, one, first_at_ms).after_trade(second, two, second_at_ms);
            let at = state.pending_trades.len() as int;
            &&& after.wf()
            &&& after.pending_trades.len() == state.pending_trades.len() + 1
            &&& after.pending_trades.take(at) == state.pending_trades
            &&& pending_index(after.pending_trades, first.eth_condition_id@, first.btc_condition_id@) == Some(at)
            &&& after.pending_trades[at].units == decimal_saturating_sum(one.units, two.units)
            &&& after.pending_trades[at].investment_amount == decimal_saturating_sum(
                one.position_size,
                two.position_size,
            )
            &&& after.pending_trades[at].timestamp == first_at_ms
            &&& after.trades_executed == counted(counted(state.trades_executed))
        }),
{
    let one = sizing_for(state.config.max_position_size, first.total_cost)->0;
    let two = sizing_for(state.config.max_position_size, second.total_cost)->0;
    let middle = state.after_trade(first, one, first_at_ms);
    let at = state.pending_trades.len() as int;
    lemma_recorded_distinct(state.pending_trades, first, one, first_at_ms);
    assert(middle.pending_trades == state.pending_trades.push(opened(first, one, first_at_ms)));
    assert(same_pair(middle.pending_trades[at], second.eth_condition_id@, second.btc_condition_id@));
    let found = pending_index(middle.pending_trades, second.eth_condition_id@, second.btc_condition_id@);
    assert(found is Some);
    assert(found->0 == at) by {
        let j = found->0;
        assert(same_pair(middle.pending_trades[j], second.eth_condition_id@, second.btc_condition_id@));
        if j < at {
            assert(middle.pending_trades[j] == state.pending_trades[j]);
            assert(same_pair(state.pending_trades[j], first.eth_condition_id@, first.btc_condition_id@));
        }
    }
    let after = middle.after_trade(second, two, second_at_ms);
    lemma_recorded_distinct(middle.pending_trades, second, two, second_at_ms);
    assert(after.pending_trades.take(at) =~= state.pending_trades);
    assert(same_pair(after.pending_trades[at], first.eth_condition_id@, first.btc_condition_id@));
    let last = pending_index(after.pending_trades, first.eth_condition_id@, first.btc_condition_id@);
    assert(last is Some);
    assert(last->0 == at) by {
        let j = last->0;
        assert(same_pair(after.pending_trades[j], first.eth_condition_id@, first.btc_condition_id@));
        if j < at {
            assert(after.pending_trades[j] == state.pending_trades[j]);
        }
    }
}

/// The position size never exceeds the configured maximum, and it is the
/// maximum whenever the units that the maximum buys, priced at the cost,
/// come to the maximum or more. Sizing depends on the cost alone: the same
/// cost gives the same size, however often it is quoted.
pub proof fn lemma_position_size_is_capped(max: Amount, cost: Amount, requoted: Amount)
    requires
        requoted == cost,
    ensures
        position_size_for(max, requoted) == position_size_for(max, cost),
        sizing_for(max, requoted) == sizing_for(max, cost),
        position_size_for(max, cost) matches Some(position_size) ==> {
            &&& position_size.le(max)
            &&& max.le(decimal_saturating_product(decimal_checked_quotient(max, cost)->0, cost))
                ==> position_size.same_value(max)
        },
{
}

/// A sweep does not touch a position that is younger than fourteen
/// minutes, whatever the cache says of its markets.
pub proof fn lemma_young_position_stays(
    pending: Seq<PendingTrade>,
    cache: Seq<CachedMarketData>,
    now_ms: u64,
    at: int,
)
    requires
        0 <= at < pending.len(),
        elapsed(pending[at].timestamp, now_ms) < MIN_SETTLE_AGE_MS,
    ensures
        !settles(pending[at], cache, now_ms),
        remaining(pending, cache, now_ms).contains(pending[at]),
{
    let keep = |trade: PendingTrade| !settles(trade, cache, now_ms);
    assert(keep(pending[at]));
    pending.lemma_filter_contains(keep, at);
}

/// Where every position is younger than fourteen minutes a sweep changes
/// nothing: all positions stay as they are, the total profit stays, no
/// order is called for and no market has to be queried.
pub proof fn lemma_sweep_of_young_positions_is_idle(state: TraderState, now_ms: u64)
    requires
        forall|i: int|
            0 <= i < state.pending_trades.len() ==> elapsed(
                (#[trigger] state.pending_trades[i]).timestamp,
                now_ms,
            ) < MIN_SETTLE_AGE_MS,
    ensures
        state.after_sweep(now_ms) == state,
        sells_after(state.pending_trades, state.market_cache, now_ms) == Seq::<OrderRequest>::empty(),
        queries_for(state.pending_trades, state.market_cache, now_ms) == Seq::<String>::empty(),
        forall|condition_id: Seq<char>|
            !needs_query(state.pending_trades, state.market_cache, condition_id, now_ms),
{
    lemma_idle_sweep(state.pending_trades, state.market_cache, now_ms, state.total_profit);
}

proof fn lemma_idle_sweep(pending: Seq<PendingTrade>, cache: Seq<CachedMarketData>, now_ms: u64, total: Amount)
    requires
        forall|i: int| 0 <= i < pending.len() ==> !is_due(#[trigger] pending[i], now_ms),
    ensures
        remaining(pending, cache, now_ms) == pending,
        total_after(pending, cache, now_ms, total) == total,
        sells_after(pending, cache, now_ms) == Seq::<OrderRequest>::empty(),
        queries_for(pending, cache, now_ms) == Seq::<String>::empty(),
    decreases pending.len(),
{
    reveal(Seq::filter);
    if pending.len() > 0 {
        let front = pending.drop_last();
        assert forall|i: int| 0 <= i < front.len() implies !is_due(#[trigger] front[i], now_ms) by {
            assert(front[i] == pending[i]);
        }
        lemma_idle_sweep(front, cache, now_ms, total);
        assert(!is_due(pending[pending.len() - 1], now_ms));
        assert(front.push(pending.last()) =~= pending);
    } else {
        assert(remaining(pending, cache, now_ms) =~= pending);
    }
}

/// A stored market answers lookups from the cache for a minute, and not a
/// moment longer: within 60 seconds of `at_ms` the answer is read from
/// what was stored and the market is not queried; from then on the cache
/// has no answer, and the market is queried again as soon as a position
/// that is old enough has a leg in it. What the cache holds of other
/// markets is as before.
pub proof fn lemma_cache_entry_is_reused(
    state: TraderState,
    condition_id: String,
    market: MarketDetails,
    at_ms: u64,
    token_id: Seq<char>,
    now_ms: u64,
)
    requires
        state.wf(),
    ensures
        ({
            let after = state.after_store(CachedMarketData { condition_id, market, cached_at: at_ms });
            &&& after.wf()
            &&& elapsed(at_ms, now_ms) < CACHE_TTL_MS ==> {
                &&& cached_result(after.market_cache, condition_id@, token_id, now_ms) == Some(
                    market_result(market, token_id),
                )
                &&& !needs_query(after.pending_trades, after.market_cache, condition_id@, now_ms)
            }
            &&& elapsed(at_ms, now_ms) >= CACHE_TTL_MS ==> {
                &&& cached_result(after.market_cache, condition_id@, token_id, now_ms) is None
                &&& needs_query(after.pending_trades, after.market_cache, condition_id@, now_ms) <==> exists|
                    i: int,
                |
                    0 <= i < state.pending_trades.len() && is_due(#[trigger] state.pending_trades[i], now_ms)
                        && (state.pending_trades[i].eth_condition_id@ == condition_id@
                        || state.pending_trades[i].btc_condition_id@ == condition_id@)
            }
            &&& forall|other: Seq<char>|
                other != condition_id@ ==> #[trigger] fresh_entry(after.market_cache, other, now_ms)
                    == fresh_entry(state.market_cache, other, now_ms)
        }),
{
    let entry = CachedMarketData { condition_id, market, cached_at: at_ms };
    let before = state.market_cache;
    let after = stored(before, entry);
    let at = match cache_index(before, condition_id@) {
        Some(i) => i,
        None => before.len() as int,
    };
    assert(after[at] == entry);
    assert forall|i: int| 0 <= i < after.len() && i != at implies after[i] == before[i] && (
    #[trigger] after[i]).condition_id@ != condition_id@ by {}
    assert(distinct_markets(after));
    let found = cache_index(after, condition_id@);
    assert(found == Some(at)) by {
        assert(after[at].condition_id@ == condition_id@);
    }
    assert forall|other: Seq<char>| other != condition_id@ implies #[trigger] fresh_entry(after, other, now_ms)
        == fresh_entry(before, other, now_ms) by {
        let old_at = cache_index(before, other);
        let new_at = cache_index(after, other);
        if old_at is Some {
            let i = old_at->0;
            assert(before[i].condition_id@ == other);
            assert(after[i] == before[i]);
            assert(new_at is Some);
            let j = new_at->0;
            assert(after[j].condition_id@ == other);
            assert(j == i);
        } else {
            if new_at is Some {
                let j = new_at->0;
                assert(after[j].condition_id@ == other);
                assert(before[j].condition_id@ == other);
            }
        }
    }
}

impl Trader {
    #[verifier::type_invariant]
    spec fn well_formed(self) -> bool {
        &&& distinct_pairs(self.pending_trades@)
        &&& distinct_markets(self.market_cache@)
    }

    /// A tracker with no position, no cached market and no profit yet.
    pub fn new(config: TradingConfig, simulation_mode: bool) -> (r: Self)
        ensures
            r@ == (TraderState {
                config,
                simulation_mode,
                total_profit: Amount::of(0, 0),
                trades_executed: 0,
                pending_trades: Seq::empty(),
                market_cache: Seq::empty(),
            }),
            r@.wf(),
    {
        Trader {
            config,
            simulation_mode,
            total_profit: Amount::zero(),
            trades_executed: 0,
            pending_trades: Vec::new(),
            market_cache: Vec::new(),
        }
    }

    /// The realized profit so far, and the number of opportunities recorded.
    pub fn get_stats(&self) -> (r: (Amount, u64))
        ensures
            r.0 == self@.total_profit,
            r.1 == self@.trades_executed,
    {
        (self.total_profit, self.trades_executed)
    }

    /// Whether orders are only recorded, not placed.
    pub fn is_simulation(&self) -> (r: bool)
        ensures
            r == self@.simulation_mode,
    {
        self.simulation_mode
    }

    /// The number of positions that wait for their markets to resolve.
    pub fn pending_count(&self) -> (r: usize)
        ensures
            r == self@.pending_trades.len(),
    {
        self.pending_trades.len()
    }

    /// The position held on this pair of markets, if there is one.
    pub fn pending_trade(&self, eth_condition_id: &String, btc_condition_id: &String) -> (r: Option<
        PendingTrade,
    >)
        ensures
            r == match pending_index(self@.pending_trades, eth_condition_id@, btc_condition_id@) {
                Some(i) => Some(self@.pending_trades[i]),
                None => None,
            },
    {
        proof {
            use_type_invariant(self);
        }
        match find_pending(&self.pending_trades, eth_condition_id, btc_condition_id) {
            Some(i) => Some(self.pending_trades[i].clone()),
            None => None,
        }
    }

    /// The amount to invest in an opportunity; `None` where the number of
    /// units that the configured maximum buys cannot be computed.
    pub fn calculate_position_size(&self, opportunity: &ArbitrageOpportunity) -> (r: Option<Amount>)
        ensures
            r == position_size_for(self@.config.max_position_size, opportunity.total_cost),
            r matches Some(position_size) ==> position_size.le(self@.config.max_position_size),
            opportunity.total_cost.units() == 0 ==> r is None,
    {
        let max_size = self.config.max_position_size;
        match max_size.checked_div(opportunity.total_cost) {
            Some(units) => Some(units.saturating_mul(opportunity.total_cost).min(max_size)),
            None => None,
        }
    }

    /// The investment and the number of units for an opportunity, or why
    /// it cannot be sized.
    pub fn size_position(&self, opportunity: &ArbitrageOpportunity) -> (r: Result<Sizing, TradeError>)
        ensures
            match sizing_error(self@.config.max_position_size, opportunity.total_cost) {
                Some(error) => r == Err::<Sizing, TradeError>(error),
                None => r == Ok::<Sizing, TradeError>(
                    sizing_for(self@.config.max_position_size, opportunity.total_cost)->0,
                ),
            },
            r matches Ok(sizing) ==> sizing.position_size.le(self@.config.max_position_size),
    {
        if opportunity.total_cost.mantissa() == 0 {
            return Err(TradeError::ZeroCost);
        }
        let position_size = match self.calculate_position_size(opportunity) {
            Some(p) => p,
            None => { return Err(TradeError::Overflow); },
        };
        match position_size.checked_div(opportunity.total_cost) {
            Some(units) => Ok(Sizing { position_size, units }),
            None => Err(TradeError::Overflow),
        }
    }

    /// The realized profit of a position whose two markets have resolved.
    pub fn calculate_actual_profit(&self, trade: &PendingTrade, eth_winner: bool, btc_winner: bool) -> (r:
        Amount)
        ensures
            r == actual_profit(*trade, eth_winner, btc_winner),
    {
        let total_payout = unit_payout(eth_winner, btc_winner).saturating_mul(trade.units);
        total_payout.saturating_sub(trade.investment_amount)
    }

    /// The orders that sell the winning legs of a resolved position: each
    /// for all its units, at 1.0.
    pub fn sell_winning_tokens(&self, trade: &PendingTrade, eth_winner: bool, btc_winner: bool) -> (r: Vec<
        OrderRequest,
    >)
        ensures
            r@ == winning_sells(*trade, eth_winner, btc_winner),
    {
        let mut orders: Vec<OrderRequest> = Vec::new();
        if eth_winner {
            orders.push(
                OrderRequest {
                    token_id: trade.eth_token_id.clone(),
                    side: OrderSide::Sell,
                    size: trade.units,
                    price: Amount::from_i64(10, 1),
                },
            );
        }
        if btc_winner {
            orders.push(
                OrderRequest {
                    token_id: trade.btc_token_id.clone(),
                    side: OrderSide::Sell,
                    size: trade.units,
                    price: Amount::from_i64(10, 1),
                },
            );
        }
        assert(orders@ =~= winning_sells(*trade, eth_winner, btc_winner));
        orders
    }

    /// Adds a sized opportunity to the position on its pair of markets, or
    /// opens that position, and counts the trade.
    fn record_position(&mut self, opportunity: &ArbitrageOpportunity, sizing: Sizing, now_ms: u64)
        ensures
            final(self)@ == old(self)@.after_trade(*opportunity, sizing, now_ms),
            final(self)@.wf(),
            pending_index(
                final(self)@.pending_trades,
                opportunity.eth_condition_id@,
                opportunity.btc_condition_id@,
            ) is Some,
    {
        proof {
            use_type_invariant(&*self);
        }
        let mut pending: Vec<PendingTrade> = Vec::new();
        core::mem::swap(&mut self.pending_trades, &mut pending);
        match find_pending(&pending, &opportunity.eth_condition_id, &opportunity.btc_condition_id) {
            Some(i) => {
                let existing = &pending[i];
                let merged = PendingTrade {
                    eth_token_id: existing.eth_token_id.clone(),
                    btc_token_id: existing.btc_token_id.clone(),
                    eth_condition_id: existing.eth_condition_id.clone(),
                    btc_condition_id: existing.btc_condition_id.clone(),
                    investment_amount: existing.investment_amount.saturating_add(sizing.position_size),
                    units: existing.units.saturating_add(sizing.units),
                    timestamp: existing.timestamp,
                };
                pending.set(i, merged);
            },
            None => {
                let pending_trade = PendingTrade {
                    eth_token_id: opportunity.eth_up_token_id.clone(),
                    btc_token_id: opportunity.btc_down_token_id.clone(),
                    eth_condition_id: opportunity.eth_condition_id.clone(),
                    btc_condition_id: opportunity.btc_condition_id.clone(),
                    investment_amount: sizing.position_size,
                    units: sizing.units,
                    timestamp: now_ms,
                };
                pending.push(pending_trade);
            },
        }
        proof {
            lemma_recorded_distinct(old(self)@.pending_trades, *opportunity, sizing, now_ms);
            let at = match pending_index(
                old(self)@.pending_trades,
                opportunity.eth_condition_id@,
                opportunity.btc_condition_id@,
            ) {
                Some(i) => i,
                None => old(self)@.pending_trades.len() as int,
            };
            assert(same_pair(pending@[at], opportunity.eth_condition_id@, opportunity.btc_condition_id@));
        }
        self.pending_trades = pending;
        if self.trades_executed < u64::MAX {
            self.trades_executed = self.trades_executed + 1;
        }
    }

    /// Records an opportunity without placing an order.
    pub fn simulate_trade(&mut self, opportunity: &ArbitrageOpportunity, now_ms: u64) -> (r: Result<
        TradeReceipt,
        TradeError,
    >)
        ensures
            final(self)@.wf(),
            match sizing_error(old(self)@.config.max_position_size, opportunity.total_cost) {
                Some(error) => r == Err::<TradeReceipt, TradeError>(error) && final(self)@ == old(self)@,
                None => {
                    let sizing = sizing_for(old(self)@.config.max_position_size, opportunity.total_cost)->0;
                    &&& final(self)@ == old(self)@.after_trade(*opportunity, sizing, now_ms)
                    &&& pending_index(
                        final(self)@.pending_trades,
                        opportunity.eth_condition_id@,
                        opportunity.btc_condition_id@,
                    ) is Some
                    &&& r matches Ok(receipt)
                    &&& receipt.position_size == sizing.position_size
                    &&& receipt.units == sizing.units
                    &&& receipt.orders@ == Seq::<OrderRequest>::empty()
                },
            },
    {
        proof {
            use_type_invariant(&*self);
        }
        let sizing = match self.size_position(opportunity) {
            Ok(sizing) => sizing,
            Err(error) => { return Err(error); },
        };
        self.record_position(opportunity, sizing, now_ms);
        Ok(TradeReceipt { position_size: sizing.position_size, units: sizing.units, orders: Vec::new() })
    }

    /// Records an opportunity and hands back the two buy orders to place:
    /// one for each leg, at its quoted ask, for the whole position size.
    /// The position counts as filled whatever becomes of the orders.
    pub fn execute_real_trade(&mut self, opportunity: &ArbitrageOpportunity, now_ms: u64) -> (r: Result<
        TradeReceipt,
        TradeError,
    >)
        ensures
            final(self)@.wf(),
            match sizing_error(old(self)@.config.max_position_size, opportunity.total_cost) {
                Some(error) => r == Err::<TradeReceipt, TradeError>(error) && final(self)@ == old(self)@,
                None => {
                    let sizing = sizing_for(old(self)@.config.max_position_size, opportunity.total_cost)->0;
                    &&& final(self)@ == old(self)@.after_trade(*opportunity, sizing, now_ms)
                    &&& pending_index(
                        final(self)@.pending_trades,
                        opportunity.eth_condition_id@,
                        opportunity.btc_condition_id@,
                    ) is Some
                    &&& r matches Ok(receipt)
                    &&& receipt.position_size == sizing.position_size
                    &&& receipt.units == sizing.units
                    &&& receipt.orders@ == opening_orders(*opportunity, sizing.position_size)
                },
            },
    {
        proof {
            use_type_invariant(&*self);
        }
        let sizing = match self.size_position(opportunity) {
            Ok(sizing) => sizing,
            Err(error) => { return Err(error); },
        };
        let mut orders: Vec<OrderRequest> = Vec::new();
        orders.push(
            OrderRequest {
                token_id: opportunity.eth_up_token_id.clone(),
                side: OrderSide::Buy,
                size: sizing.position_size,
                price: opportunity.eth_up_price,
            },
        );
        orders.push(
            OrderRequest {
                token_id: opportunity.btc_down_token_id.clone(),
                side: OrderSide::Buy,
                size: sizing.position_size,
                price: opportunity.btc_down_price,
            },
        );
        assert(orders@ =~= opening_orders(*opportunity, sizing.position_size));
        self.record_position(opportunity, sizing, now_ms);
        Ok(TradeReceipt { position_size: sizing.position_size, units: sizing.units, orders })
    }

    /// Sizes an opportunity and records it: added to the position on its
    /// pair of markets where one is held, else as a new position. Outside
    /// simulation the receipt holds the buy orders to place.
    pub fn execute_arbitrage(&mut self, opportunity: &ArbitrageOpportunity, now_ms: u64) -> (r: Result<
        TradeReceipt,
        TradeError,
    >)
        ensures
            final(self)@.wf(),
            match sizing_error(old(self)@.config.max_position_size, opportunity.total_cost) {
                Some(error) => r == Err::<TradeReceipt, TradeError>(error) && final(self)@ == old(self)@,
                None => {
                    let sizing = sizing_for(old(self)@.config.max_position_size, opportunity.total_cost)->0;
                    &&& final(self)@ == old(self)@.after_trade(*opportunity, sizing, now_ms)
                    &&& pending_index(
                        final(self)@.pending_trades,
                        opportunity.eth_condition_id@,
                        opportunity.btc_condition_id@,
                    ) is Some
                    &&& r matches Ok(receipt)
                    &&& receipt.position_size == sizing.position_size
                    &&& receipt.units == sizing.units
                    &&& receipt.orders@ == if old(self)@.simulation_mode {
                        Seq::<OrderRequest>::empty()
                    } else {
                        opening_orders(*opportunity, sizing.position_size)
                    }
                },
            },
    {
        if self.simulation_mode {
            self.simulate_trade(opportunity, now_ms)
        } else {
            self.execute_real_trade(opportunity, now_ms)
        }
    }

    /// Answers from the cache whether a market has closed and whether the
    /// token won; `None` where the market has no entry younger than a
    /// minute and has to be queried.
    pub fn check_market_result_cached(&self, condition_id: &String, token_id: &String, now_ms: u64) -> (r:
        Option<(bool, bool)>)
        ensures
            r == cached_result(self@.market_cache, condition_id@, token_id@, now_ms),
    {
        proof {
            use_type_invariant(self);
        }
        match find_cached(&self.market_cache, condition_id) {
            Some(i) => {
                let cached = &self.market_cache[i];
                if elapsed_ms(cached.cached_at, now_ms) < CACHE_TTL_MS {
                    Some(read_market_result(&cached.market, token_id))
                } else {
                    None
                }
            },
            None => None,
        }
    }

    /// Stores a market's metadata as fetched at `now_ms`; it replaces what
    /// the cache had for that market.
    pub fn store_market_result(&mut self, condition_id: String, market: MarketDetails, now_ms: u64)
        ensures
            final(self)@ == old(self)@.after_store(CachedMarketData { condition_id, market, cached_at: now_ms }),
            final(self)@.wf(),
            forall|token_id: Seq<char>, at_ms: u64| #[trigger]
                cached_result(final(self)@.market_cache, condition_id@, token_id, at_ms) == if elapsed(
                    now_ms,
                    at_ms,
                ) < CACHE_TTL_MS {
                    Some(market_result(market, token_id))
                } else {
                    None
                },
    {
        proof {
            use_type_invariant(&*self);
            assert forall|token_id: Seq<char>, at_ms: u64| #[trigger]
                cached_result(
                    stored(self@.market_cache, CachedMarketData { condition_id, market, cached_at: now_ms }),
                    condition_id@,
                    token_id,
                    at_ms,
                ) == if elapsed(now_ms, at_ms) < CACHE_TTL_MS {
                    Some(market_result(market, token_id))
                } else {
                    None
                } by {
                lemma_cache_entry_is_reused(self@, condition_id, market, now_ms, token_id, at_ms);
            }
        }
        let mut cache: Vec<CachedMarketData> = Vec::new();
        core::mem::swap(&mut self.market_cache, &mut cache);
        let found = find_cached(&cache, &condition_id);
        let entry = CachedMarketData { condition_id, market, cached_at: now_ms };
        match found {
            Some(i) => { cache.set(i, entry); },
            None => { cache.push(entry); },
        }
        self.market_cache = cache;
    }

    /// Whether the cache has an entry for the market that is younger than a
    /// minute.
    pub fn has_fresh_entry(&self, condition_id: &String, now_ms: u64) -> (r: bool)
        ensures
            r == fresh_entry(self@.market_cache, condition_id@, now_ms) is Some,
    {
        proof {
            use_type_invariant(self);
        }
        match find_cached(&self.market_cache, condition_id) {
            Some(i) => elapsed_ms(self.market_cache[i].cached_at, now_ms) < CACHE_TTL_MS,
            None => false,
        }
    }

    /// Adds a leg's market to the list of markets to query, where the cache
    /// cannot answer for it and the list does not hold it yet.
    fn list_for_query(&self, markets: &mut Vec<String>, condition_id: &String, now_ms: u64)
        ensures
            final(markets)@ == with_query(old(markets)@, self@.market_cache, *condition_id, now_ms),
    {
        if self.has_fresh_entry(condition_id, now_ms) {
            return ;
        }
        let mut k: usize = 0;
        while k < markets.len()
            invariant
                k <= markets.len(),
                *markets == *old(markets),
                forall|j: int| 0 <= j < k ==> (#[trigger] markets@[j])@ != condition_id@,
            decreases markets.len() - k,
        {
            if markets[k] == *condition_id {
                return ;
            }
            k += 1;
        }
        markets.push(condition_id.clone());
    }

    /// The markets that must be queried before a sweep at `now_ms` can
    /// decide: those of the positions that are old enough, as far as the
    /// cache has no fresh entry for them. Each is named once.
    pub fn markets_to_query(&self, now_ms: u64) -> (r: Vec<String>)
        ensures
            r@ == queries_for(self@.pending_trades, self@.market_cache, now_ms),
            forall|k: int|
                0 <= k < r.len() ==> needs_query(
                    self@.pending_trades,
                    self@.market_cache,
                    (#[trigger] r@[k])@,
                    now_ms,
                ),
            forall|condition_id: Seq<char>| #[trigger]
                needs_query(self@.pending_trades, self@.market_cache, condition_id, now_ms) ==> listed(
                    r@,
                    condition_id,
                ),
            forall|k: int, l: int| 0 <= k < l < r.len() ==> (#[trigger] r@[k])@ != (#[trigger] r@[l])@,
    {
        let mut markets: Vec<String> = Vec::new();
        let mut i: usize = 0;
        assert(self@.pending_trades.take(0) =~= Seq::<PendingTrade>::empty());
        while i < self.pending_trades.len()
            invariant
                i <= self.pending_trades.len(),
                markets@ == queries_for(self@.pending_trades.take(i as int), self@.market_cache, now_ms),
                forall|k: int|
                    0 <= k < markets.len() ==> needs_query(
                        self@.pending_trades,
                        self@.market_cache,
                        (#[trigger] markets@[k])@,
                        now_ms,
                    ),
                forall|condition_id: Seq<char>| #[trigger]
                    needs_query(self@.pending_trades.take(i as int), self@.market_cache, condition_id, now_ms)
                        ==> listed(markets@, condition_id),
                forall|k: int, l: int|
                    0 <= k < l < markets.len() ==> (#[trigger] markets@[k])@ != (#[trigger] markets@[l])@,
            decreases self.pending_trades.len() - i,
        {
            let trade = &self.pending_trades[i];
            let ghost before = markets@;
            proof {
                let next = self@.pending_trades.take(i + 1);
                assert(next.last() == self@.pending_trades[i as int]);
                assert(next.drop_last() =~= self@.pending_trades.take(i as int));
            }
            if elapsed_ms(trade.timestamp, now_ms) >= MIN_SETTLE_AGE_MS {
                self.list_for_query(&mut markets, &trade.eth_condition_id, now_ms);
                let ghost between = markets@;
                self.list_for_query(&mut markets, &trade.btc_condition_id, now_ms);
                proof {
                    let pending = self@.pending_trades;
                    assert(is_due(pending[i as int], now_ms));
                    assert forall|k: int| 0 <= k < markets.len() implies needs_query(
                        pending,
                        self@.market_cache,
                        (#[trigger] markets@[k])@,
                        now_ms,
                    ) by {
                        if k < before.len() {
                            assert(markets@[k] == before[k]);
                        }
                    }
                    assert forall|c: Seq<char>| listed(between, c) implies listed(markets@, c) by {
                        let k = choose|k: int| 0 <= k < between.len() && (#[trigger] between[k])@ == c;
                        assert(markets@[k] == between[k]);
                    }
                    assert forall|c: Seq<char>| listed(before, c) implies listed(between, c) by {
                        let k = choose|k: int| 0 <= k < before.len() && (#[trigger] before[k])@ == c;
                        assert(between[k] == before[k]);
                    }
                    if fresh_entry(self@.market_cache, trade.eth_condition_id@, now_ms) is None {
                        if !listed(before, trade.eth_condition_id@) {
                            assert(between[before.len() as int]@ == trade.eth_condition_id@);
                        }
                        assert(listed(between, trade.eth_condition_id@));
                        assert(listed(markets@, trade.eth_condition_id@));
                    }
                    if fresh_entry(self@.market_cache, trade.btc_condition_id@, now_ms) is None {
                        if !listed(between, trade.btc_condition_id@) {
                            assert(markets@[between.len() as int]@ == trade.btc_condition_id@);
                        }
                        assert(listed(markets@, trade.btc_condition_id@));
                    }
                }
            }
            proof {
                let pending = self@.pending_trades;
                let next = pending.take(i + 1);
                assert forall|c: Seq<char>| #[trigger]
                    needs_query(next, self@.market_cache, c, now_ms) implies listed(markets@, c) by {
                    let j = choose|j: int|
                        0 <= j < next.len() && is_due(#[trigger] next[j], now_ms) && (next[j].eth_condition_id@ == c
                            || next[j].btc_condition_id@ == c);
                    if j < i {
                        assert(pending.take(i as int)[j] == next[j]);
                        assert(needs_query(pending.take(i as int), self@.market_cache, c, now_ms));
                        assert(listed(before, c));
                    } else {
                        assert(next[j] == pending[i as int]);
                        assert(is_due(pending[i as int], now_ms));
                    }
                }
            }
            i += 1;
        }
        assert(self@.pending_trades.take(i as int) =~= self@.pending_trades);
        markets
    }

    /// Sweeps the pending positions. A position that is at least fourteen
    /// minutes old, and whose two markets the cache knows to have closed,
    /// is settled: its profit is added to the total and it is removed.
    /// Every other position stays. Outside simulation the sell orders for
    /// the winning legs are handed back, to be placed.
    pub fn check_pending_trades(&mut self, now_ms: u64) -> (r: Vec<OrderRequest>)
        ensures
            final(self)@ == old(self)@.after_sweep(now_ms),
            final(self)@.wf(),
            r@ == if old(self)@.simulation_mode {
                Seq::<OrderRequest>::empty()
            } else {
                sells_after(old(self)@.pending_trades, old(self)@.market_cache, now_ms)
            },
            forall|i: int|
                0 <= i < old(self)@.pending_trades.len() && !is_due(
                    #[trigger] old(self)@.pending_trades[i],
                    now_ms,
                ) ==> final(self)@.pending_trades.contains(old(self)@.pending_trades[i]),
            (forall|i: int|
                0 <= i < old(self)@.pending_trades.len() ==> !is_due(
                    #[trigger] old(self)@.pending_trades[i],
                    now_ms,
                )) ==> final(self)@ == old(self)@ && r@ == Seq::<OrderRequest>::empty(),
    {
        let mut kept: Vec<PendingTrade> = Vec::new();
        let mut orders: Vec<OrderRequest> = Vec::new();
        let mut total = self.total_profit;
        let mut i: usize = 0;
        proof {
            use_type_invariant(&*self);
            reveal(Seq::filter);
            assert(self@.pending_trades.take(0) =~= Seq::<PendingTrade>::empty());
        }
        while i < self.pending_trades.len()
            invariant
                i <= self.pending_trades.len(),
                *self == *old(self),
                self@.wf(),
                kept@ == remaining(self@.pending_trades.take(i as int), self@.market_cache, now_ms),
                total == total_after(
                    self@.pending_trades.take(i as int),
                    self@.market_cache,
                    now_ms,
                    self@.total_profit,
                ),
                orders@ == if self@.simulation_mode {
                    Seq::<OrderRequest>::empty()
                } else {
                    sells_after(self@.pending_trades.take(i as int), self@.market_cache, now_ms)
                },
            decreases self.pending_trades.len() - i,
        {
            let trade = &self.pending_trades[i];
            proof {
                reveal(Seq::filter);
                let next = self@.pending_trades.take(i + 1);
                assert(next.last() == self@.pending_trades[i as int]);
                assert(next.drop_last() =~= self@.pending_trades.take(i as int));
            }
            let mut settled = false;
            if elapsed_ms(trade.timestamp, now_ms) >= MIN_SETTLE_AGE_MS {
                let eth = match self.check_market_result_cached(
                    &trade.eth_condition_id,
                    &trade.eth_token_id,
                    now_ms,
                ) {
                    Some(result) => result,
                    None => (false, false),
                };
                let btc = match self.check_market_result_cached(
                    &trade.btc_condition_id,
                    &trade.btc_token_id,
                    now_ms,
                ) {
                    Some(result) => result,
                    None => (false, false),
                };
                if eth.0 && btc.0 {
                    if !self.simulation_mode {
                        let mut sells = self.sell_winning_tokens(trade, eth.1, btc.1);
                        orders.append(&mut sells);
                    }
                    total = total.saturating_add(self.calculate_actual_profit(trade, eth.1, btc.1));
                    settled = true;
                }
            }
            if !settled {
                kept.push(trade.clone());
            }
            i += 1;
        }
        proof {
            let state = self@;
            assert(state.pending_trades.take(i as int) =~= state.pending_trades);
            lemma_remaining_distinct(state.pending_trades, state.market_cache, now_ms);
            assert forall|k: int|
                0 <= k < state.pending_trades.len() && !is_due(
                    #[trigger] state.pending_trades[k],
                    now_ms,
                ) implies remaining(state.pending_trades, state.market_cache, now_ms).contains(
                state.pending_trades[k],
            ) by {
                lemma_young_position_stays(state.pending_trades, state.market_cache, now_ms, k);
            }
            if forall|k: int|
                0 <= k < state.pending_trades.len() ==> !is_due(#[trigger] state.pending_trades[k], now_ms) {
                lemma_sweep_of_young_positions_is_idle(state, now_ms);
            }
        }
        self.pending_trades = kept;
        self.total_profit = total;
        orders
    }
}

} // verus!
