//! The plain records that pass between the price source, the detector, the
//! monitor and the tracker.

use crate::decimal::Amount;
use vstd::prelude::*;

verus! {

/// One priced outcome token: what it costs to buy (`ask`) and what selling it
/// brings (`bid`). Either side of the book may be empty.
#[derive(Debug)]
pub struct TokenPrice {
    pub token_id: String,
    pub bid: Option<Amount>,
    pub ask: Option<Amount>,
}

impl TokenPrice {
    /// The quoted cost of buying the token, if the book has one.
    pub fn ask_price(&self) -> (r: Option<Amount>)
        ensures
            r == self.ask,
    {
        self.ask
    }
}

impl Clone for TokenPrice {
    fn clone(&self) -> (r: Self)
        ensures
            r == *self,
    {
        TokenPrice { token_id: self.token_id.clone(), bid: self.bid, ask: self.ask }
    }
}

/// The prices of one market's two outcome tokens at one instant.
#[derive(Debug)]
pub struct MarketData {
    pub condition_id: String,
    pub market_name: String,
    pub up_token: Option<TokenPrice>,
    pub down_token: Option<TokenPrice>,
}

/// A pairing of one leg in each market that costs less than it pays out.
#[derive(Debug)]
pub struct ArbitrageOpportunity {
    pub eth_up_price: Amount,
    pub btc_down_price: Amount,
    pub total_cost: Amount,
    pub expected_profit: Amount,
    pub eth_up_token_id: String,
    pub btc_down_token_id: String,
    pub eth_condition_id: String,
    pub btc_condition_id: String,
}

/// One of the two tracked markets, as the monitor knows it.
#[derive(Debug)]
pub struct Market {
    pub condition_id: String,
    pub slug: String,
}

/// One outcome token of a market, as the price source describes it.
#[derive(Debug)]
pub struct Token {
    pub token_id: String,
    pub outcome: String,
    pub winner: bool,
}

/// A market's metadata, as the price source reports it: its tokens, and
/// whether it has resolved.
#[derive(Debug)]
pub struct MarketDetails {
    pub tokens: Vec<Token>,
    pub closed: bool,
}

/// The answers to the two price queries for one token; a query that failed
/// leaves its side empty.
#[derive(Clone, Copy, Debug)]
pub struct Quote {
    /// The price at which the token can be bought.
    pub buy: Option<Amount>,
    /// The price at which the token can be sold.
    pub sell: Option<Amount>,
}

/// The quotes for the four tokens of the two tracked markets.
#[derive(Clone, Copy, Debug)]
pub struct PriceQuotes {
    pub eth_up: Quote,
    pub eth_down: Quote,
    pub btc_up: Quote,
    pub btc_down: Quote,
}

/// The token identifiers that stand for the outcomes of the two tracked
/// markets, as far as they are known.
#[derive(Debug)]
pub struct TokenIds {
    pub eth_up: Option<String>,
    pub eth_down: Option<String>,
    pub btc_up: Option<String>,
    pub btc_down: Option<String>,
}

/// What the operator configures.
#[derive(Clone, Copy, Debug)]
pub struct TradingConfig {
    /// The least expected profit for which an opportunity is reported.
    pub min_profit_threshold: Amount,
    /// The most that one opportunity may cost.
    pub max_position_size: Amount,
}

/// The exposure held on one pair of markets: both legs' tokens, how many
/// unit pairs were bought, what they cost, and when the first was bought.
#[derive(Debug)]
pub struct PendingTrade {
    pub eth_token_id: String,
    pub btc_token_id: String,
    pub eth_condition_id: String,
    pub btc_condition_id: String,
    pub investment_amount: Amount,
    pub units: Amount,
    /// Milliseconds on the caller's monotonic clock.
    pub timestamp: u64,
}

impl Clone for PendingTrade {
    fn clone(&self) -> (r: Self)
        ensures
            r == *self,
    {
        PendingTrade {
            eth_token_id: self.eth_token_id.clone(),
            btc_token_id: self.btc_token_id.clone(),
            eth_condition_id: self.eth_condition_id.clone(),
            btc_condition_id: self.btc_condition_id.clone(),
            investment_amount: self.investment_amount,
            units: self.units,
            timestamp: self.timestamp,
        }
    }
}

/// A market's metadata as it was last fetched, and when.
#[derive(Debug)]
pub struct CachedMarketData {
    pub condition_id: String,
    pub market: MarketDetails,
    /// Milliseconds on the caller's monotonic clock.
    pub cached_at: u64,
}

/// The side of an order.
#[derive(Clone, Copy, Debug, PartialEq, Eq, Structural)]
pub enum OrderSide {
    Buy,
    Sell,
}

/// A limit order for the price source to place.
#[derive(Debug)]
pub struct OrderRequest {
    pub token_id: String,
    pub side: OrderSide,
    pub size: Amount,
    pub price: Amount,
}

} // verus!
