//! The market monitor: which two markets are current, which tokens stand for
//! their outcomes, and the price snapshots assembled from the price source's
//! answers.
//!
//! The monitor never reads a clock and never queries the price source. Its
//! caller hands it the time and the answers; the monitor decides what they
//! mean.

use crate::clock::{elapsed, elapsed_ms};
use crate::models::{Market, MarketData, MarketDetails, PriceQuotes, Quote, Token, TokenIds, TokenPrice};
use crate::text::{contains, contains_chars, same_chars, uppercase, uppercase_chars};
use vstd::prelude::*;

verus! {

/// The length of one market period, in seconds.
pub const PERIOD_SECS: u64 = 900;

/// How long token identifiers are kept before they are resolved again, in
/// milliseconds.
pub const TOKEN_REFRESH_MS: u64 = 900_000;

/// The prices of both tracked markets, taken at one instant.
#[derive(Debug)]
pub struct MarketSnapshot {
    pub eth_market: MarketData,
    pub btc_market: MarketData,
    /// Milliseconds on the caller's monotonic clock.
    pub timestamp: u64,
}

/// The outcome that a token stands for.
#[derive(Clone, Copy, Debug, PartialEq, Eq, Structural)]
pub enum Outcome {
    Up,
    Down,
}

/// The outcome named by a label that is already in upper case: "up" where
/// it holds `UP` or is `1`, else "down" where it holds `DOWN` or is `0`.
pub open spec fn classify_upper(upper: Seq<char>) -> Option<Outcome> {
    if contains(upper, seq!['U', 'P']) || upper == seq!['1'] {
        Some(Outcome::Up)
    } else if contains(upper, seq!['D', 'O', 'W', 'N']) || upper == seq!['0'] {
        Some(Outcome::Down)
    } else {
        None
    }
}

/// The outcome that a label names, letter case aside.
pub open spec fn classify(label: Seq<char>) -> Option<Outcome> {
    classify_upper(uppercase(label))
}

/// The identifier of the last token in `tokens` whose label names
/// `outcome`; `before` where there is none.
pub open spec fn assigned(tokens: Seq<Token>, outcome: Outcome, before: Option<String>) -> Option<
    String,
>
    decreases tokens.len(),
{
    if tokens.len() == 0 {
        before
    } else if classify(tokens.last().outcome@) == Some(outcome) {
        Some(tokens.last().token_id)
    } else {
        assigned(tokens.drop_last(), outcome, before)
    }
}

/// The start of the period that holds `unix_secs`.
pub open spec fn period_of(unix_secs: u64) -> u64 {
    (unix_secs - unix_secs % PERIOD_SECS) as u64
}

/// Whether token identifiers must be resolved at `now_ms`: they never were,
/// or that was a whole period ago.
pub open spec fn refresh_due(last_refresh: Option<u64>, now_ms: u64) -> bool {
    match last_refresh {
        None => true,
        Some(at) => elapsed(at, now_ms) >= TOKEN_REFRESH_MS,
    }
}

/// The snapshot entry for one token: none where its identifier is unknown
/// or neither price query gave an answer.
pub open spec fn token_price(token_id: Option<String>, quote: Quote) -> Option<TokenPrice> {
    match token_id {
        Some(id) if quote.buy is Some || quote.sell is Some => Some(
            TokenPrice { token_id: id, bid: quote.sell, ask: quote.buy },
        ),
        _ => None,
    }
}

/// What a monitor holds.
pub struct MonitorState {
    pub eth_market: Market,
    pub btc_market: Market,
    pub check_interval_ms: u64,
    pub eth_up_token_id: Option<String>,
    pub eth_down_token_id: Option<String>,
    pub btc_up_token_id: Option<String>,
    pub btc_down_token_id: Option<String>,
    /// When token identifiers were last resolved, on the monotonic clock.
    pub last_market_refresh: Option<u64>,
    /// The start of the period that the tracked markets belong to, in
    /// seconds since the Unix epoch.
    pub current_period_timestamp: u64,
}

impl MonitorState {
    /// The state of a monitor that was just made for two markets, in the
    /// period that holds `unix_secs`: no token identifier is known and no
    /// refresh has happened.
    pub open spec fn initial(
        eth_market: Market,
        btc_market: Market,
        check_interval_ms: u64,
        unix_secs: u64,
    ) -> MonitorState {
        MonitorState {
            eth_market,
            btc_market,
            check_interval_ms,
            eth_up_token_id: None,
            eth_down_token_id: None,
            btc_up_token_id: None,
            btc_down_token_id: None,
            last_market_refresh: None,
            current_period_timestamp: period_of(unix_secs),
        }
    }

    /// The state after both markets were replaced: as if the monitor had
    /// just been made for them, with the polling interval it had.
    pub open spec fn with_markets(self, eth_market: Market, btc_market: Market, unix_secs: u64) -> MonitorState {
        MonitorState::initial(eth_market, btc_market, self.check_interval_ms, unix_secs)
    }

    /// The state after a refresh at `now_ms`: the tokens of each market are
    /// assigned from its fresh details, and a market whose query failed
    /// keeps what it had.
    pub open spec fn with_details(
        self,
        eth_details: Option<MarketDetails>,
        btc_details: Option<MarketDetails>,
        now_ms: u64,
    ) -> MonitorState {
        MonitorState {
            eth_up_token_id: match eth_details {
                Some(d) => assigned(d.tokens@, Outcome::Up, self.eth_up_token_id),
                None => self.eth_up_token_id,
            },
            eth_down_token_id: match eth_details {
                Some(d) => assigned(d.tokens@, Outcome::Down, self.eth_down_token_id),
                None => self.eth_down_token_id,
            },
            btc_up_token_id: match btc_details {
                Some(d) => assigned(d.tokens@, Outcome::Up, self.btc_up_token_id),
                None => self.btc_up_token_id,
            },
            btc_down_token_id: match btc_details {
                Some(d) => assigned(d.tokens@, Outcome::Down, self.btc_down_token_id),
                None => self.btc_down_token_id,
            },
            last_market_refresh: Some(now_ms),
            ..self
        }
    }
}

/// Tracks the current pair of markets and the tokens of their outcomes.
#[derive(Debug)]
pub struct MarketMonitor {
    eth_market: Market,
    btc_market: Market,
    check_interval_ms: u64,
    eth_up_token_id: Option<String>,
    eth_down_token_id: Option<String>,
    btc_up_token_id: Option<String>,
    btc_down_token_id: Option<String>,
    last_market_refresh: Option<u64>,
    current_period_timestamp: u64,
}

impl View for MarketMonitor {
    type V = MonitorState;

    closed spec fn view(&self) -> MonitorState {
        MonitorState {
            eth_market: self.eth_market,
            btc_market: self.btc_market,
            check_interval_ms: self.check_interval_ms,
            eth_up_token_id: self.eth_up_token_id,
            eth_down_token_id: self.eth_down_token_id,
            btc_up_token_id: self.btc_up_token_id,
            btc_down_token_id: self.btc_down_token_id,
            last_market_refresh: self.last_market_refresh,
            current_period_timestamp: self.current_period_timestamp,
        }
    }
}

/// The start of the period that holds `unix_secs`.
pub fn period_start(unix_secs: u64) -> (r: u64)
    ensures
        r == period_of(unix_secs),
        r <= unix_secs < r + PERIOD_SECS,
        r % PERIOD_SECS == 0,
{
    (unix_secs / PERIOD_SECS) * PERIOD_SECS
}

/// The outcome named by a label that is already in upper case.
pub fn classify_uppercased(upper: &Vec<char>) -> (r: Option<Outcome>)
    ensures
        r == classify_upper(upper@),
{
    let up: Vec<char> = vec!['U', 'P'];
    let one: Vec<char> = vec!['1'];
    let down: Vec<char> = vec!['D', 'O', 'W', 'N'];
    let zero: Vec<char> = vec!['0'];
    assert(up@ =~= seq!['U', 'P']);
    assert(one@ =~= seq!['1']);
    assert(down@ =~= seq!['D', 'O', 'W', 'N']);
    assert(zero@ =~= seq!['0']);
    if contains_chars(upper, &up) || same_chars(upper, &one) {
        Some(Outcome::Up)
    } else if contains_chars(upper, &down) || same_chars(upper, &zero) {
        Some(Outcome::Down)
    } else {
        None
    }
}

/// The outcome that a token's label names, if it names one.
pub fn classify_outcome(label: &str) -> (r: Option<Outcome>)
    ensures
        r == classify(label@),
{
    let upper = uppercase_chars(label);
    classify_uppercased(&upper)
}

/// Assigns the "up" and "down" token identifiers from a market's tokens, in
/// their order: a later token replaces an earlier one of the same outcome,
/// and a token whose label names no outcome is passed over.
pub fn assign_tokens(tokens: &Vec<Token>, up: &mut Option<String>, down: &mut Option<String>)
    ensures
        *final(up) == assigned(tokens@, Outcome::Up, *old(up)),
        *final(down) == assigned(tokens@, Outcome::Down, *old(down)),
{
    let mut i: usize = 0;
    assert(tokens@.take(0) =~= Seq::<Token>::empty());
    while i < tokens.len()
        invariant
            i <= tokens.len(),
            *up == assigned(tokens@.take(i as int), Outcome::Up, *old(up)),
            *down == assigned(tokens@.take(i as int), Outcome::Down, *old(down)),
        decreases tokens.len() - i,
    {
        let token = &tokens[i];
        let found = classify_outcome(token.outcome.as_str());
        proof {
            let next = tokens@.take(i + 1);
            assert(next.last() == tokens@[i as int]);
            assert(next.drop_last() =~= tokens@.take(i as int));
        }
        match found {
            Some(Outcome::Up) => { *up = Some(token.token_id.clone()); },
            Some(Outcome::Down) => { *down = Some(token.token_id.clone()); },
            None => {},
        }
        i += 1;
    }
    assert(tokens@.take(tokens.len() as int) =~= tokens@);
}

/// The snapshot entry for one token, from the answers to its two price
/// queries.
pub fn fetch_token_price(token_id: &Option<String>, quote: Quote) -> (r: Option<TokenPrice>)
    ensures
        r == token_price(*token_id, quote),
{
    match token_id {
        Some(id) => {
            if quote.buy.is_some() || quote.sell.is_some() {
                Some(TokenPrice { token_id: id.clone(), bid: quote.sell, ask: quote.buy })
            } else {
                None
            }
        },
        None => None,
    }
}

fn clone_id(id: &Option<String>) -> (r: Option<String>)
    ensures
        r == *id,
{
    match id {
        Some(s) => Some(s.clone()),
        None => None,
    }
}

/// After the markets were replaced no token identifier is known and a
/// refresh is due at every instant, so that the next snapshot resolves the
/// identifiers from the new markets alone.
pub proof fn lemma_update_forces_refresh(
    state: MonitorState,
    eth_market: Market,
    btc_market: Market,
    unix_secs: u64,
    eth_details: Option<MarketDetails>,
    btc_details: Option<MarketDetails>,
    now_ms: u64,
)
    ensures
        ({
            let updated = state.with_markets(eth_market, btc_market, unix_secs);
            let refreshed = updated.with_details(eth_details, btc_details, now_ms);
            &&& updated.eth_up_token_id is None
            &&& updated.eth_down_token_id is None
            &&& updated.btc_up_token_id is None
            &&& updated.btc_down_token_id is None
            &&& refresh_due(updated.last_market_refresh, now_ms)
            &&& eth_details matches Some(d) ==> {
                &&& refreshed.eth_up_token_id == assigned(d.tokens@, Outcome::Up, None)
                &&& refreshed.eth_down_token_id == assigned(d.tokens@, Outcome::Down, None)
            }
            &&& btc_details matches Some(d) ==> {
                &&& refreshed.btc_up_token_id == assigned(d.tokens@, Outcome::Up, None)
                &&& refreshed.btc_down_token_id == assigned(d.tokens@, Outcome::Down, None)
            }
        }),
{
}

/// Token identifiers are resolved at most once in a period: after a refresh
/// at `at_ms` the next one is due exactly when 900 seconds have passed.
pub proof fn lemma_refresh_once_per_period(
    state: MonitorState,
    eth_details: Option<MarketDetails>,
    btc_details: Option<MarketDetails>,
    at_ms: u64,
    now_ms: u64,
)
    ensures
        refresh_due(state.with_details(eth_details, btc_details, at_ms).last_market_refresh, now_ms)
            <==> elapsed(at_ms, now_ms) >= TOKEN_REFRESH_MS,
{
}

/// New markets are looked for exactly when the clock has left the period
/// in which the tracked markets were set.
pub proof fn lemma_discovery_follows_the_period(
    state: MonitorState,
    eth_market: Market,
    btc_market: Market,
    set_at_secs: u64,
    unix_secs: u64,
)
    ensures
        ({
            let updated = state.with_markets(eth_market, btc_market, set_at_secs);
            &&& updated.current_period_timestamp <= set_at_secs < updated.current_period_timestamp
                + PERIOD_SECS
            &&& (period_of(unix_secs) != updated.current_period_timestamp) <==> !(
            updated.current_period_timestamp <= unix_secs < updated.current_period_timestamp
                + PERIOD_SECS)
        }),
{
}

impl MarketMonitor {
    /// A monitor of the two markets, with no token identifier resolved yet,
    /// in the period that holds `unix_secs`.
    pub fn new(eth_market: Market, btc_market: Market, check_interval_ms: u64, unix_secs: u64) -> (r: Self)
        ensures
            r@ == MonitorState::initial(eth_market, btc_market, check_interval_ms, unix_secs),
    {
        MarketMonitor {
            eth_market,
            btc_market,
            check_interval_ms,
            eth_up_token_id: None,
            eth_down_token_id: None,
            btc_up_token_id: None,
            btc_down_token_id: None,
            last_market_refresh: None,
            current_period_timestamp: period_start(unix_secs),
        }
    }

    /// Replaces both tracked markets at the start of a new period: every
    /// token identifier is forgotten, and so is the time of the last refresh.
    pub fn update_markets(&mut self, eth_market: Market, btc_market: Market, unix_secs: u64)
        ensures
            final(self)@ == old(self)@.with_markets(eth_market, btc_market, unix_secs),
    {
        self.eth_market = eth_market;
        self.btc_market = btc_market;
        self.eth_up_token_id = None;
        self.eth_down_token_id = None;
        self.btc_up_token_id = None;
        self.btc_down_token_id = None;
        self.last_market_refresh = None;
        self.current_period_timestamp = period_start(unix_secs);
    }

    /// Whether `unix_secs` lies in another period than the tracked markets.
    pub fn should_discover_new_markets(&self, unix_secs: u64) -> (r: bool)
        ensures
            r == (period_of(unix_secs) != self@.current_period_timestamp),
    {
        period_start(unix_secs) != self.current_period_timestamp
    }

    /// The condition identifiers of the two tracked markets.
    pub fn get_current_condition_ids(&self) -> (r: (String, String))
        ensures
            r.0 == self@.eth_market.condition_id,
            r.1 == self@.btc_market.condition_id,
    {
        (self.eth_market.condition_id.clone(), self.btc_market.condition_id.clone())
    }

    /// The pause between two polls, in milliseconds.
    pub fn check_interval_ms(&self) -> (r: u64)
        ensures
            r == self@.check_interval_ms,
    {
        self.check_interval_ms
    }

    /// The token identifiers as they are known now.
    pub fn token_ids(&self) -> (r: TokenIds)
        ensures
            r.eth_up == self@.eth_up_token_id,
            r.eth_down == self@.eth_down_token_id,
            r.btc_up == self@.btc_up_token_id,
            r.btc_down == self@.btc_down_token_id,
    {
        TokenIds {
            eth_up: clone_id(&self.eth_up_token_id),
            eth_down: clone_id(&self.eth_down_token_id),
            btc_up: clone_id(&self.btc_up_token_id),
            btc_down: clone_id(&self.btc_down_token_id),
        }
    }

    /// Whether the token identifiers must be resolved before the next
    /// snapshot.
    pub fn needs_token_refresh(&self, now_ms: u64) -> (r: bool)
        ensures
            r == refresh_due(self@.last_market_refresh, now_ms),
    {
        match self.last_market_refresh {
            None => true,
            Some(at) => elapsed_ms(at, now_ms) >= TOKEN_REFRESH_MS,
        }
    }

    /// Takes in the metadata of the two tracked markets, `None` for a market
    /// whose query failed. Where no refresh is due nothing changes; else
    /// the tokens are assigned anew and the refresh is dated `now_ms`.
    pub fn refresh_market_tokens(
        &mut self,
        eth_details: &Option<MarketDetails>,
        btc_details: &Option<MarketDetails>,
        now_ms: u64,
    )
        ensures
            final(self)@ == if refresh_due(old(self)@.last_market_refresh, now_ms) {
                old(self)@.with_details(*eth_details, *btc_details, now_ms)
            } else {
                old(self)@
            },
    {
        if !self.needs_token_refresh(now_ms) {
            return ;
        }
        match eth_details {
            Some(details) => {
                assign_tokens(&details.tokens, &mut self.eth_up_token_id, &mut self.eth_down_token_id);
            },
            None => {},
        }
        match btc_details {
            Some(details) => {
                assign_tokens(&details.tokens, &mut self.btc_up_token_id, &mut self.btc_down_token_id);
            },
            None => {},
        }
        self.last_market_refresh = Some(now_ms);
    }

    /// Assembles a snapshot from the quotes of the four tokens. A token
    /// whose identifier is unknown, or whose two queries both failed, has no
    /// entry.
    pub fn fetch_market_data(&self, quotes: &PriceQuotes, now_ms: u64) -> (r: MarketSnapshot)
        ensures
            r.timestamp == now_ms,
            r.eth_market.condition_id == self@.eth_market.condition_id,
            r.eth_market.market_name@ == "ETH"@,
            r.eth_market.up_token == token_price(self@.eth_up_token_id, quotes.eth_up),
            r.eth_market.down_token == token_price(self@.eth_down_token_id, quotes.eth_down),
            r.btc_market.condition_id == self@.btc_market.condition_id,
            r.btc_market.market_name@ == "BTC"@,
            r.btc_market.up_token == token_price(self@.btc_up_token_id, quotes.btc_up),
            r.btc_market.down_token == token_price(self@.btc_down_token_id, quotes.btc_down),
    {
        let eth_market_data = MarketData {
            condition_id: self.eth_market.condition_id.clone(),
            market_name: "ETH".to_owned(),
            up_token: fetch_token_price(&self.eth_up_token_id, quotes.eth_up),
            down_token: fetch_token_price(&self.eth_down_token_id, quotes.eth_down),
        };
        let btc_market_data = MarketData {
            condition_id: self.btc_market.condition_id.clone(),
            market_name: "BTC".to_owned(),
            up_token: fetch_token_price(&self.btc_up_token_id, quotes.btc_up),
            down_token: fetch_token_price(&self.btc_down_token_id, quotes.btc_down),
        };
        MarketSnapshot { eth_market: eth_market_data, btc_market: btc_market_data, timestamp: now_ms }
    }
}

} // verus!
