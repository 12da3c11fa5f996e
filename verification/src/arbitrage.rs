//! The opportunity detector: a pure rule over one snapshot of quoted prices.

use crate::decimal::{decimal_checked_difference, decimal_checked_sum, Amount};
use crate::models::{ArbitrageOpportunity, TokenPrice};
use crate::monitor::MarketSnapshot;
use vstd::prelude::*;

verus! {

/// The ask below which a leg counts as priced for an adverse outcome: 0.6.
pub open spec fn price_floor() -> Amount {
    Amount::of(6, 1)
}

/// What one winning token pays when its market resolves: 1.0.
pub open spec fn payout() -> Amount {
    Amount::of(10, 1)
}

/// The threshold used where none is configured: 0.01.
pub open spec fn default_threshold() -> Amount {
    Amount::of(1, 2)
}

/// The summed cost of a pairing, where the pairing passes the safety filter
/// and costs less than it pays: `total` is the sum as it was computed, `None`
/// where it overflowed.
pub open spec fn accepted_cost(ask1: Amount, ask2: Amount, total: Option<Amount>) -> Option<Amount> {
    if ask1.lt(price_floor()) && ask2.lt(price_floor()) {
        None
    } else {
        match total {
            Some(t) if t.lt(payout()) => Some(t),
            _ => None,
        }
    }
}

/// The expected profit of a pairing, where it reaches the threshold: `profit`
/// is the difference as it was computed, `None` where it overflowed.
pub open spec fn accepted_profit(threshold: Amount, profit: Option<Amount>) -> Option<Amount> {
    match profit {
        Some(p) if threshold.le(p) => Some(p),
        _ => None,
    }
}

/// The cost and the expected profit of buying one token at `ask1` and one at
/// `ask2`, where the pairing is worth taking.
pub open spec fn pairing_quote(ask1: Amount, ask2: Amount, threshold: Amount) -> Option<(Amount, Amount)> {
    match accepted_cost(ask1, ask2, decimal_checked_sum(ask1, ask2)) {
        Some(total) => match accepted_profit(threshold, decimal_checked_difference(payout(), total)) {
            Some(profit) => Some((total, profit)),
            None => None,
        },
        None => None,
    }
}

/// The opportunity that two quoted legs give, if any: both asks must be
/// quoted and the pairing must be worth taking.
pub open spec fn pairing_opportunity(
    token1: TokenPrice,
    token2: TokenPrice,
    condition1: String,
    condition2: String,
    threshold: Amount,
) -> Option<ArbitrageOpportunity> {
    match (token1.ask, token2.ask) {
        (Some(ask1), Some(ask2)) => match pairing_quote(ask1, ask2, threshold) {
            Some((total, profit)) => Some(
                ArbitrageOpportunity {
                    eth_up_price: ask1,
                    btc_down_price: ask2,
                    total_cost: total,
                    expected_profit: profit,
                    eth_up_token_id: token1.token_id,
                    btc_down_token_id: token2.token_id,
                    eth_condition_id: condition1,
                    btc_condition_id: condition2,
                },
            ),
            None => None,
        },
        _ => None,
    }
}

/// The opportunity of one directional pairing of a snapshot: a leg that has
/// no price entry makes the pairing unavailable.
pub open spec fn leg_pairing(
    leg1: Option<TokenPrice>,
    leg2: Option<TokenPrice>,
    condition1: String,
    condition2: String,
    threshold: Amount,
) -> Option<ArbitrageOpportunity> {
    match (leg1, leg2) {
        (Some(token1), Some(token2)) => pairing_opportunity(token1, token2, condition1, condition2, threshold),
        _ => None,
    }
}

/// Zero or one opportunity, as a sequence.
pub open spec fn emitted(found: Option<ArbitrageOpportunity>) -> Seq<ArbitrageOpportunity> {
    match found {
        Some(opportunity) => seq![opportunity],
        None => Seq::empty(),
    }
}

/// Everything the detector reports for a snapshot: the first market's "up"
/// leg with the second market's "down" leg, then the reverse.
pub open spec fn snapshot_opportunities(snapshot: MarketSnapshot, threshold: Amount) -> Seq<
    ArbitrageOpportunity,
> {
    emitted(
        leg_pairing(
            snapshot.eth_market.up_token,
            snapshot.btc_market.down_token,
            snapshot.eth_market.condition_id,
            snapshot.btc_market.condition_id,
            threshold,
        ),
    ) + emitted(
        leg_pairing(
            snapshot.eth_market.down_token,
            snapshot.btc_market.up_token,
            snapshot.eth_market.condition_id,
            snapshot.btc_market.condition_id,
            threshold,
        ),
    )
}

/// A pairing with both asks quoted, at least one of them at or above the
/// floor, a summed cost below the payout and an expected profit that reaches
/// the threshold gives exactly one opportunity, which carries the two asks,
/// that cost and that profit. With an expected profit below the threshold it
/// gives none.
pub proof fn lemma_profitable_pairing_is_emitted(
    token1: TokenPrice,
    token2: TokenPrice,
    condition1: String,
    condition2: String,
    threshold: Amount,
    ask1: Amount,
    ask2: Amount,
    total: Amount,
    profit: Amount,
)
    requires
        token1.ask == Some(ask1),
        token2.ask == Some(ask2),
        price_floor().le(ask1) || price_floor().le(ask2),
        decimal_checked_sum(ask1, ask2) == Some(total),
        total.lt(payout()),
        decimal_checked_difference(payout(), total) == Some(profit),
    ensures
        threshold.le(profit) ==> emitted(
            pairing_opportunity(token1, token2, condition1, condition2, threshold),
        ) == seq![
            ArbitrageOpportunity {
                eth_up_price: ask1,
                btc_down_price: ask2,
                total_cost: total,
                expected_profit: profit,
                eth_up_token_id: token1.token_id,
                btc_down_token_id: token2.token_id,
                eth_condition_id: condition1,
                btc_condition_id: condition2,
            },
        ],
        profit.lt(threshold) ==> emitted(
            pairing_opportunity(token1, token2, condition1, condition2, threshold),
        ) == Seq::<ArbitrageOpportunity>::empty(),
{
}

/// An opportunity is only ever given for two quoted asks that are not both
/// below the floor; it carries their sum, which is below the payout, and
/// the payout less that sum, which reaches the threshold.
pub proof fn lemma_emitted_pairing_is_profitable(
    token1: TokenPrice,
    token2: TokenPrice,
    condition1: String,
    condition2: String,
    threshold: Amount,
)
    requires
        pairing_opportunity(token1, token2, condition1, condition2, threshold) is Some,
    ensures
        ({
            let found = pairing_opportunity(token1, token2, condition1, condition2, threshold)->0;
            &&& token1.ask == Some(found.eth_up_price)
            &&& token2.ask == Some(found.btc_down_price)
            &&& price_floor().le(found.eth_up_price) || price_floor().le(found.btc_down_price)
            &&& decimal_checked_sum(found.eth_up_price, found.btc_down_price) == Some(found.total_cost)
            &&& found.total_cost.lt(payout())
            &&& decimal_checked_difference(payout(), found.total_cost) == Some(found.expected_profit)
            &&& threshold.le(found.expected_profit)
            &&& found.eth_up_token_id == token1.token_id
            &&& found.btc_down_token_id == token2.token_id
            &&& found.eth_condition_id == condition1
            &&& found.btc_condition_id == condition2
        }),
{
}

/// Where both asks are below the floor, the pairing gives no opportunity,
/// whatever the two add up to.
pub proof fn lemma_both_below_floor_is_rejected(
    token1: TokenPrice,
    token2: TokenPrice,
    condition1: String,
    condition2: String,
    threshold: Amount,
    ask1: Amount,
    ask2: Amount,
)
    requires
        token1.ask == Some(ask1),
        token2.ask == Some(ask2),
        ask1.lt(price_floor()),
        ask2.lt(price_floor()),
    ensures
        pairing_opportunity(token1, token2, condition1, condition2, threshold) is None,
{
}

/// Where either leg has no quoted ask, the pairing gives no opportunity.
pub proof fn lemma_missing_ask_is_skipped(
    token1: TokenPrice,
    token2: TokenPrice,
    condition1: String,
    condition2: String,
    threshold: Amount,
)
    requires
        token1.ask is None || token2.ask is None,
    ensures
        pairing_opportunity(token1, token2, condition1, condition2, threshold) is None,
{
}

/// A snapshot in which every pairing lacks a leg, or a leg's ask, gives no
/// opportunity at all.
pub proof fn lemma_unquoted_snapshot_is_empty(snapshot: MarketSnapshot, threshold: Amount)
    requires
        snapshot.eth_market.up_token matches Some(t) ==> t.ask is None,
        snapshot.eth_market.down_token matches Some(t) ==> t.ask is None,
    ensures
        snapshot_opportunities(snapshot, threshold) == Seq::<ArbitrageOpportunity>::empty(),
{
}

/// The rule's constants stand in the order it relies on: the floor is
/// below the payout, two asks at the floor already cost more than the
/// payout, and the default threshold is above zero. The floor itself is
/// not below the floor, at whatever scale it is quoted: 0.59 is, 0.60 is
/// not.
pub proof fn lemma_rule_constants_are_ordered()
    ensures
        price_floor().lt(payout()),
        payout().lt(Amount::of(12, 1)),
        Amount::of(0, 2).lt(default_threshold()),
        Amount::of(59, 2).lt(price_floor()),
        !Amount::of(60, 2).lt(price_floor()),
        !price_floor().lt(price_floor()),
{
    broadcast use Amount::lemma_of_parts;

    price_floor().lemma_lt_one_digit_apart(Amount::of(59, 2));
    price_floor().lemma_lt_one_digit_apart(Amount::of(60, 2));
}

/// Evaluates quoted prices against the profitability rule. It holds no state
/// but the configured threshold.
#[derive(Clone, Copy, Debug)]
pub struct ArbitrageDetector {
    min_profit_threshold: Amount,
}

impl ArbitrageDetector {
    /// The least expected profit for which an opportunity is reported.
    pub closed spec fn threshold(self) -> Amount {
        self.min_profit_threshold
    }

    /// A detector with the given threshold; where the configuration gave no
    /// usable number, the threshold is 0.01.
    pub fn new(min_profit_threshold: Option<Amount>) -> (r: Self)
        ensures
            r.threshold() == match min_profit_threshold {
                Some(t) => t,
                None => default_threshold(),
            },
    {
        ArbitrageDetector {
            min_profit_threshold: match min_profit_threshold {
                Some(t) => t,
                None => Amount::from_i64(1, 2),
            },
        }
    }

    /// The configured threshold.
    pub fn min_profit_threshold(&self) -> (r: Amount)
        ensures
            r == self.threshold(),
    {
        self.min_profit_threshold
    }

    /// Judges the summed cost of a pairing once it has been computed.
    pub fn accept_cost(ask1: Amount, ask2: Amount, total: Option<Amount>) -> (r: Option<Amount>)
        ensures
            r == accepted_cost(ask1, ask2, total),
    {
        let floor = Amount::from_i64(6, 1);
        if ask1.is_less_than(&floor) && ask2.is_less_than(&floor) {
            return None;
        }
        match total {
            Some(t) => {
                if t.is_less_than(&Amount::from_i64(10, 1)) {
                    Some(t)
                } else {
                    None
                }
            },
            None => None,
        }
    }

    /// Judges the expected profit of a pairing once it has been computed.
    pub fn accept_profit(&self, profit: Option<Amount>) -> (r: Option<Amount>)
        ensures
            r == accepted_profit(self.threshold(), profit),
    {
        match profit {
            Some(p) => {
                if p.is_at_least(&self.min_profit_threshold) {
                    Some(p)
                } else {
                    None
                }
            },
            None => None,
        }
    }

    /// The opportunity in buying `token1` and `token2` together, if there is one.
    pub fn check_arbitrage(
        &self,
        token1: &TokenPrice,
        token2: &TokenPrice,
        condition1: &String,
        condition2: &String,
    ) -> (r: Option<ArbitrageOpportunity>)
        ensures
            r == pairing_opportunity(*token1, *token2, *condition1, *condition2, self.threshold()),
    {
        let (price1, price2) = match (token1.ask_price(), token2.ask_price()) {
            (Some(ask1), Some(ask2)) => (ask1, ask2),
            _ => { return None; },
        };
        let total_cost = match Self::accept_cost(price1, price2, price1.checked_add(price2)) {
            Some(t) => t,
            None => { return None; },
        };
        let dollar = Amount::from_i64(10, 1);
        let expected_profit = match self.accept_profit(dollar.checked_sub(total_cost)) {
            Some(p) => p,
            None => { return None; },
        };
        Some(
            ArbitrageOpportunity {
                eth_up_price: price1,
                btc_down_price: price2,
                total_cost,
                expected_profit,
                eth_up_token_id: token1.token_id.clone(),
                btc_down_token_id: token2.token_id.clone(),
                eth_condition_id: condition1.clone(),
                btc_condition_id: condition2.clone(),
            },
        )
    }

    /// The opportunities of a snapshot: at most one for each of the two
    /// directional pairings, in that order.
    pub fn detect_opportunities(&self, snapshot: &MarketSnapshot) -> (r: Vec<ArbitrageOpportunity>)
        ensures
            r@ == snapshot_opportunities(*snapshot, self.threshold()),
    {
        let mut opportunities: Vec<ArbitrageOpportunity> = Vec::new();
        match (&snapshot.eth_market.up_token, &snapshot.btc_market.down_token) {
            (Some(eth_up_price), Some(btc_down_price)) => {
                match self.check_arbitrage(
                    eth_up_price,
                    btc_down_price,
                    &snapshot.eth_market.condition_id,
                    &snapshot.btc_market.condition_id,
                ) {
                    Some(opportunity) => { opportunities.push(opportunity); },
                    None => {},
                }
            },
            _ => {},
        }
        match (&snapshot.eth_market.down_token, &snapshot.btc_market.up_token) {
            (Some(eth_down_price), Some(btc_up_price)) => {
                match self.check_arbitrage(
                    eth_down_price,
                    btc_up_price,
                    &snapshot.eth_market.condition_id,
                    &snapshot.btc_market.condition_id,
                ) {
                    Some(opportunity) => { opportunities.push(opportunity); },
                    None => {},
                }
            },
            _ => {},
        }
        assert(opportunities@ =~= snapshot_opportunities(*snapshot, self.threshold()));
        opportunities
    }
}

} // verus!
