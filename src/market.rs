//! Market snapshots and order books as handed to the library each cycle.
use vstd::prelude::*;

use crate::fixed::UNIT;

verus! {

/// The most outcomes a market may list; keeps every price sum within 64 bits.
pub const MAX_OUTCOMES: usize = 1_000_000;

/// Direction of an order or a position.
#[derive(Debug, Clone, Copy, PartialEq, Eq, Structural)]
pub enum Side {
    Buy,
    Sell,
}

/// One market as seen in a single cycle: an outcome-price vector (each price
/// in `0..=UNIT`) and the token id of each outcome.
#[derive(Debug, Clone)]
pub struct Market {
    pub id: String,
    pub question: String,
    pub slug: String,
    pub outcomes: Vec<String>,
    pub outcome_prices: Vec<u64>,
    pub clob_token_ids: Vec<String>,
    /// Taker fee in basis points.
    pub taker_base_fee: u64,
    /// Liquidity in millionths of a dollar.
    pub liquidity: u64,
    pub active: bool,
    pub accepting_orders: bool,
}

/// Sum of a price vector.
pub open spec fn price_sum(prices: Seq<u64>) -> int
    decreases prices.len(),
{
    if prices.len() == 0 {
        0
    } else {
        price_sum(prices.drop_last()) + prices.last()
    }
}

/// Distance of a bundle's total price from the one-dollar payout.
pub open spec fn spread_of(prices: Seq<u64>) -> int {
    let s = price_sum(prices);
    if s >= UNIT {
        s - UNIT
    } else {
        UNIT - s
    }
}

/// Every price lies in `0..=UNIT` and the vector is of a representable size.
pub open spec fn prices_valid(prices: Seq<u64>) -> bool {
    &&& prices.len() <= MAX_OUTCOMES
    &&& forall|i: int| 0 <= i < prices.len() ==> prices[i] <= UNIT
}

impl Market {
    pub open spec fn wf(&self) -> bool {
        prices_valid(self.outcome_prices@)
    }

    /// Sum of the outcome prices.
    pub fn price_total(&self) -> (r: u64)
        requires
            self.wf(),
        ensures
            r == price_sum(self.outcome_prices@),
    {
        let prices = &self.outcome_prices;
        let mut sum: u64 = 0;
        let mut i: usize = 0;
        while i < prices.len()
            invariant
                prices_valid(prices@),
                0 <= i <= prices.len(),
                sum == price_sum(prices@.subrange(0, i as int)),
                sum <= i * UNIT,
            decreases prices.len() - i,
        {
            assert(prices@.subrange(0, i as int + 1).drop_last() =~= prices@.subrange(0, i as int));
            sum = sum + prices[i];
            i = i + 1;
        }
        assert(prices@.subrange(0, i as int) =~= prices@);
        sum
    }
}

/// Smallest number of outcome tokens a tradable listing has.
pub const MIN_TOKENS: usize = 2;

/// Default taker fee of a new listing, in basis points.
pub const DEFAULT_TAKER_FEE_BPS: u64 = 200;

impl Market {
    /// A market from a listing, priced at an even split until its books are
    /// read; `None` when the listing has fewer than two tokens to trade.
    pub fn from_listing(
        id: String,
        question: String,
        slug: String,
        outcomes: Vec<String>,
        clob_token_ids: Vec<String>,
    ) -> (r: Option<Market>)
        ensures
            clob_token_ids@.len() < MIN_TOKENS ==> r is None,
            clob_token_ids@.len() >= MIN_TOKENS ==> (r matches Some(m) && {
                &&& m.wf()
                &&& m.id == id
                &&& m.question == question
                &&& m.slug == slug
                &&& m.outcomes@ == outcomes@
                &&& m.clob_token_ids@ == clob_token_ids@
                &&& m.outcome_prices@ == seq![UNIT / 2, UNIT / 2]
                &&& m.taker_base_fee == DEFAULT_TAKER_FEE_BPS
                &&& m.liquidity == 0
                &&& m.active
                &&& m.accepting_orders
            }),
    {
        if clob_token_ids.len() < MIN_TOKENS {
            return None;
        }
        let outcome_prices = vec![UNIT / 2, UNIT / 2];
        assert(outcome_prices@ == seq![UNIT / 2, UNIT / 2]);
        Some(
            Market {
                id,
                question,
                slug,
                outcomes,
                outcome_prices,
                clob_token_ids,
                taker_base_fee: DEFAULT_TAKER_FEE_BPS,
                liquidity: 0,
                active: true,
                accepting_orders: true,
            },
        )
    }

    /// Replaces the outcome prices with freshly read ones, when there is one
    /// positive price for each outcome; otherwise keeps the old prices.
    pub fn apply_prices(&mut self, prices: Vec<u64>) -> (r: bool)
        requires
            old(self).wf(),
            prices_valid(prices@),
        ensures
            final(self).wf(),
            r == (prices@.len() == old(self).outcomes@.len() && forall|i: int|
                0 <= i < prices@.len() ==> prices@[i] > 0),
            r ==> *final(self) == (Market { outcome_prices: prices, ..*old(self) }),
            !r ==> *final(self) == *old(self),
    {
        if prices.len() != self.outcomes.len() || !all_positive(&prices) {
            return false;
        }
        self.outcome_prices = prices;
        true
    }
}

fn all_positive(prices: &Vec<u64>) -> (r: bool)
    ensures
        r == forall|i: int| 0 <= i < prices@.len() ==> prices@[i] > 0,
{
    let mut i: usize = 0;
    while i < prices.len()
        invariant
            0 <= i <= prices@.len(),
            forall|k: int| 0 <= k < i ==> prices@[k] > 0,
        decreases prices@.len() - i,
    {
        if prices[i] == 0 {
            return false;
        }
        i = i + 1;
    }
    true
}

/// One price level of a book: a price in `0..=UNIT` and a size in millionths of a share.
#[derive(Debug, Clone, Copy, PartialEq, Eq, Structural)]
pub struct PriceLevel {
    pub price: u64,
    pub size: u64,
}

/// An order book for one outcome token: bids best (highest) first, asks best
/// (lowest) first.
#[derive(Debug, Clone)]
pub struct OrderBook {
    pub token_id: String,
    pub bids: Vec<PriceLevel>,
    pub asks: Vec<PriceLevel>,
    pub timestamp: u64,
}

/// Every level's price lies in `0..=UNIT`.
pub open spec fn levels_valid(levels: Seq<PriceLevel>) -> bool {
    forall|i: int| 0 <= i < levels.len() ==> levels[i].price <= UNIT
}

impl OrderBook {
    pub open spec fn wf(&self) -> bool {
        levels_valid(self.bids@) && levels_valid(self.asks@)
    }

    /// Halfway between the best bid and the best ask, rounded down; `None`
    /// when either side is empty.
    pub fn midpoint(&self) -> (r: Option<u64>)
        ensures
            (self.bids@.len() == 0 || self.asks@.len() == 0) ==> r is None,
            (self.bids@.len() > 0 && self.asks@.len() > 0) ==> r == Some(
                ((self.bids@[0].price + self.asks@[0].price) / 2) as u64,
            ),
    {
        if self.bids.len() == 0 || self.asks.len() == 0 {
            return None;
        }
        Some((((self.bids[0].price as u128) + (self.asks[0].price as u128)) / 2) as u64)
    }
}

} // verus!
