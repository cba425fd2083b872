//! The signal detector: flags bundles whose total price strays from one dollar.
use vstd::prelude::*;

use crate::fixed::UNIT;
use crate::market::{Market, Side, price_sum, spread_of};

verus! {

/// A mispriced bundle. `spread` and `edge` are in millionths of a dollar.
#[derive(Debug, Clone)]
pub struct ArbitrageSignal {
    pub market_id: String,
    pub spread: u64,
    pub edge: u64,
    pub recommended_side: Side,
}

/// The signal that a market gives under `threshold`, if any: the spread must
/// exceed the threshold; a bundle under one dollar is bought, one over is sold.
pub open spec fn signal_of(m: Market, threshold: u64) -> Option<ArbitrageSignal> {
    let spread = spread_of(m.outcome_prices@);
    if spread <= threshold {
        None
    } else {
        Some(
            ArbitrageSignal {
                market_id: m.id,
                spread: spread as u64,
                edge: spread as u64,
                recommended_side: if price_sum(m.outcome_prices@) < UNIT {
                    Side::Buy
                } else {
                    Side::Sell
                },
            },
        )
    }
}

/// The signals of `markets`, in their order.
pub open spec fn signals_of(markets: Seq<Market>, threshold: u64) -> Seq<ArbitrageSignal>
    decreases markets.len(),
{
    if markets.len() == 0 {
        Seq::empty()
    } else {
        let rest = signals_of(markets.drop_last(), threshold);
        match signal_of(markets.last(), threshold) {
            Some(s) => rest.push(s),
            None => rest,
        }
    }
}

pub open spec fn all_wf(markets: Seq<Market>) -> bool {
    forall|i: int| 0 <= i < markets.len() ==> #[trigger] markets[i].wf()
}

/// Binary-market constraint checker.
#[derive(Debug, Clone)]
pub struct ConstraintChecker {
    /// Smallest spread that is not yet a signal, in millionths.
    pub min_spread_threshold: u64,
}

impl ConstraintChecker {
    pub fn new(min_spread_threshold: u64) -> (r: ConstraintChecker)
        ensures
            r.min_spread_threshold == min_spread_threshold,
    {
        ConstraintChecker { min_spread_threshold }
    }

    /// The signal for one market, if its spread exceeds the threshold.
    pub fn check_violation(&self, market: &Market) -> (r: Option<ArbitrageSignal>)
        requires
            market.wf(),
        ensures
            r == signal_of(*market, self.min_spread_threshold),
            r is Some <==> spread_of(market.outcome_prices@) > self.min_spread_threshold,
            r matches Some(s) ==> {
                &&& s.spread == spread_of(market.outcome_prices@)
                &&& s.edge == s.spread
                &&& (s.recommended_side == Side::Buy <==> price_sum(market.outcome_prices@) < UNIT)
            },
    {
        let sum = market.price_total();
        let spread: u64 = if sum >= UNIT {
            sum - UNIT
        } else {
            UNIT - sum
        };
        if spread <= self.min_spread_threshold {
            return None;
        }
        let recommended_side = if sum < UNIT {
            Side::Buy
        } else {
            Side::Sell
        };
        Some(
            ArbitrageSignal {
                market_id: market.id.clone(),
                spread,
                edge: spread,
                recommended_side,
            },
        )
    }

    /// The signals of all markets, in market order.
    pub fn scan(&self, markets: &Vec<Market>) -> (r: Vec<ArbitrageSignal>)
        requires
            all_wf(markets@),
        ensures
            r@ == signals_of(markets@, self.min_spread_threshold),
    {
        let mut out: Vec<ArbitrageSignal> = Vec::new();
        let mut i: usize = 0;
        while i < markets.len()
            invariant
                all_wf(markets@),
                0 <= i <= markets.len(),
                out@ == signals_of(markets@.subrange(0, i as int), self.min_spread_threshold),
            decreases markets.len() - i,
        {
            let ghost pre = markets@.subrange(0, i as int + 1);
            assert(pre.drop_last() =~= markets@.subrange(0, i as int));
            assert(pre.last() == markets@[i as int]);
            assert(markets@[i as int].wf());
            match self.check_violation(&markets[i]) {
                Some(s) => out.push(s),
                None => {},
            }
            i = i + 1;
        }
        assert(markets@.subrange(0, i as int) =~= markets@);
        out
    }
}

} // verus!
