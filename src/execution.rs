//! The execution simulator: fills an order against a depth-limited book, with
//! a latency cost and fees on top.
use vstd::prelude::*;

use crate::fixed::{BPS, MAX_PRICE, MAX_QTY, UNIT};
use crate::market::{OrderBook, PriceLevel, Side, levels_valid};

verus! {

/// Trading fees, in basis points of the notional.
#[derive(Debug, Clone, Copy)]
pub struct FeeModel {
    pub maker_fee_bps: u64,
    pub taker_fee_bps: u64,
}

impl FeeModel {
    /// A fee never exceeds the notional it is charged on.
    pub open spec fn wf(&self) -> bool {
        self.taker_fee_bps <= BPS
    }
}

/// The simulated network delay between quote and fill.
#[derive(Debug, Clone, Copy)]
pub struct LatencyModel {
    /// Delay between quote and fill, in milliseconds.
    pub delay_ms: u64,
    /// Fixed price drift added to every fill, in millionths.
    pub base_cost: u64,
    /// Standard deviation of the random adverse-selection drift, in millionths.
    pub adverse_selection_std: u64,
}

impl LatencyModel {
    pub fn new(delay_ms: u64, base_cost: u64, adverse_selection_std: u64) -> (r: LatencyModel)
        ensures
            r.delay_ms == delay_ms,
            r.base_cost == base_cost,
            r.adverse_selection_std == adverse_selection_std,
    {
        LatencyModel { delay_ms, base_cost, adverse_selection_std }
    }

    /// The fixed part of the drift is at most a whole price unit.
    pub open spec fn wf(&self) -> bool {
        self.base_cost <= UNIT
    }
}

/// The outcome of one simulated fill. Sizes are in millionths of a share,
/// prices and amounts in millionths of a dollar.
#[derive(Debug, Clone, Copy, PartialEq, Eq, Structural)]
pub struct ExecutionResult {
    pub filled_size: u64,
    pub execution_price: u64,
    pub total_cost: u64,
    pub fee_paid: u64,
}

/// The levels an order of `side` consumes: asks for a buy, bids for a sell.
pub open spec fn book_side(book: OrderBook, side: Side) -> Seq<PriceLevel> {
    if side == Side::Buy {
        book.asks@
    } else {
        book.bids@
    }
}

/// Walks `levels` in order, taking from each until `wanted` is met; gives the
/// size taken and the sum of size times price over what was taken.
pub open spec fn fill_of(levels: Seq<PriceLevel>, wanted: int) -> (int, int)
    decreases levels.len(),
{
    if levels.len() == 0 || wanted <= 0 {
        (0, 0)
    } else {
        let take = if wanted <= levels[0].size {
            wanted
        } else {
            levels[0].size as int
        };
        let rest = fill_of(levels.subrange(1, levels.len() as int), wanted - take);
        (take + rest.0, take * levels[0].price + rest.1)
    }
}

/// Value of `size` at `price`, both in millionths.
pub open spec fn notional_of(size: int, price: int) -> int {
    size * price / (UNIT as int)
}

/// A fee of `bps` basis points on `notional`.
pub open spec fn fee_of(notional: int, bps: int) -> int {
    notional * bps / (BPS as int)
}

/// Size-weighted average price of a walk, before latency.
pub open spec fn weighted_price(levels: Seq<PriceLevel>, wanted: int) -> int {
    fill_of(levels, wanted).1 / fill_of(levels, wanted).0
}

/// Fills an order against a book.
#[derive(Debug, Clone, Copy)]
pub struct ExecutionEngine {
    pub fee_model: FeeModel,
    pub latency_model: LatencyModel,
}

proof fn lemma_step_cost(take: int, price: int)
    requires
        0 <= take,
        0 <= price <= UNIT,
    ensures
        0 <= take * price <= take * UNIT,
{
    assert(0 <= take * price <= take * UNIT) by (nonlinear_arith)
        requires
            0 <= take,
            0 <= price <= UNIT,
    ;
}

impl ExecutionEngine {
    pub fn new(fee_model: FeeModel, latency_model: LatencyModel) -> (r: ExecutionEngine)
        ensures
            r.fee_model == fee_model,
            r.latency_model == latency_model,
    {
        ExecutionEngine { fee_model, latency_model }
    }

    pub open spec fn wf(&self) -> bool {
        self.fee_model.wf() && self.latency_model.wf()
    }

    /// The fill of `requested_size` on `side` of `book`, when the random
    /// adverse-selection drift came out as `draw`; `None` when nothing fills
    /// or the drift would push the price below zero.
    pub open spec fn execution_of(
        &self,
        book: OrderBook,
        requested_size: u64,
        side: Side,
        draw: i64,
    ) -> Option<ExecutionResult> {
        let levels = book_side(book, side);
        let filled = fill_of(levels, requested_size as int).0;
        if filled == 0 {
            None
        } else {
            let price = weighted_price(levels, requested_size as int) + self.latency_model.base_cost
                + draw;
            if price < 0 {
                None
            } else {
                let notional = notional_of(filled, price);
                let fee = fee_of(notional, self.fee_model.taker_fee_bps as int);
                Some(
                    ExecutionResult {
                        filled_size: filled as u64,
                        execution_price: price as u64,
                        total_cost: (notional + fee) as u64,
                        fee_paid: fee as u64,
                    },
                )
            }
        }
    }

    /// Simulates a taker order of `requested_size` on `side` of `book`.
    /// `draw` is the adverse-selection drift drawn for this fill.
    pub fn execute(&self, book: &OrderBook, requested_size: u64, side: Side, draw: i64) -> (r:
        Option<ExecutionResult>)
        requires
            self.wf(),
            book.wf(),
            requested_size <= MAX_QTY,
            -(UNIT as int) <= draw <= UNIT,
        ensures
            r == self.execution_of(*book, requested_size, side, draw),
            r matches Some(x) ==> {
                &&& 0 < x.filled_size <= requested_size
                &&& x.execution_price <= MAX_PRICE
                &&& x.fee_paid == fee_of(
                    notional_of(x.filled_size as int, x.execution_price as int),
                    self.fee_model.taker_fee_bps as int,
                )
                &&& x.total_cost == notional_of(x.filled_size as int, x.execution_price as int)
                    + x.fee_paid
            },
    {
        let levels = if side == Side::Buy {
            &book.asks
        } else {
            &book.bids
        };
        let ghost all = levels@;
        let mut remaining: u64 = requested_size;
        let mut filled: u64 = 0;
        let mut cost: u128 = 0;
        let mut i: usize = 0;
        assert(all.subrange(0, all.len() as int) =~= all);
        while i < levels.len() && remaining > 0
            invariant
                levels@ == all,
                all == book_side(*book, side),
                levels_valid(all),
                0 <= i <= all.len(),
                filled + remaining == requested_size,
                requested_size <= MAX_QTY,
                cost <= filled * UNIT,
                fill_of(all, requested_size as int) == (
                    filled + fill_of(all.subrange(i as int, all.len() as int), remaining as int).0,
                    cost + fill_of(all.subrange(i as int, all.len() as int), remaining as int).1,
                ),
            decreases all.len() - i,
        {
            let level = levels[i];
            let take: u64 = if remaining <= level.size {
                remaining
            } else {
                level.size
            };
            proof {
                let sub = all.subrange(i as int, all.len() as int);
                assert(sub[0] == level);
                assert(sub.subrange(1, sub.len() as int) =~= all.subrange(
                    i as int + 1,
                    all.len() as int,
                ));
                assert(level.price <= UNIT);
                lemma_step_cost(take as int, level.price as int);
            }
            cost = cost + (take as u128) * (level.price as u128);
            filled = filled + take;
            remaining = remaining - take;
            i = i + 1;
        }
        proof {
            let sub = all.subrange(i as int, all.len() as int);
            assert(fill_of(sub, remaining as int) == (0int, 0int));
        }
        if filled == 0 {
            return None;
        }
        let weighted: u128 = cost / (filled as u128);
        proof {
            assert(weighted <= UNIT) by (nonlinear_arith)
                requires
                    weighted == (cost as int) / (filled as int),
                    cost <= filled * UNIT,
                    filled > 0,
            ;
        }
        let price: i128 = (weighted as i128) + (self.latency_model.base_cost as i128) + (draw as i128);
        if price < 0 {
            return None;
        }
        let price: u64 = price as u64;
        proof {
            assert(filled * price <= MAX_QTY * (3 * UNIT)) by (nonlinear_arith)
                requires
                    filled <= MAX_QTY,
                    price <= 3 * UNIT,
            ;
        }
        let notional: u128 = (filled as u128) * (price as u128) / (UNIT as u128);
        proof {
            assert(notional <= 3 * MAX_QTY) by (nonlinear_arith)
                requires
                    notional == filled * price / (UNIT as int),
                    filled <= MAX_QTY,
                    price <= 3 * UNIT,
            ;
            assert(notional * self.fee_model.taker_fee_bps <= 3 * MAX_QTY * BPS) by (nonlinear_arith)
                requires
                    notional <= 3 * MAX_QTY,
                    self.fee_model.taker_fee_bps <= BPS,
                    notional >= 0,
            ;
        }
        let fee: u128 = notional * (self.fee_model.taker_fee_bps as u128) / (BPS as u128);
        proof {
            assert(fee <= notional) by (nonlinear_arith)
                requires
                    fee == notional * self.fee_model.taker_fee_bps / (BPS as int),
                    self.fee_model.taker_fee_bps <= BPS,
                    notional >= 0,
            ;
        }
        Some(
            ExecutionResult {
                filled_size: filled,
                execution_price: price,
                total_cost: (notional + fee) as u64,
                fee_paid: fee as u64,
            },
        )
    }
}

} // verus!
