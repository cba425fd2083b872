//! One trading cycle's bookkeeping: authorising a trade against the spend
//! budget and the risk limits, and settling a fill into the ledger and the
//! budget together.
use vstd::prelude::*;

use crate::execution::ExecutionResult;
use crate::fixed::{MAX_PRICE, MAX_QTY};
use crate::market::Side;
use crate::permission_guard::PermissionGuard;
use crate::positions::{Position, PositionManager};
use crate::risk::{RiskManager, TradeRejection};

verus! {

/// Why a candidate trade was skipped.
#[derive(Debug, Clone, Copy, PartialEq, Eq, Structural)]
pub enum TradeSkip {
    /// The daily allowance cannot cover the cost.
    InsufficientAllowance,
    /// The risk limits refuse the trade.
    Risk(TradeRejection),
}

/// The state that a cycle updates: the spend budget, the risk limits and
/// the ledger.
#[derive(Debug)]
pub struct TradingAgent {
    pub guard: PermissionGuard,
    pub risk: RiskManager,
    pub ledger: PositionManager,
}

impl TradingAgent {
    pub open spec fn wf(&self) -> bool {
        self.risk.wf() && self.ledger.wf()
    }

    pub fn new(guard: PermissionGuard, risk: RiskManager, ledger: PositionManager) -> (r:
        TradingAgent)
        ensures
            r.guard == guard,
            r.risk == risk,
            r.ledger == ledger,
    {
        TradingAgent { guard, risk, ledger }
    }

    /// Whether a trade of `size` costing `cost` in a market of `liquidity`
    /// may go ahead: the budget is asked first, then the risk limits.
    pub fn authorize(&self, cost: u64, size: u64, liquidity: u64) -> (r: Result<(), TradeSkip>)
        requires
            self.wf(),
        ensures
            r == (if self.guard.spent_today + cost > self.guard.daily_limit {
                Err(TradeSkip::InsufficientAllowance)
            } else {
                match self.risk.validate_trade_spec(size, liquidity) {
                    Ok(()) => Ok(()),
                    Err(e) => Err(TradeSkip::Risk(e)),
                }
            }),
    {
        if !self.guard.can_spend(cost) {
            return Err(TradeSkip::InsufficientAllowance);
        }
        match self.risk.validate_trade(size, liquidity) {
            Ok(()) => Ok(()),
            Err(e) => Err(TradeSkip::Risk(e)),
        }
    }

    /// Books a bought fill: opens its position and records its cost as spent,
    /// both or neither. Fails, changing nothing, when the allowance cannot
    /// cover the cost.
    pub fn settle_fill(
        &mut self,
        market_id: String,
        token_id: String,
        fill: ExecutionResult,
        now: u64,
        entry_spread: u64,
    ) -> (r: Result<(), TradeSkip>)
        requires
            old(self).wf(),
            fill.filled_size <= MAX_QTY,
            fill.execution_price <= MAX_PRICE,
        ensures
            final(self).wf(),
            final(self).risk == old(self).risk,
            final(self).ledger.config == old(self).ledger.config,
            final(self).ledger.closed@ == old(self).ledger.closed@,
            final(self).guard.daily_limit == old(self).guard.daily_limit,
            r is Ok <==> old(self).guard.spent_today + fill.total_cost <= old(self).guard.daily_limit,
            r is Err ==> r == Err::<(), TradeSkip>(TradeSkip::InsufficientAllowance)
                && final(self).guard == old(self).guard
                && final(self).ledger.open@ == old(self).ledger.open@,
            r is Ok ==> final(self).guard.spent_today == old(self).guard.spent_today + fill.total_cost
                && final(self).ledger.open@ == old(self).ledger.open@.push(
                Position {
                    market_id,
                    token_id,
                    side: Side::Buy,
                    size: fill.filled_size,
                    entry_price: fill.execution_price,
                    entry_time: now,
                    entry_spread,
                },
            ),
    {
        if !self.guard.can_spend(fill.total_cost) {
            return Err(TradeSkip::InsufficientAllowance);
        }
        let position = Position {
            market_id,
            token_id,
            side: Side::Buy,
            size: fill.filled_size,
            entry_price: fill.execution_price,
            entry_time: now,
            entry_spread,
        };
        let opened = self.ledger.open_position(position);
        assert(opened is Ok);
        self.guard.record_spend(fill.total_cost);
        Ok(())
    }
}

} // verus!
