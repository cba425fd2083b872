//! Performance, health and usage figures for monitoring.
//!
//! Money is in millionths of a dollar, gas in millionths of an ether, ratios
//! in millionths, times in seconds since the Unix epoch.
use vstd::prelude::*;

use crate::fixed::{UNIT, floor_div};
use vstd::arithmetic::div_mod::lemma_fundamental_div_mod;

verus! {

proof fn lemma_div_bounds(a: int, b: int)
    requires
        b >= 1,
    ensures
        a >= 0 ==> 0 <= a / b <= a,
        a < 0 ==> a <= a / b < 0,
{
    lemma_fundamental_div_mod(a, b);
    assert(a >= 0 ==> 0 <= a / b <= a) by (nonlinear_arith)
        requires
            b >= 1,
            a == b * (a / b) + a % b,
            0 <= a % b < b,
    ;
    assert(a < 0 ==> a <= a / b < 0) by (nonlinear_arith)
        requires
            b >= 1,
            a == b * (a / b) + a % b,
            0 <= a % b < b,
    ;
}

/// How freely the agent trades, given the share of the allowance left.
#[derive(Debug, Clone, Copy, PartialEq, Eq, Structural)]
pub enum StrategyMode {
    Conservative,
    Normal,
    Aggressive,
}

impl StrategyMode {
    pub fn name(&self) -> (r: String)
        ensures
            r@ == match *self {
                StrategyMode::Conservative => "Conservative"@,
                StrategyMode::Normal => "Normal"@,
                StrategyMode::Aggressive => "Aggressive"@,
            },
    {
        match self {
            StrategyMode::Conservative => "Conservative".to_owned(),
            StrategyMode::Normal => "Normal".to_owned(),
            StrategyMode::Aggressive => "Aggressive".to_owned(),
        }
    }
}

/// The mode for `remaining` of `limit` left: conservative under 30%,
/// aggressive over 70%, normal otherwise (the share taken over the reals; a
/// zero limit leaves a negative remainder conservative and nothing normal).
pub open spec fn mode_for(remaining: int, limit: int) -> StrategyMode {
    if limit > 0 {
        if remaining * 10 < limit * 3 {
            StrategyMode::Conservative
        } else if remaining * 10 > limit * 7 {
            StrategyMode::Aggressive
        } else {
            StrategyMode::Normal
        }
    } else if remaining < 0 {
        StrategyMode::Conservative
    } else if remaining > 0 {
        StrategyMode::Aggressive
    } else {
        StrategyMode::Normal
    }
}

/// The largest amount the figures accept in one update; keeps every sum within
/// 64 bits for more trades than a lifetime holds.
pub const MAX_METRIC_AMOUNT: i64 = 1_000_000_000_000;

#[derive(Debug, Clone, Copy, PartialEq, Eq, Structural)]
pub struct AgentMetrics {
    // Performance
    pub trades_today: u32,
    pub trades_total: u64,
    pub winning_trades: u64,
    pub win_rate: u64,
    pub avg_profit_per_trade: i64,
    pub total_pnl: i64,
    pub daily_pnl: i64,
    pub sharpe_ratio: i64,
    // Health
    pub envio_latency_ms: u64,
    pub envio_uptime: u64,
    pub last_trade_time: Option<i64>,
    pub consecutive_failures: u32,
    pub is_safe_mode: bool,
    // Usage
    pub daily_spent: u64,
    pub daily_limit: u64,
    pub remaining_allowance: i64,
    pub strategy_mode: StrategyMode,
    // Costs
    pub gas_spent_eth: u64,
    pub gas_saved_vs_l1: u64,
    // System
    pub uptime_seconds: u64,
    pub last_updated: i64,
}

impl AgentMetrics {
    /// Fresh figures at time `now`: no trades, full uptime, a $10 allowance
    /// untouched, normal mode.
    pub fn initial(now: i64) -> (r: AgentMetrics)
        ensures
            r.trades_today == 0,
            r.trades_total == 0,
            r.winning_trades == 0,
            r.win_rate == 0,
            r.avg_profit_per_trade == 0,
            r.total_pnl == 0,
            r.daily_pnl == 0,
            r.sharpe_ratio == 0,
            r.envio_latency_ms == 0,
            r.envio_uptime == UNIT,
            r.last_trade_time is None,
            r.consecutive_failures == 0,
            !r.is_safe_mode,
            r.daily_spent == 0,
            r.daily_limit == 10 * UNIT,
            r.remaining_allowance == 10 * UNIT,
            r.strategy_mode == StrategyMode::Normal,
            r.gas_spent_eth == 0,
            r.gas_saved_vs_l1 == 0,
            r.uptime_seconds == 0,
            r.last_updated == now,
    {
        AgentMetrics {
            trades_today: 0,
            trades_total: 0,
            winning_trades: 0,
            win_rate: 0,
            avg_profit_per_trade: 0,
            total_pnl: 0,
            daily_pnl: 0,
            sharpe_ratio: 0,
            envio_latency_ms: 0,
            envio_uptime: UNIT,
            last_trade_time: None,
            consecutive_failures: 0,
            is_safe_mode: false,
            daily_spent: 0,
            daily_limit: 10 * UNIT,
            remaining_allowance: 10 * UNIT as i64,
            strategy_mode: StrategyMode::Normal,
            gas_spent_eth: 0,
            gas_saved_vs_l1: 0,
            uptime_seconds: 0,
            last_updated: now,
        }
    }

    /// Counts one trade with its profit and gas cost, at time `now`.
    pub fn record_trade(&mut self, profit: i64, gas_cost: u64, now: i64)
        requires
            old(self).winning_trades <= old(self).trades_total,
            old(self).trades_today < u32::MAX,
            old(self).trades_total < u64::MAX,
            i64::MIN <= old(self).total_pnl + profit <= i64::MAX,
            i64::MIN <= old(self).daily_pnl + profit <= i64::MAX,
            old(self).gas_spent_eth + gas_cost <= u64::MAX,
            old(self).gas_saved_vs_l1 + 9 * gas_cost <= u64::MAX,
        ensures
            final(self).winning_trades <= final(self).trades_total,
            ({
                let total = old(self).trades_total + 1;
                let wins = old(self).winning_trades + if profit > 0 {
                    1int
                } else {
                    0
                };
                let pnl = old(self).total_pnl + profit;
                *final(self) == AgentMetrics {
                    trades_today: (old(self).trades_today + 1) as u32,
                    trades_total: total as u64,
                    winning_trades: wins as u64,
                    win_rate: (wins * UNIT / total) as u64,
                    total_pnl: pnl as i64,
                    daily_pnl: (old(self).daily_pnl + profit) as i64,
                    avg_profit_per_trade: (pnl / total) as i64,
                    gas_spent_eth: (old(self).gas_spent_eth + gas_cost) as u64,
                    gas_saved_vs_l1: (old(self).gas_saved_vs_l1 + 9 * gas_cost) as u64,
                    last_trade_time: Some(now),
                    last_updated: now,
                    ..*old(self)
                }
            }),
    {
        self.trades_today = self.trades_today + 1;
        self.trades_total = self.trades_total + 1;
        self.total_pnl = self.total_pnl + profit;
        self.daily_pnl = self.daily_pnl + profit;
        self.gas_spent_eth = self.gas_spent_eth + gas_cost;
        self.last_trade_time = Some(now);
        if profit > 0 {
            self.winning_trades = self.winning_trades + 1;
        }
        let total = self.trades_total;
        let wins = self.winning_trades;
        proof {
            assert((wins as int) * (UNIT as int) / (total as int) <= UNIT) by (nonlinear_arith)
                requires
                    0 <= wins <= total,
                    total > 0,
            ;
        }
        self.win_rate = ((wins as u128) * (UNIT as u128) / (total as u128)) as u64;
        let pnl = self.total_pnl;
        proof {
            lemma_div_bounds(pnl as int, total as int);
        }
        self.avg_profit_per_trade = floor_div(pnl as i128, total as u128) as i64;
        self.gas_saved_vs_l1 = self.gas_saved_vs_l1 + gas_cost * 9;
        self.last_updated = now;
    }

    /// Notes a health probe's latency and outcome at time `now`.
    pub fn update_envio_health(&mut self, latency_ms: u64, is_healthy: bool, now: i64)
        requires
            !is_healthy ==> old(self).consecutive_failures < u32::MAX,
        ensures
            *final(self) == (AgentMetrics {
                envio_latency_ms: latency_ms,
                consecutive_failures: if is_healthy {
                    0
                } else {
                    (old(self).consecutive_failures + 1) as u32
                },
                last_updated: now,
                ..*old(self)
            }),
    {
        self.envio_latency_ms = latency_ms;
        if !is_healthy {
            self.consecutive_failures = self.consecutive_failures + 1;
        } else {
            self.consecutive_failures = 0;
        }
        self.last_updated = now;
    }

    /// Notes `amount` spent from the allowance at time `now`, and picks the
    /// strategy mode for what is left.
    pub fn update_spending(&mut self, amount: u64, now: i64)
        requires
            old(self).daily_spent + amount <= i64::MAX,
            old(self).daily_limit <= i64::MAX,
        ensures
            ({
                let spent = old(self).daily_spent + amount;
                let remaining = old(self).daily_limit - spent;
                *final(self) == AgentMetrics {
                    daily_spent: spent as u64,
                    remaining_allowance: remaining as i64,
                    strategy_mode: mode_for(remaining, old(self).daily_limit as int),
                    last_updated: now,
                    ..*old(self)
                }
            }),
    {
        self.daily_spent = self.daily_spent + amount;
        let remaining = (self.daily_limit as i64) - (self.daily_spent as i64);
        self.remaining_allowance = remaining;
        let limit = self.daily_limit as i128;
        let left = remaining as i128;
        self.strategy_mode = if limit > 0 {
            if left * 10 < limit * 3 {
                StrategyMode::Conservative
            } else if left * 10 > limit * 7 {
                StrategyMode::Aggressive
            } else {
                StrategyMode::Normal
            }
        } else if left < 0 {
            StrategyMode::Conservative
        } else if left > 0 {
            StrategyMode::Aggressive
        } else {
            StrategyMode::Normal
        };
        self.last_updated = now;
    }

    /// Turns safe mode on or off at time `now`.
    pub fn set_safe_mode(&mut self, enabled: bool, now: i64)
        ensures
            *final(self) == (AgentMetrics { is_safe_mode: enabled, last_updated: now, ..*old(self) }),
    {
        self.is_safe_mode = enabled;
        self.last_updated = now;
    }

    /// Starts a new day at time `now`: the day's trades, profit and spending
    /// go back to zero and the whole allowance is available again.
    pub fn reset_daily(&mut self, now: i64)
        requires
            old(self).daily_limit <= i64::MAX,
        ensures
            *final(self) == (AgentMetrics {
                trades_today: 0,
                daily_pnl: 0,
                daily_spent: 0,
                remaining_allowance: old(self).daily_limit as i64,
                last_updated: now,
                ..*old(self)
            }),
    {
        self.trades_today = 0;
        self.daily_pnl = 0;
        self.daily_spent = 0;
        self.remaining_allowance = self.daily_limit as i64;
        self.last_updated = now;
    }

    /// The figures as read at time `now` by a collector started at `start`.
    pub fn snapshot(&self, start: i64, now: i64) -> (r: AgentMetrics)
        requires
            start <= now,
        ensures
            r == (AgentMetrics { uptime_seconds: (now - start) as u64, ..*self }),
    {
        let mut m = *self;
        m.uptime_seconds = ((now as i128) - (start as i128)) as u64;
        m
    }
}

} // verus!
