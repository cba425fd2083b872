//! The risk manager: running balance, drawdown, loss streaks and volatility,
//! deciding whether new trades may open.
use vstd::prelude::*;

use crate::fixed::{UNIT, floor_div, isqrt};

verus! {

/// Most trades kept for the volatility estimate.
pub const MAX_RECENT_TRADES: usize = 100;

/// Largest profit or loss of one trade that the risk manager records, in millionths
/// of a dollar (a hundred thousand dollars); keeps the volatility arithmetic
/// exact in 128 bits.
pub const MAX_TRADE_PNL: i64 = 100_000_000_000;

/// Limits of the risk manager. Ratios are in millionths (`UNIT` is 100%),
/// amounts in millionths of a dollar.
#[derive(Debug, Clone, Copy, PartialEq, Eq, Structural)]
pub struct RiskConfig {
    /// Largest allowed fall from the peak balance, as a fraction of the peak.
    pub max_drawdown: u64,
    /// Largest allowed loss within one day.
    pub max_daily_loss: u64,
    /// Losing trades in a row that halt trading.
    pub max_consecutive_losses: u32,
    /// Largest allowed standard deviation of recent returns.
    pub volatility_threshold: u64,
    /// Least market liquidity a trade needs.
    pub min_liquidity: u64,
    /// Largest size of one position.
    pub max_position_size: u64,
}

impl Default for RiskConfig {
    /// 20% drawdown, $50 daily loss, 5 losses in a row, 15% volatility,
    /// $1000 liquidity, $100 positions.
    fn default() -> (r: RiskConfig)
        ensures
            r.max_drawdown == 200_000,
            r.max_daily_loss == 50 * UNIT,
            r.max_consecutive_losses == 5,
            r.volatility_threshold == 150_000,
            r.min_liquidity == 1000 * UNIT,
            r.max_position_size == 100 * UNIT,
    {
        RiskConfig {
            max_drawdown: 200_000,
            max_daily_loss: 50 * UNIT,
            max_consecutive_losses: 5,
            volatility_threshold: 150_000,
            min_liquidity: 1000 * UNIT,
            max_position_size: 100 * UNIT,
        }
    }
}

/// Why trading is halted.
#[derive(Debug, Clone, Copy, PartialEq, Eq, Structural)]
pub enum HaltReason {
    CircuitBreaker,
    MaxDrawdown,
    DailyLoss,
    ConsecutiveLosses,
    Volatility,
}

pub open spec fn halt_message(r: HaltReason) -> Seq<char> {
    match r {
        HaltReason::CircuitBreaker => "Circuit breaker activated"@,
        HaltReason::MaxDrawdown => "Max drawdown exceeded"@,
        HaltReason::DailyLoss => "Daily loss limit hit"@,
        HaltReason::ConsecutiveLosses => "Too many consecutive losses"@,
        HaltReason::Volatility => "Market too volatile"@,
    }
}

impl HaltReason {
    /// A human-readable description of the reason.
    pub fn message(&self) -> (r: String)
        ensures
            r@ == halt_message(*self),
    {
        match self {
            HaltReason::CircuitBreaker => "Circuit breaker activated".to_owned(),
            HaltReason::MaxDrawdown => "Max drawdown exceeded".to_owned(),
            HaltReason::DailyLoss => "Daily loss limit hit".to_owned(),
            HaltReason::ConsecutiveLosses => "Too many consecutive losses".to_owned(),
            HaltReason::Volatility => "Market too volatile".to_owned(),
        }
    }
}

/// Why a trade was refused.
#[derive(Debug, Clone, Copy, PartialEq, Eq, Structural)]
pub enum TradeRejection {
    PositionTooLarge,
    InsufficientLiquidity,
    Halted(HaltReason),
}

/// Sum of a sequence of amounts.
pub open spec fn sum_of(s: Seq<i64>) -> int
    decreases s.len(),
{
    if s.len() == 0 {
        0
    } else {
        sum_of(s.drop_last()) + s.last()
    }
}

/// Sum of the squares of a sequence of amounts.
pub open spec fn sum_sq_of(s: Seq<i64>) -> int
    decreases s.len(),
{
    if s.len() == 0 {
        0
    } else {
        sum_sq_of(s.drop_last()) + s.last() * s.last()
    }
}

/// The fall from `peak` to `balance`, as a fraction of `peak`, exceeds
/// `limit / UNIT` (the quotient taken over the reals, with a zero peak
/// giving an infinite fall when the balance is below it).
pub open spec fn drawdown_exceeded(peak: int, balance: int, limit: int) -> bool {
    if peak > 0 {
        (peak - balance) * UNIT > limit * peak
    } else if peak < 0 {
        (peak - balance) * UNIT < limit * peak
    } else {
        peak - balance > 0
    }
}

/// `n * sum(p^2) - sum(p)^2`: `n^2` times the variance of `pnls`.
pub open spec fn dispersion_of(pnls: Seq<i64>) -> int {
    pnls.len() * sum_sq_of(pnls) - sum_of(pnls) * sum_of(pnls)
}

/// The standard deviation of the returns `pnl / balance` over `pnls` exceeds
/// `limit / UNIT`. Its variance is
/// `(n * sum(p^2) - sum(p)^2) / (n^2 * balance^2)`; a zero balance gives no
/// defined return.
pub open spec fn volatility_exceeded(pnls: Seq<i64>, balance: int, limit: int) -> bool {
    let n = pnls.len() as int;
    &&& balance != 0
    &&& dispersion_of(pnls) * (UNIT * UNIT) > (limit * n
        * balance) * (limit * n * balance)
}

/// The recent-trade window after `pnl` is recorded: appended, and the oldest
/// dropped once more than `MAX_RECENT_TRADES` are held.
pub open spec fn recent_after(recent: Seq<i64>, pnl: i64) -> Seq<i64> {
    let s = recent.push(pnl);
    if s.len() > MAX_RECENT_TRADES {
        s.subrange(1, s.len() as int)
    } else {
        s
    }
}

proof fn lemma_sqrt_of_quotient(l: int, m: int, q: int, v: int)
    requires
        l >= 0,
        m > 0,
        q == l / m,
        v >= 0,
        v * v <= q < (v + 1) * (v + 1),
    ensures
        v * v * m <= l < (v + 1) * (v + 1) * m,
{
    vstd::arithmetic::div_mod::lemma_fundamental_div_mod(l, m);
    assert(v * v * m <= l < (v + 1) * (v + 1) * m) by (nonlinear_arith)
        requires
            m > 0,
            l == m * q + l % m,
            0 <= l % m < m,
            v * v <= q,
            q + 1 <= (v + 1) * (v + 1),
    ;
}

pub open spec fn pnl_bounded(pnls: Seq<i64>) -> bool {
    forall|i: int| 0 <= i < pnls.len() ==> -MAX_TRADE_PNL <= #[trigger] pnls[i] <= MAX_TRADE_PNL
}

/// Running risk state and the limits it is checked against. Balances are in
/// millionths of a dollar.
#[derive(Debug, Clone)]
pub struct RiskManager {
    pub config: RiskConfig,
    pub peak_balance: i64,
    pub current_balance: i64,
    pub daily_loss: u64,
    pub consecutive_losses: u32,
    /// Profit or loss of the latest trades, oldest first.
    pub recent_trades: Vec<i64>,
    pub circuit_breaker: bool,
}

/// Fall from the peak as a fraction of a positive peak, in millionths
/// rounded down; zero when the peak is not positive.
pub open spec fn drawdown_of(peak: int, balance: int) -> int {
    if peak > 0 {
        (peak - balance) * UNIT / peak
    } else {
        0
    }
}

/// `v` is the standard deviation of the returns `pnl / balance`, in
/// millionths rounded down: `v^2 * (n * balance)^2 <= dispersion * UNIT^2`
/// and `(v + 1)^2` exceeds it; zero with no trades or a zero balance.
pub open spec fn is_volatility_of(v: int, pnls: Seq<i64>, balance: int) -> bool {
    let n = pnls.len() as int;
    let l = if dispersion_of(pnls) > 0 {
        dispersion_of(pnls) * (UNIT * UNIT)
    } else {
        0
    };
    let m = (n * balance) * (n * balance);
    if n == 0 || balance == 0 {
        v == 0
    } else {
        v * v * m <= l < (v + 1) * (v + 1) * m
    }
}

/// What the risk manager reports to a status reader.
#[derive(Debug, Clone)]
pub struct RiskStatus {
    pub current_balance: i64,
    pub peak_balance: i64,
    /// Fall from the peak, in millionths of the peak.
    pub drawdown: i128,
    /// Standard deviation of recent returns, in millionths.
    pub volatility: u128,
    pub daily_loss: u64,
    pub consecutive_losses: u32,
    pub is_halted: bool,
    pub halt_reason: Option<HaltReason>,
    pub circuit_breaker: bool,
}

impl RiskManager {
    pub open spec fn wf(&self) -> bool {
        &&& self.recent_trades@.len() <= MAX_RECENT_TRADES
        &&& pnl_bounded(self.recent_trades@)
    }

    /// The first halt condition that holds, in order of precedence.
    pub open spec fn halt_reason(&self) -> Option<HaltReason> {
        if self.circuit_breaker {
            Some(HaltReason::CircuitBreaker)
        } else if drawdown_exceeded(
            self.peak_balance as int,
            self.current_balance as int,
            self.config.max_drawdown as int,
        ) {
            Some(HaltReason::MaxDrawdown)
        } else if self.daily_loss > self.config.max_daily_loss {
            Some(HaltReason::DailyLoss)
        } else if self.consecutive_losses >= self.config.max_consecutive_losses {
            Some(HaltReason::ConsecutiveLosses)
        } else if volatility_exceeded(
            self.recent_trades@,
            self.current_balance as int,
            self.config.volatility_threshold as int,
        ) {
            Some(HaltReason::Volatility)
        } else {
            None
        }
    }

    /// A risk manager with the given limits, starting at `initial_balance`.
    pub fn new(config: RiskConfig, initial_balance: i64) -> (r: RiskManager)
        ensures
            r.wf(),
            r.config == config,
            r.peak_balance == initial_balance,
            r.current_balance == initial_balance,
            r.daily_loss == 0,
            r.consecutive_losses == 0,
            r.recent_trades@ == Seq::<i64>::empty(),
            !r.circuit_breaker,
    {
        RiskManager {
            config,
            peak_balance: initial_balance,
            current_balance: initial_balance,
            daily_loss: 0,
            consecutive_losses: 0,
            recent_trades: Vec::new(),
            circuit_breaker: false,
        }
    }

    fn drawdown_too_deep(&self) -> (r: bool)
        ensures
            r == drawdown_exceeded(
                self.peak_balance as int,
                self.current_balance as int,
                self.config.max_drawdown as int,
            ),
    {
        let peak = self.peak_balance as i128;
        let fall = peak - (self.current_balance as i128);
        let limit = self.config.max_drawdown as i128;
        let unit = UNIT as i128;
        proof {
            assert(-0x1_0000_0000_0000_0000_0000_0000 <= fall * unit <= 0x1_0000_0000_0000_0000_0000_0000)
                by (nonlinear_arith)
                requires
                    -0x1_0000_0000_0000_0000 <= fall <= 0x1_0000_0000_0000_0000,
                    unit == 1_000_000,
            ;
            assert(-0x7FFF_FFFF_FFFF_FFFF_8000_0000_0000_0000 <= limit * peak
                <= 0x7FFF_FFFF_FFFF_FFFF_8000_0000_0000_0000) by (nonlinear_arith)
                requires
                    0 <= limit <= 0xFFFF_FFFF_FFFF_FFFF,
                    -0x8000_0000_0000_0000 <= peak <= 0x8000_0000_0000_0000,
            ;
        }
        if peak > 0 {
            fall * unit > limit * peak
        } else if peak < 0 {
            fall * unit < limit * peak
        } else {
            fall > 0
        }
    }

    /// `n * sum(p^2) - sum(p)^2` over the recent trades.
    fn dispersion(&self) -> (r: i128)
        requires
            self.wf(),
        ensures
            r == dispersion_of(self.recent_trades@),
            -100_000_000_000_000_000_000_000_000 <= r <= 100_000_000_000_000_000_000_000_000,
    {
        let trades = &self.recent_trades;
        let n = trades.len();
        let mut sum: i128 = 0;
        let mut sum_sq: i128 = 0;
        let mut i: usize = 0;
        while i < n
            invariant
                n == trades@.len(),
                n <= MAX_RECENT_TRADES,
                pnl_bounded(trades@),
                0 <= i <= n,
                sum == sum_of(trades@.subrange(0, i as int)),
                sum_sq == sum_sq_of(trades@.subrange(0, i as int)),
                -(i * 100_000_000_000) <= sum <= i * 100_000_000_000,
                0 <= sum_sq <= i * 10_000_000_000_000_000_000_000,
            decreases n - i,
        {
            let p = trades[i];
            proof {
                let pre = trades@.subrange(0, i as int + 1);
                assert(pre.drop_last() =~= trades@.subrange(0, i as int));
                assert(pre.last() == p);
                assert(-MAX_TRADE_PNL <= p <= MAX_TRADE_PNL);
                assert(0 <= p * p <= 10_000_000_000_000_000_000_000) by (nonlinear_arith)
                    requires
                        -100_000_000_000 <= p <= 100_000_000_000,
                ;
            }
            sum = sum + (p as i128);
            sum_sq = sum_sq + (p as i128) * (p as i128);
            i = i + 1;
        }
        assert(trades@.subrange(0, n as int) =~= trades@);
        let nn = n as i128;
        proof {
            assert(nn * sum_sq <= 100_000_000_000_000_000_000_000_000) by (nonlinear_arith)
                requires
                    0 <= nn <= 100,
                    0 <= sum_sq <= nn * 10_000_000_000_000_000_000_000,
            ;
            assert(sum * sum <= 100_000_000_000_000_000_000_000_000) by (nonlinear_arith)
                requires
                    0 <= nn <= 100,
                    -(nn * 100_000_000_000) <= sum <= nn * 100_000_000_000,
            ;
            assert(0 <= nn * sum_sq) by (nonlinear_arith)
                requires
                    0 <= nn,
                    0 <= sum_sq,
            ;
            assert(0 <= sum * sum) by (nonlinear_arith);
        }
        nn * sum_sq - sum * sum
    }

    /// Standard deviation of recent returns, in millionths rounded down.
    fn volatility(&self) -> (r: u128)
        requires
            self.wf(),
        ensures
            is_volatility_of(r as int, self.recent_trades@, self.current_balance as int),
    {
        let n = self.recent_trades.len();
        let d = self.dispersion();
        let balance = self.current_balance;
        if n == 0 || balance == 0 {
            return 0;
        }
        let l: u128 = if d > 0 {
            (d as u128) * ((UNIT as u128) * (UNIT as u128))
        } else {
            0
        };
        let magnitude: u128 = if balance < 0 {
            (-(balance as i128)) as u128
        } else {
            balance as u128
        };
        let bound: u128 = 0x1_0000_0000_0000_0000;
        proof {
            assert(l < bound * bound) by (nonlinear_arith)
                requires
                    l == (if d > 0 { d * (UNIT * UNIT) } else { 0 }),
                    d <= 100_000_000_000_000_000_000_000_000,
                    bound == 0x1_0000_0000_0000_0000,
            ;
            assert(magnitude * n <= 0x8000_0000_0000_0000 * 100) by (nonlinear_arith)
                requires
                    0 <= magnitude <= 0x8000_0000_0000_0000,
                    0 <= n <= 100,
            ;
        }
        let x: u128 = magnitude * (n as u128);
        proof {
            assert((n * balance) * (n * balance) == x * x) by (nonlinear_arith)
                requires
                    x == magnitude * n,
                    magnitude == balance || magnitude == -balance,
            ;
        }
        if x >= bound {
            proof {
                assert(0 * 0 * (x * x) <= l < 1 * 1 * (x * x)) by (nonlinear_arith)
                    requires
                        x >= bound,
                        l < bound * bound,
                        l >= 0,
                ;
            }
            return 0;
        }
        proof {
            assert(x * x < bound * bound) by (nonlinear_arith)
                requires
                    0 <= x < bound,
            ;
            assert(x > 0) by (nonlinear_arith)
                requires
                    x == magnitude * n,
                    magnitude > 0,
                    n > 0,
            ;
            assert(x * x > 0) by (nonlinear_arith)
                requires
                    x > 0,
            ;
        }
        let m = x * x;
        let q = l / m;
        let v = isqrt(q);
        proof {
            lemma_sqrt_of_quotient(l as int, m as int, q as int, v as int);
        }
        v
    }

    /// Whether recent returns are more volatile than the configured limit.
    fn too_volatile(&self) -> (r: bool)
        requires
            self.wf(),
        ensures
            r == volatility_exceeded(
                self.recent_trades@,
                self.current_balance as int,
                self.config.volatility_threshold as int,
            ),
    {
        let n = self.recent_trades.len();
        let spread = self.dispersion();
        let balance = self.current_balance;
        if balance == 0 {
            return false;
        }
        let nn = n as i128;
        if spread <= 0 {
            proof {
                let lim = self.config.volatility_threshold as int;
                let b = balance as int;
                assert(0 <= (lim * nn * b) * (lim * nn * b)) by (nonlinear_arith);
                assert(spread * (UNIT * UNIT) <= 0) by (nonlinear_arith)
                    requires
                        spread <= 0,
                ;
            }
            return false;
        }
        let lhs: u128 = (spread as u128) * ((UNIT as u128) * (UNIT as u128));
        let magnitude: u128 = if balance < 0 {
            (-(balance as i128)) as u128
        } else {
            balance as u128
        };
        let limit = self.config.volatility_threshold as u128;
        proof {
            assert(limit * magnitude <= 0x7FFF_FFFF_FFFF_FFFF_8000_0000_0000_0000) by (nonlinear_arith)
                requires
                    0 <= limit <= 0xFFFF_FFFF_FFFF_FFFF,
                    0 <= magnitude <= 0x8000_0000_0000_0000,
            ;
        }
        let scaled = limit * magnitude;
        assert(scaled == limit * magnitude);
        let bound: u128 = 0x1_0000_0000_0000_0000;
        proof {
            assert(lhs < bound * bound) by (nonlinear_arith)
                requires
                    lhs == spread * (UNIT * UNIT),
                    0 < spread <= 100_000_000_000_000_000_000_000_000,
                    bound == 0x1_0000_0000_0000_0000,
            ;
        }
        if scaled >= bound {
            proof {
                let x = limit * nn * magnitude;
                assert(x * x >= bound * bound) by (nonlinear_arith)
                    requires
                        x == limit * nn * magnitude,
                        limit * magnitude >= bound,
                        nn >= 1,
                        bound > 0,
                ;
                assert((limit * nn * balance) * (limit * nn * balance) == x * x) by (nonlinear_arith)
                    requires
                        x == limit * nn * magnitude,
                        magnitude == balance || magnitude == -balance,
                ;
            }
            return false;
        }
        proof {
            assert(scaled * nn < bound * 100) by (nonlinear_arith)
                requires
                    0 <= scaled < bound,
                    0 <= nn <= 100,
            ;
        }
        let x: u128 = scaled * (n as u128);
        if x >= bound {
            proof {
                assert(x * x >= bound * bound) by (nonlinear_arith)
                    requires
                        x >= bound,
                        bound > 0,
                ;
                assert((limit * nn * balance) * (limit * nn * balance) == x * x) by (nonlinear_arith)
                    requires
                        x == limit * magnitude * nn,
                        magnitude == balance || magnitude == -balance,
                ;
            }
            return false;
        }
        proof {
            assert(x * x < bound * bound) by (nonlinear_arith)
                requires
                    0 <= x < bound,
            ;
            assert((limit * nn * balance) * (limit * nn * balance) == x * x) by (nonlinear_arith)
                requires
                    x == limit * magnitude * nn,
                    magnitude == balance || magnitude == -balance,
            ;
        }
        lhs > x * x
    }

    /// Whether trading must stop, and the first reason that holds, in the
    /// order: circuit breaker, drawdown, daily loss, loss streak, volatility.
    pub fn should_halt(&self) -> (r: (bool, Option<HaltReason>))
        requires
            self.wf(),
        ensures
            r == (self.halt_reason().is_some(), self.halt_reason()),
    {
        if self.circuit_breaker {
            return (true, Some(HaltReason::CircuitBreaker));
        }
        if self.drawdown_too_deep() {
            return (true, Some(HaltReason::MaxDrawdown));
        }
        if self.daily_loss > self.config.max_daily_loss {
            return (true, Some(HaltReason::DailyLoss));
        }
        if self.consecutive_losses >= self.config.max_consecutive_losses {
            return (true, Some(HaltReason::ConsecutiveLosses));
        }
        if self.too_volatile() {
            return (true, Some(HaltReason::Volatility));
        }
        (false, None)
    }

    /// The verdict on a trade of `trade_size` in a market of `market_liquidity`.
    pub open spec fn validate_trade_spec(&self, trade_size: u64, market_liquidity: u64) -> Result<
        (),
        TradeRejection,
    > {
        if trade_size > self.config.max_position_size {
            Err(TradeRejection::PositionTooLarge)
        } else if market_liquidity < self.config.min_liquidity {
            Err(TradeRejection::InsufficientLiquidity)
        } else {
            match self.halt_reason() {
                Some(h) => Err(TradeRejection::Halted(h)),
                None => Ok(()),
            }
        }
    }

    /// Checks a prospective trade of `trade_size` in a market of
    /// `market_liquidity`: size first, then liquidity, then the halt state.
    pub fn validate_trade(&self, trade_size: u64, market_liquidity: u64) -> (r: Result<
        (),
        TradeRejection,
    >)
        requires
            self.wf(),
        ensures
            r == self.validate_trade_spec(trade_size, market_liquidity),
    {
        if trade_size > self.config.max_position_size {
            return Err(TradeRejection::PositionTooLarge);
        }
        if market_liquidity < self.config.min_liquidity {
            return Err(TradeRejection::InsufficientLiquidity);
        }
        match self.should_halt() {
            (true, Some(reason)) => Err(TradeRejection::Halted(reason)),
            _ => Ok(()),
        }
    }

    /// Whether `record_trade(pnl)` stays within the counters' ranges.
    pub fn can_record(&self, pnl: i64) -> (r: bool)
        ensures
            r == ({
                &&& -MAX_TRADE_PNL <= pnl <= MAX_TRADE_PNL
                &&& i64::MIN <= self.current_balance + pnl <= i64::MAX
                &&& pnl < 0 ==> self.daily_loss - pnl <= u64::MAX
                &&& pnl < 0 ==> self.consecutive_losses < u32::MAX
            }),
    {
        let balance = (self.current_balance as i128) + (pnl as i128);
        let in_range = -(MAX_TRADE_PNL as i128) <= (pnl as i128) && (pnl as i128) <= (MAX_TRADE_PNL as i128)
            && (i64::MIN as i128) <= balance && balance <= (i64::MAX as i128);
        if pnl < 0 {
            in_range && (self.daily_loss as i128) - (pnl as i128) <= (u64::MAX as i128)
                && self.consecutive_losses < u32::MAX
        } else {
            in_range
        }
    }

    /// Records the realised profit or loss of one trade as a single update.
    pub fn record_trade(&mut self, pnl: i64)
        requires
            old(self).wf(),
            -MAX_TRADE_PNL <= pnl <= MAX_TRADE_PNL,
            i64::MIN <= old(self).current_balance + pnl <= i64::MAX,
            pnl < 0 ==> old(self).daily_loss - pnl <= u64::MAX,
            pnl < 0 ==> old(self).consecutive_losses < u32::MAX,
        ensures
            final(self).wf(),
            final(self).config == old(self).config,
            final(self).circuit_breaker == old(self).circuit_breaker,
            final(self).current_balance == old(self).current_balance + pnl,
            final(self).peak_balance == (if final(self).current_balance > old(self).peak_balance {
                final(self).current_balance
            } else {
                old(self).peak_balance
            }),
            final(self).daily_loss == (if pnl < 0 {
                old(self).daily_loss - pnl
            } else {
                old(self).daily_loss as int
            }),
            final(self).consecutive_losses == (if pnl < 0 {
                old(self).consecutive_losses + 1
            } else {
                0
            }),
            final(self).recent_trades@ == recent_after(old(self).recent_trades@, pnl),
    {
        self.current_balance = self.current_balance + pnl;
        if self.current_balance > self.peak_balance {
            self.peak_balance = self.current_balance;
        }
        if pnl < 0 {
            self.daily_loss = self.daily_loss + ((0 - (pnl as i128)) as u64);
            self.consecutive_losses = self.consecutive_losses + 1;
        } else {
            self.consecutive_losses = 0;
        }
        let ghost before = self.recent_trades@;
        self.recent_trades.push(pnl);
        if self.recent_trades.len() > MAX_RECENT_TRADES {
            self.recent_trades.remove(0);
            assert(self.recent_trades@ =~= before.push(pnl).subrange(1, before.len() as int + 1));
        }
        assert(pnl_bounded(self.recent_trades@));
    }

    /// Clears the day's loss; nothing else changes.
    pub fn reset_daily(&mut self)
        ensures
            *final(self) == (RiskManager { daily_loss: 0, ..*old(self) }),
    {
        self.daily_loss = 0;
    }

    /// Halts all new trading until the breaker is cleared.
    pub fn activate_circuit_breaker(&mut self)
        ensures
            *final(self) == (RiskManager { circuit_breaker: true, ..*old(self) }),
    {
        self.circuit_breaker = true;
    }

    /// Clears the circuit breaker.
    pub fn deactivate_circuit_breaker(&mut self)
        ensures
            *final(self) == (RiskManager { circuit_breaker: false, ..*old(self) }),
    {
        self.circuit_breaker = false;
    }

    /// A consistent copy of the risk state for a status reader.
    pub fn get_status(&self) -> (r: RiskStatus)
        requires
            self.wf(),
        ensures
            r.current_balance == self.current_balance,
            r.peak_balance == self.peak_balance,
            r.drawdown == drawdown_of(self.peak_balance as int, self.current_balance as int),
            is_volatility_of(r.volatility as int, self.recent_trades@, self.current_balance as int),
            r.daily_loss == self.daily_loss,
            r.consecutive_losses == self.consecutive_losses,
            r.is_halted == self.halt_reason().is_some(),
            r.halt_reason == self.halt_reason(),
            r.circuit_breaker == self.circuit_breaker,
    {
        let (is_halted, halt_reason) = self.should_halt();
        let drawdown: i128 = if self.peak_balance > 0 {
            let fall = (self.peak_balance as i128) - (self.current_balance as i128);
            proof {
                assert(-0x1_0000_0000_0000_0000_0000_0000 <= fall * UNIT <= 0x1_0000_0000_0000_0000_0000_0000)
                    by (nonlinear_arith)
                    requires
                        -0x1_0000_0000_0000_0000 <= fall <= 0x1_0000_0000_0000_0000,
                ;
            }
            floor_div(fall * (UNIT as i128), self.peak_balance as u128)
        } else {
            0
        };
        let volatility = self.volatility();
        RiskStatus {
            current_balance: self.current_balance,
            peak_balance: self.peak_balance,
            drawdown,
            volatility,
            daily_loss: self.daily_loss,
            consecutive_losses: self.consecutive_losses,
            is_halted,
            halt_reason,
            circuit_breaker: self.circuit_breaker,
        }
    }
}

} // verus!
