//! The position ledger: open positions, their exits, and trade statistics.
use vstd::prelude::*;

use crate::constraint::all_wf;
use crate::execution::{fee_of, notional_of};
use crate::fixed::{BPS, MAX_PRICE, MAX_QTY, UNIT};
use crate::market::{Market, Side, spread_of};

verus! {

/// Why a position was closed.
#[derive(Debug, Clone, Copy, PartialEq, Eq, Structural)]
pub enum ExitReason {
    TakeProfit,
    StopLoss,
    Timeout,
}

/// Why a position could not be opened.
#[derive(Debug, Clone, Copy, PartialEq, Eq, Structural)]
pub enum PositionError {
    /// Selling a bundle has no execution semantics yet.
    UnsupportedSide,
}

/// A holding of one outcome token. Size is in millionths of a share, prices
/// and the entry spread in millionths of a dollar, times in seconds.
#[derive(Debug)]
pub struct Position {
    pub market_id: String,
    pub token_id: String,
    pub side: Side,
    pub size: u64,
    pub entry_price: u64,
    pub entry_time: u64,
    pub entry_spread: u64,
}

impl Position {
    pub open spec fn wf(&self) -> bool {
        self.size <= MAX_QTY && self.entry_price <= MAX_PRICE
    }

    /// An identical copy of the position.
    pub fn duplicate(&self) -> (r: Position)
        ensures
            r == *self,
    {
        Position {
            market_id: self.market_id.clone(),
            token_id: self.token_id.clone(),
            side: self.side,
            size: self.size,
            entry_price: self.entry_price,
            entry_time: self.entry_time,
            entry_spread: self.entry_spread,
        }
    }
}

/// A closed position with the reason it closed and its realised profit or
/// loss, in millionths of a dollar.
#[derive(Debug)]
pub struct ExitRecord {
    pub position: Position,
    pub reason: ExitReason,
    pub pnl: i64,
}

impl ExitRecord {
    /// An identical copy of the record.
    pub fn duplicate(&self) -> (r: ExitRecord)
        ensures
            r == *self,
    {
        ExitRecord { position: self.position.duplicate(), reason: self.reason, pnl: self.pnl }
    }
}

/// When positions close. Spreads are in millionths of a dollar.
#[derive(Debug, Clone, Copy, PartialEq, Eq, Structural)]
pub struct ExitConfig {
    /// Narrowing of the spread since entry that takes profit.
    pub profit_target_spread: u64,
    /// Widening of the spread since entry that stops the loss.
    pub stop_loss_spread: u64,
    /// Age at which a position is closed regardless of price.
    pub position_timeout_secs: u64,
}

impl ExitConfig {
    /// Profit at 0.5% narrowing, stop at 2% widening, timeout after an hour.
    pub fn default_config() -> (r: ExitConfig)
        ensures
            r.profit_target_spread == 5_000,
            r.stop_loss_spread == 20_000,
            r.position_timeout_secs == 3600,
    {
        ExitConfig { profit_target_spread: 5_000, stop_loss_spread: 20_000, position_timeout_secs: 3600 }
    }
}

/// Index of the first market from `j` on whose id is `id`, or -1.
pub open spec fn market_index_from(markets: Seq<Market>, id: Seq<char>, j: int) -> int
    decreases markets.len() - j,
{
    if j < 0 || j >= markets.len() {
        -1
    } else if markets[j].id@ == id {
        j
    } else {
        market_index_from(markets, id, j + 1)
    }
}

/// Index of the first token id from `j` on that is `token`, or -1.
pub open spec fn token_index_from(ids: Seq<String>, token: Seq<char>, j: int) -> int
    decreases ids.len() - j,
{
    if j < 0 || j >= ids.len() {
        -1
    } else if ids[j]@ == token {
        j
    } else {
        token_index_from(ids, token, j + 1)
    }
}

/// Current spread of the position's market, if the snapshot has the market.
pub open spec fn current_spread(p: Position, markets: Seq<Market>) -> Option<int> {
    let mi = market_index_from(markets, p.market_id@, 0);
    if mi >= 0 {
        Some(spread_of(markets[mi].outcome_prices@))
    } else {
        None
    }
}

/// The price at which the position is marked on exit: its token's price in
/// the snapshot, or the entry price when the snapshot does not quote it.
pub open spec fn exit_price_of(p: Position, markets: Seq<Market>) -> int {
    let mi = market_index_from(markets, p.market_id@, 0);
    if mi >= 0 {
        let m = markets[mi];
        let ti = token_index_from(m.clob_token_ids@, p.token_id@, 0);
        if 0 <= ti < m.outcome_prices@.len() {
            m.outcome_prices@[ti] as int
        } else {
            p.entry_price as int
        }
    } else {
        p.entry_price as int
    }
}

/// The first exit trigger that fires: take-profit, stop-loss, then timeout.
pub open spec fn exit_reason_of(p: Position, markets: Seq<Market>, now: u64, cfg: ExitConfig) -> Option<
    ExitReason,
> {
    let cs = current_spread(p, markets);
    if cs is Some && p.entry_spread - cs->0 >= cfg.profit_target_spread {
        Some(ExitReason::TakeProfit)
    } else if cs is Some && cs->0 - p.entry_spread >= cfg.stop_loss_spread {
        Some(ExitReason::StopLoss)
    } else if now >= p.entry_time + cfg.position_timeout_secs {
        Some(ExitReason::Timeout)
    } else {
        None
    }
}

/// Realised profit of closing `p` at `exit_price`: exit value less entry
/// cost, less the taker fee of `fee_bps` on the exit value.
pub open spec fn pnl_of(p: Position, exit_price: int, fee_bps: int) -> int {
    let exit_value = notional_of(p.size as int, exit_price);
    exit_value - notional_of(p.size as int, p.entry_price as int) - fee_of(exit_value, fee_bps)
}

/// The open positions that stay open after an exit check.
pub open spec fn kept_after(open: Seq<Position>, markets: Seq<Market>, now: u64, cfg: ExitConfig) -> Seq<
    Position,
>
    decreases open.len(),
{
    if open.len() == 0 {
        Seq::empty()
    } else {
        let rest = kept_after(open.drop_last(), markets, now, cfg);
        if exit_reason_of(open.last(), markets, now, cfg) is None {
            rest.push(open.last())
        } else {
            rest
        }
    }
}

/// The records an exit check produces, in the order of the open positions.
pub open spec fn closed_by(
    open: Seq<Position>,
    markets: Seq<Market>,
    now: u64,
    cfg: ExitConfig,
    fee_bps: u64,
) -> Seq<ExitRecord>
    decreases open.len(),
{
    if open.len() == 0 {
        Seq::empty()
    } else {
        let rest = closed_by(open.drop_last(), markets, now, cfg, fee_bps);
        let p = open.last();
        match exit_reason_of(p, markets, now, cfg) {
            Some(reason) => rest.push(
                ExitRecord {
                    position: p,
                    reason,
                    pnl: pnl_of(p, exit_price_of(p, markets), fee_bps as int) as i64,
                },
            ),
            None => rest,
        }
    }
}

/// Sum of the records' profit or loss.
pub open spec fn total_pnl_of(records: Seq<ExitRecord>) -> int
    decreases records.len(),
{
    if records.len() == 0 {
        0
    } else {
        total_pnl_of(records.drop_last()) + records.last().pnl
    }
}

/// Number of records with a profit.
pub open spec fn wins_of(records: Seq<ExitRecord>) -> int
    decreases records.len(),
{
    if records.len() == 0 {
        0
    } else {
        wins_of(records.drop_last()) + if records.last().pnl > 0 {
            1int
        } else {
            0
        }
    }
}

/// Share of records with a profit, in millionths rounded down; zero for none.
pub open spec fn win_rate_of(records: Seq<ExitRecord>) -> int {
    if records.len() == 0 {
        0
    } else {
        wins_of(records) * UNIT / records.len() as int
    }
}

proof fn lemma_wins_bounded(records: Seq<ExitRecord>)
    ensures
        0 <= wins_of(records) <= records.len(),
    decreases records.len(),
{
    if records.len() > 0 {
        lemma_wins_bounded(records.drop_last());
    }
}

/// Largest size of one recorded profit or loss.
pub open spec fn max_record_pnl() -> int {
    6 * MAX_QTY
}

pub open spec fn positions_wf(open: Seq<Position>) -> bool {
    forall|i: int| 0 <= i < open.len() ==> #[trigger] open[i].wf()
}

pub open spec fn records_wf(closed: Seq<ExitRecord>) -> bool {
    forall|i: int|
        0 <= i < closed.len() ==> -max_record_pnl() <= #[trigger] closed[i].pnl <= max_record_pnl()
}

/// Owns the open and closed positions.
#[derive(Debug)]
pub struct PositionManager {
    pub config: ExitConfig,
    pub open: Vec<Position>,
    pub closed: Vec<ExitRecord>,
}


proof fn lemma_sums_append(before: Seq<ExitRecord>, added: Seq<ExitRecord>)
    ensures
        total_pnl_of(before + added) == total_pnl_of(before) + total_pnl_of(added),
        wins_of(before + added) == wins_of(before) + wins_of(added),
    decreases added.len(),
{
    if added.len() > 0 {
        lemma_sums_append(before, added.drop_last());
        assert((before + added).drop_last() =~= before + added.drop_last());
    } else {
        assert(before + added =~= before);
    }
}

/// An exit check counts the profit or loss of each position it closes once:
/// the ledger's total afterwards is the total before plus the sum over the
/// new records, and its win count grows by the new records with a profit.
pub proof fn lemma_exit_pnl_counted_once(
    ledger: PositionManager,
    markets: Seq<Market>,
    now: u64,
    exit_fee_bps: u64,
)
    ensures
        ({
            let added = closed_by(ledger.open@, markets, now, ledger.config, exit_fee_bps);
            &&& total_pnl_of(ledger.closed@ + added) == total_pnl_of(ledger.closed@)
                + total_pnl_of(added)
            &&& wins_of(ledger.closed@ + added) == wins_of(ledger.closed@) + wins_of(added)
            &&& win_rate_of(ledger.closed@ + added) == if ledger.closed@.len() + added.len() == 0 {
                0
            } else {
                (wins_of(ledger.closed@) + wins_of(added)) * UNIT / (ledger.closed@.len()
                    + added.len()) as int
            }
        }),
{
    let added = closed_by(ledger.open@, markets, now, ledger.config, exit_fee_bps);
    lemma_sums_append(ledger.closed@, added);
}

/// Running an exit check a second time on the same snapshot at the same time
/// closes nothing more: the open set stays as the first check left it and no
/// records are added.
pub proof fn lemma_check_exits_idempotent(
    open: Seq<Position>,
    markets: Seq<Market>,
    now: u64,
    cfg: ExitConfig,
    exit_fee_bps: u64,
)
    ensures
        kept_after(kept_after(open, markets, now, cfg), markets, now, cfg) == kept_after(
            open,
            markets,
            now,
            cfg,
        ),
        closed_by(kept_after(open, markets, now, cfg), markets, now, cfg, exit_fee_bps)
            == Seq::<ExitRecord>::empty(),
    decreases open.len(),
{
    if open.len() > 0 {
        let rest = kept_after(open.drop_last(), markets, now, cfg);
        lemma_check_exits_idempotent(open.drop_last(), markets, now, cfg, exit_fee_bps);
        if exit_reason_of(open.last(), markets, now, cfg) is None {
            let k = rest.push(open.last());
            assert(k.drop_last() =~= rest);
            assert(k.last() == open.last());
        }
    }
}

fn find_market(markets: &Vec<Market>, id: &String) -> (r: usize)
    ensures
        market_index_from(markets@, id@, 0) == if r < markets.len() {
            r as int
        } else {
            -1
        },
{
    let mut j: usize = 0;
    while j < markets.len()
        invariant
            0 <= j <= markets.len(),
            market_index_from(markets@, id@, 0) == market_index_from(markets@, id@, j as int),
        decreases markets.len() - j,
    {
        if markets[j].id == *id {
            return j;
        }
        j = j + 1;
    }
    markets.len()
}

fn find_token(ids: &Vec<String>, token: &String) -> (r: usize)
    ensures
        token_index_from(ids@, token@, 0) == if r < ids.len() {
            r as int
        } else {
            -1
        },
{
    let mut j: usize = 0;
    while j < ids.len()
        invariant
            0 <= j <= ids.len(),
            token_index_from(ids@, token@, 0) == token_index_from(ids@, token@, j as int),
        decreases ids.len() - j,
    {
        if ids[j] == *token {
            return j;
        }
        j = j + 1;
    }
    ids.len()
}

/// Value of `size` at `price`, in millionths of a dollar.
fn notional(size: u64, price: u64) -> (r: u64)
    requires
        size <= MAX_QTY,
        price <= MAX_PRICE,
    ensures
        r == notional_of(size as int, price as int),
        r <= 3 * MAX_QTY,
{
    proof {
        assert(size * price / (UNIT as int) <= 3 * MAX_QTY) by (nonlinear_arith)
            requires
                0 <= size <= MAX_QTY,
                0 <= price <= MAX_PRICE,
        ;
    }
    ((size as u128) * (price as u128) / (UNIT as u128)) as u64
}

/// The realised profit or loss of closing `p` at `exit_price`.
fn realised_pnl(p: &Position, exit_price: u64, fee_bps: u64) -> (r: i64)
    requires
        p.wf(),
        exit_price <= MAX_PRICE,
        fee_bps <= BPS,
    ensures
        r == pnl_of(*p, exit_price as int, fee_bps as int),
        -max_record_pnl() <= r <= max_record_pnl(),
{
    let exit_value = notional(p.size, exit_price);
    let entry_cost = notional(p.size, p.entry_price);
    proof {
        assert(exit_value * fee_bps / (BPS as int) <= exit_value) by (nonlinear_arith)
            requires
                0 <= exit_value,
                0 <= fee_bps <= BPS,
        ;
    }
    let fee = ((exit_value as u128) * (fee_bps as u128) / (BPS as u128)) as u64;
    (exit_value as i64) - (entry_cost as i64) - (fee as i64)
}

impl PositionManager {
    pub open spec fn wf(&self) -> bool {
        positions_wf(self.open@) && records_wf(self.closed@)
    }

    /// An empty ledger.
    pub fn new(config: ExitConfig) -> (r: PositionManager)
        ensures
            r.wf(),
            r.config == config,
            r.open@ == Seq::<Position>::empty(),
            r.closed@ == Seq::<ExitRecord>::empty(),
    {
        PositionManager { config, open: Vec::new(), closed: Vec::new() }
    }

    /// Opens a position. Only bought positions are supported.
    pub fn open_position(&mut self, p: Position) -> (r: Result<(), PositionError>)
        requires
            old(self).wf(),
            p.wf(),
        ensures
            final(self).wf(),
            final(self).config == old(self).config,
            final(self).closed@ == old(self).closed@,
            p.side == Side::Buy ==> r is Ok && final(self).open@ == old(self).open@.push(p),
            p.side == Side::Sell ==> r == Err::<(), _>(PositionError::UnsupportedSide)
                && final(self).open@ == old(self).open@,
    {
        match p.side {
            Side::Buy => {
                self.open.push(p);
                Ok(())
            },
            Side::Sell => Err(PositionError::UnsupportedSide),
        }
    }

    /// Whether `p` closes now, and if so why, at what profit or loss.
    fn evaluate(&self, p: &Position, markets: &Vec<Market>, now: u64, fee_bps: u64) -> (r: Option<
        (ExitReason, i64),
    >)
        requires
            p.wf(),
            all_wf(markets@),
            fee_bps <= BPS,
        ensures
            r is None <==> exit_reason_of(*p, markets@, now, self.config) is None,
            r matches Some(x) ==> {
                &&& exit_reason_of(*p, markets@, now, self.config) == Some(x.0)
                &&& x.1 == pnl_of(*p, exit_price_of(*p, markets@), fee_bps as int)
                &&& -max_record_pnl() <= x.1 <= max_record_pnl()
            },
    {
        let mi = find_market(markets, &p.market_id);
        let mut exit_price: u64 = p.entry_price;
        let mut reason: Option<ExitReason> = None;
        if mi < markets.len() {
            let m = &markets[mi];
            assert(m.wf());
            let sum = m.price_total();
            let spread: u64 = if sum >= UNIT {
                sum - UNIT
            } else {
                UNIT - sum
            };
            if (p.entry_spread as i128) - (spread as i128) >= (self.config.profit_target_spread as i128) {
                reason = Some(ExitReason::TakeProfit);
            } else if (spread as i128) - (p.entry_spread as i128) >= (self.config.stop_loss_spread as i128) {
                reason = Some(ExitReason::StopLoss);
            }
            let ti = find_token(&m.clob_token_ids, &p.token_id);
            if ti < m.clob_token_ids.len() && ti < m.outcome_prices.len() {
                exit_price = m.outcome_prices[ti];
            }
        }
        if reason.is_none() && (now as u128) >= (p.entry_time as u128) + (
        self.config.position_timeout_secs as u128) {
            reason = Some(ExitReason::Timeout);
        }
        match reason {
            None => None,
            Some(why) => Some((why, realised_pnl(p, exit_price, fee_bps))),
        }
    }

    /// Closes every open position whose exit trigger fires against the
    /// snapshot `markets` at time `now`, charging `exit_fee_bps` on the exit
    /// value; returns the new records, which are also appended to the closed set.
    pub fn check_exits(&mut self, markets: &Vec<Market>, now: u64, exit_fee_bps: u64) -> (r: Vec<
        ExitRecord,
    >)
        requires
            old(self).wf(),
            all_wf(markets@),
            exit_fee_bps <= BPS,
        ensures
            final(self).wf(),
            final(self).config == old(self).config,
            final(self).open@ == kept_after(old(self).open@, markets@, now, old(self).config),
            r@ == closed_by(old(self).open@, markets@, now, old(self).config, exit_fee_bps),
            final(self).closed@ == old(self).closed@ + r@,
    {
        let ghost open0 = self.open@;
        let ghost config0 = self.config;
        let mut kept: Vec<Position> = Vec::new();
        let mut records: Vec<ExitRecord> = Vec::new();
        let mut i: usize = 0;
        while i < self.open.len()
            invariant
                self.open@ == open0,
                self.config == config0,
                positions_wf(open0),
                all_wf(markets@),
                exit_fee_bps <= BPS,
                0 <= i <= open0.len(),
                kept@ == kept_after(open0.subrange(0, i as int), markets@, now, self.config),
                records@ == closed_by(open0.subrange(0, i as int), markets@, now, self.config, exit_fee_bps),
                positions_wf(kept@),
                records_wf(records@),
            decreases open0.len() - i,
        {
            let p = &self.open[i];
            assert(open0[i as int].wf());
            let ghost pre = open0.subrange(0, i as int + 1);
            assert(pre.drop_last() =~= open0.subrange(0, i as int));
            assert(pre.last() == *p);
            match self.evaluate(p, markets, now, exit_fee_bps) {
                None => {
                    kept.push(p.duplicate());
                },
                Some((reason, pnl)) => {
                    records.push(ExitRecord { position: p.duplicate(), reason, pnl });
                },
            }
            i = i + 1;
        }
        assert(open0.subrange(0, i as int) =~= open0);
        self.open = kept;
        let mut j: usize = 0;
        let ghost closed0 = self.closed@;
        while j < records.len()
            invariant
                0 <= j <= records@.len(),
                self.closed@ == closed0 + records@.subrange(0, j as int),
                self.config == config0,
                self.open@ == kept_after(open0, markets@, now, config0),
                records_wf(closed0),
                records_wf(records@),
                positions_wf(self.open@),
            decreases records@.len() - j,
        {
            self.closed.push(records[j].duplicate());
            j = j + 1;
            assert(self.closed@ =~= closed0 + records@.subrange(0, j as int));
        }
        assert(records@.subrange(0, j as int) =~= records@);
        records
    }

    /// The open positions.
    pub fn get_positions(&self) -> (r: &Vec<Position>)
        ensures
            r@ == self.open@,
    {
        &self.open
    }

    /// The closed positions, oldest first.
    pub fn get_closed(&self) -> (r: &Vec<ExitRecord>)
        ensures
            r@ == self.closed@,
    {
        &self.closed
    }

    /// Number of closed positions.
    pub fn trade_count(&self) -> (r: usize)
        ensures
            r == self.closed@.len(),
    {
        self.closed.len()
    }

    /// Sum of the realised profit and loss of every closed position.
    pub fn total_pnl(&self) -> (r: i128)
        requires
            self.wf(),
        ensures
            r == total_pnl_of(self.closed@),
    {
        let mut sum: i128 = 0;
        let mut i: usize = 0;
        while i < self.closed.len()
            invariant
                records_wf(self.closed@),
                0 <= i <= self.closed@.len(),
                sum == total_pnl_of(self.closed@.subrange(0, i as int)),
                -(i * 60_000_000_000) <= sum <= i * 60_000_000_000,
            decreases self.closed@.len() - i,
        {
            let ghost pre = self.closed@.subrange(0, i as int + 1);
            assert(pre.drop_last() =~= self.closed@.subrange(0, i as int));
            assert(-max_record_pnl() <= self.closed@[i as int].pnl <= max_record_pnl());
            assert(i <= 0xFFFF_FFFF_FFFF_FFFFint);
            proof {
                let x = self.closed@[i as int].pnl as int;
                assert(-((i + 1) * 60_000_000_000) <= sum + x <= (i + 1) * 60_000_000_000
                    && (i + 1) * 60_000_000_000 <= 0x1_0000_0000_0000_0000 * 60_000_000_000)
                    by (nonlinear_arith)
                    requires
                        -(i * 60_000_000_000) <= sum <= i * 60_000_000_000,
                        -60_000_000_000 <= x <= 60_000_000_000,
                        0 <= i <= 0xFFFF_FFFF_FFFF_FFFFint,
                ;
            }
            sum = sum + (self.closed[i].pnl as i128);
            i = i + 1;
        }
        assert(self.closed@.subrange(0, i as int) =~= self.closed@);
        sum
    }

    /// Number of closed positions with a profit.
    pub fn win_count(&self) -> (r: usize)
        ensures
            r == wins_of(self.closed@),
    {
        let mut wins: usize = 0;
        let mut i: usize = 0;
        while i < self.closed.len()
            invariant
                0 <= i <= self.closed@.len(),
                wins == wins_of(self.closed@.subrange(0, i as int)),
                wins <= i,
            decreases self.closed@.len() - i,
        {
            let ghost pre = self.closed@.subrange(0, i as int + 1);
            assert(pre.drop_last() =~= self.closed@.subrange(0, i as int));
            if self.closed[i].pnl > 0 {
                wins = wins + 1;
            }
            i = i + 1;
        }
        assert(self.closed@.subrange(0, i as int) =~= self.closed@);
        wins
    }

    /// Fraction of closed positions with a profit, in millionths (rounded
    /// down); zero while nothing has closed.
    pub fn win_rate(&self) -> (r: u64)
        ensures
            r == win_rate_of(self.closed@),
    {
        let n = self.closed.len();
        if n == 0 {
            return 0;
        }
        let wins = self.win_count();
        proof {
            lemma_wins_bounded(self.closed@);
            assert((wins as int) * (UNIT as int) / (n as int) <= UNIT) by (nonlinear_arith)
                requires
                    0 <= wins <= n,
                    n > 0,
            ;
        }
        ((wins as u128) * (UNIT as u128) / (n as u128)) as u64
    }
}

} // verus!
