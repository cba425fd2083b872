//! The dashboard's read model and the bounded log it shows.
use vstd::prelude::*;

use crate::market::Side;
use crate::positions::{PositionManager, win_rate_of, total_pnl_of};

verus! {

/// Most log lines kept.
pub const MAX_LOG_LINES: usize = 100;

/// The latest log lines, oldest first, owned by the process and handed to
/// whoever logs.
#[derive(Debug, Clone)]
pub struct LogBuffer {
    pub lines: Vec<String>,
}

/// The text of each line.
pub open spec fn texts(lines: Seq<String>) -> Seq<Seq<char>> {
    lines.map_values(|s: String| s@)
}

/// The lines after `msg` is logged: a repeat of the last line is dropped;
/// otherwise it is appended and only the last `MAX_LOG_LINES` are kept.
pub open spec fn log_after(lines: Seq<Seq<char>>, msg: Seq<char>) -> Seq<Seq<char>> {
    if lines.len() > 0 && lines.last() == msg {
        lines
    } else {
        let s = lines.push(msg);
        if s.len() > MAX_LOG_LINES {
            s.subrange(s.len() - MAX_LOG_LINES, s.len() as int)
        } else {
            s
        }
    }
}

impl LogBuffer {
    pub fn new() -> (r: LogBuffer)
        ensures
            r.lines@.len() == 0,
    {
        LogBuffer { lines: Vec::new() }
    }

    pub open spec fn wf(&self) -> bool {
        self.lines@.len() <= MAX_LOG_LINES
    }
}

/// Appends `msg` to the log unless it repeats the last line, keeping the
/// last `MAX_LOG_LINES` lines.
pub fn push_log(logs: &mut LogBuffer, msg: &str)
    requires
        old(logs).wf(),
    ensures
        final(logs).wf(),
        texts(final(logs).lines@) == log_after(texts(old(logs).lines@), msg@),
{
    let ghost before = logs.lines@;
    let n = logs.lines.len();
    if n > 0 {
        let last = msg.to_owned();
        assert(texts(before).last() == before[n - 1]@);
        if logs.lines[n - 1] == last {
            return;
        }
    }
    let line = msg.to_owned();
    logs.lines.push(line);
    assert(texts(logs.lines@) =~= texts(before).push(msg@));
    if logs.lines.len() > MAX_LOG_LINES {
        let ghost pushed = logs.lines@;
        logs.lines.remove(0);
        assert(texts(logs.lines@) =~= texts(pushed).subrange(1, pushed.len() as int));
    }
}

/// What the allowance protocol reports about the current grant.
#[derive(Debug, Clone, Copy, PartialEq, Eq, Structural)]
pub struct PermissionStatus {
    pub revoked: bool,
    pub daily_limit: u64,
    pub spent_today: u64,
}

/// Live statistics for the dashboard. Money is in millionths of a dollar, the
/// win rate in millionths.
#[derive(Debug, Clone, Copy, PartialEq, Eq, Structural)]
pub struct StatsResponse {
    pub connected: bool,
    pub permission_active: bool,
    pub daily_limit: u64,
    pub spent_today: u64,
    pub total_trades: usize,
    pub win_rate: u64,
    pub total_pnl: i128,
    pub open_positions: usize,
}

/// One open position as the dashboard lists it.
#[derive(Debug, Clone)]
pub struct TradeResponse {
    pub market_id: String,
    pub token_id: String,
    pub side: String,
    pub size: u64,
    pub entry_price: u64,
    pub entry_time: u64,
}

pub open spec fn side_name(side: Side) -> Seq<char> {
    match side {
        Side::Buy => "Buy"@,
        Side::Sell => "Sell"@,
    }
}

fn side_label(side: Side) -> (r: String)
    ensures
        r@ == side_name(side),
{
    match side {
        Side::Buy => "Buy".to_owned(),
        Side::Sell => "Sell".to_owned(),
    }
}

/// The statistics shown for a grant (none when nothing was granted) and a
/// ledger.
pub fn handle_stats(permission: Option<PermissionStatus>, ledger: &PositionManager) -> (r:
    StatsResponse)
    requires
        ledger.wf(),
    ensures
        r.connected,
        r.permission_active == (permission matches Some(p) && !p.revoked),
        r.daily_limit == (match permission {
            Some(p) => p.daily_limit,
            None => 0,
        }),
        r.spent_today == (match permission {
            Some(p) => p.spent_today,
            None => 0,
        }),
        r.total_trades == ledger.closed@.len(),
        r.win_rate == win_rate_of(ledger.closed@),
        r.total_pnl == total_pnl_of(ledger.closed@),
        r.open_positions == ledger.open@.len(),
{
    let (active, limit, spent) = match permission {
        Some(p) => (!p.revoked, p.daily_limit, p.spent_today),
        None => (false, 0, 0),
    };
    StatsResponse {
        connected: true,
        permission_active: active,
        daily_limit: limit,
        spent_today: spent,
        total_trades: ledger.trade_count(),
        win_rate: ledger.win_rate(),
        total_pnl: ledger.total_pnl(),
        open_positions: ledger.get_positions().len(),
    }
}

/// The open positions as dashboard rows, in ledger order.
pub fn handle_trades(ledger: &PositionManager) -> (r: Vec<TradeResponse>)
    ensures
        r@.len() == ledger.open@.len(),
        forall|i: int|
            0 <= i < r@.len() ==> {
                let p = #[trigger] ledger.open@[i];
                &&& r@[i].market_id@ == p.market_id@
                &&& r@[i].token_id@ == p.token_id@
                &&& r@[i].side@ == side_name(p.side)
                &&& r@[i].size == p.size
                &&& r@[i].entry_price == p.entry_price
                &&& r@[i].entry_time == p.entry_time
            },
{
    let positions = ledger.get_positions();
    let mut trades: Vec<TradeResponse> = Vec::new();
    let mut i: usize = 0;
    while i < positions.len()
        invariant
            positions@ == ledger.open@,
            0 <= i <= positions@.len(),
            trades@.len() == i,
            forall|k: int|
                0 <= k < i ==> {
                    let p = #[trigger] ledger.open@[k];
                    &&& trades@[k].market_id@ == p.market_id@
                    &&& trades@[k].token_id@ == p.token_id@
                    &&& trades@[k].side@ == side_name(p.side)
                    &&& trades@[k].size == p.size
                    &&& trades@[k].entry_price == p.entry_price
                    &&& trades@[k].entry_time == p.entry_time
                },
        decreases positions@.len() - i,
    {
        let p = &positions[i];
        trades.push(
            TradeResponse {
                market_id: p.market_id.clone(),
                token_id: p.token_id.clone(),
                side: side_label(p.side),
                size: p.size,
                entry_price: p.entry_price,
                entry_time: p.entry_time,
            },
        );
        i = i + 1;
    }
    trades
}

} // verus!
