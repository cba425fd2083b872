//! The daily spending budget that authorises each trade's cost.
use vstd::prelude::*;

verus! {

/// Tracks how much of the daily allowance has been spent, in millionths of a dollar.
#[derive(Debug, Clone)]
pub struct PermissionGuard {
    pub daily_limit: u64,
    pub spent_today: u64,
}

impl PermissionGuard {
    /// A guard with nothing spent yet.
    pub fn new(daily_limit: u64) -> (r: PermissionGuard)
        ensures
            r.daily_limit == daily_limit,
            r.spent_today == 0,
    {
        PermissionGuard { daily_limit, spent_today: 0 }
    }

    /// Whether `amount` more can be spent today without passing the limit.
    pub fn can_spend(&self, amount: u64) -> (r: bool)
        ensures
            r == (self.spent_today + amount <= self.daily_limit),
    {
        (self.spent_today as u128) + (amount as u128) <= (self.daily_limit as u128)
    }

    /// Records the cost of a completed, authorised trade.
    pub fn record_spend(&mut self, amount: u64)
        requires
            old(self).spent_today + amount <= old(self).daily_limit,
        ensures
            final(self).spent_today == old(self).spent_today + amount,
            final(self).daily_limit == old(self).daily_limit,
    {
        self.spent_today = self.spent_today + amount;
    }

    /// Clears the day's spending; the limit stays.
    pub fn reset(&mut self)
        ensures
            final(self).spent_today == 0,
            final(self).daily_limit == old(self).daily_limit,
    {
        self.spent_today = 0;
    }
}

} // verus!
