//! Two-sided price formulas: the relative spread between a bid and an ask,
//! and the profit of crossing it.
use vstd::prelude::*;

use crate::fixed::{BPS, MAX_PRICE, MAX_QTY, UNIT, floor_div};

verus! {

/// `(bid - ask) / ask` in millionths, rounded down; zero for a zero ask.
pub open spec fn spread_ratio(bid: int, ask: int) -> int {
    if ask > 0 {
        (bid - ask) * UNIT / ask
    } else {
        0
    }
}

/// Profit of buying `size` at `ask` and selling it at `bid`, less a fee of
/// `fee_bps` on both legs' value, in millionths of a dollar, rounded down.
pub open spec fn profit_of(size: int, bid: int, ask: int, fee_bps: int) -> int {
    ((bid - ask) * size * BPS - (bid * size + ask * size) * fee_bps) / (UNIT * BPS) as int
}

/// The relative spread of `bid` over `ask`, in millionths.
pub fn calc_spread(bid: u64, ask: u64) -> (r: i64)
    requires
        bid <= MAX_PRICE,
        ask <= MAX_PRICE,
    ensures
        r == spread_ratio(bid as int, ask as int),
{
    if ask > 0 {
        let diff = (bid as i128) - (ask as i128);
        proof {
            assert(-3_000_000_000_000 <= diff * UNIT <= 3_000_000_000_000) by (nonlinear_arith)
                requires
                    -3_000_000 <= diff <= 3_000_000,
            ;
            lemma_quotient_within(diff * UNIT, ask as int, 3_000_000_000_000);
        }
        floor_div(diff * (UNIT as i128), ask as u128) as i64
    } else {
        0
    }
}

/// Whether the relative spread of `bid` over `ask` exceeds `threshold`.
pub fn detect_arbitrage(bid: u64, ask: u64, threshold: i64) -> (r: bool)
    requires
        bid <= MAX_PRICE,
        ask <= MAX_PRICE,
    ensures
        r == (spread_ratio(bid as int, ask as int) > threshold),
{
    calc_spread(bid, ask) > threshold
}

/// The profit of crossing the spread with `size`, after fees on both legs.
pub fn expected_profit(size: u64, bid: u64, ask: u64, fee_bps: u64) -> (r: i64)
    requires
        size <= MAX_QTY,
        bid <= MAX_PRICE,
        ask <= MAX_PRICE,
        fee_bps <= BPS,
    ensures
        r == profit_of(size as int, bid as int, ask as int, fee_bps as int),
{
    let s = size as i128;
    let b = bid as i128;
    let a = ask as i128;
    let f = fee_bps as i128;
    proof {
        assert(-300_000_000_000_000_000_000 <= (b - a) * s * 10_000 <= 300_000_000_000_000_000_000)
            by (nonlinear_arith)
            requires
                0 <= s <= 10_000_000_000,
                0 <= b <= 3_000_000,
                0 <= a <= 3_000_000,
        ;
        assert(0 <= (b * s + a * s) * f <= 600_000_000_000_000_000_000) by (nonlinear_arith)
            requires
                0 <= s <= 10_000_000_000,
                0 <= b <= 3_000_000,
                0 <= a <= 3_000_000,
                0 <= f <= 10_000,
        ;
        lemma_quotient_within(
            (b - a) * s * BPS - (b * s + a * s) * f,
            UNIT * BPS,
            900_000_000_000_000_000_000,
        );
    }
    proof {
        assert(-30_000_000_000_000_000 <= (b - a) * s <= 30_000_000_000_000_000) by (nonlinear_arith)
            requires
                0 <= s <= 10_000_000_000,
                0 <= b <= 3_000_000,
                0 <= a <= 3_000_000,
        ;
        assert(0 <= b * s <= 30_000_000_000_000_000 && 0 <= a * s <= 30_000_000_000_000_000)
            by (nonlinear_arith)
            requires
                0 <= s <= 10_000_000_000,
                0 <= b <= 3_000_000,
                0 <= a <= 3_000_000,
        ;
    }
    let gross = (b - a) * s;
    let legs = b * s + a * s;
    let numerator = gross * (BPS as i128) - legs * f;
    floor_div(numerator, (UNIT as u128) * (BPS as u128)) as i64
}

proof fn lemma_quotient_within(a: int, b: int, bound: int)
    requires
        b >= 1,
        -bound <= a <= bound,
    ensures
        -bound <= a / b <= bound,
{
    vstd::arithmetic::div_mod::lemma_fundamental_div_mod(a, b);
    assert(-bound <= a / b <= bound) by (nonlinear_arith)
        requires
            b >= 1,
            a == b * (a / b) + a % b,
            0 <= a % b < b,
            -bound <= a <= bound,
    ;
}

} // verus!
