//! Fixed-point conventions shared by every module.
use vstd::prelude::*;
use vstd::arithmetic::div_mod::{lemma_fundamental_div_mod, lemma_fundamental_div_mod_converse};

verus! {

/// One whole unit (a dollar, a share, or the price 1.0), in millionths.
pub const UNIT: u64 = 1_000_000;

/// The denominator of a rate given in basis points.
pub const BPS: u64 = 10_000;

/// The largest order or position size the library accepts, in millionths of a
/// share (ten thousand shares); keeps every cost, and the profit or loss of
/// every position, within the risk manager's exact arithmetic.
pub const MAX_QTY: u64 = 10_000_000_000;

/// The highest fill price the simulator can produce: a whole unit, plus a
/// fixed latency cost and a random drift of at most a unit each.
pub const MAX_PRICE: u64 = 3_000_000;

/// `a / b` rounded toward negative infinity.
pub fn floor_div(a: i128, b: u128) -> (r: i128)
    requires
        b > 0,
        a > i128::MIN,
    ensures
        r == a as int / b as int,
{
    if a >= 0 {
        let q = (a as u128) / b;
        q as i128
    } else {
        let m: u128 = (0 - a) as u128;
        let q = m / b;
        let rem = m % b;
        proof {
            lemma_fundamental_div_mod(m as int, b as int);
            assert(q <= m) by (nonlinear_arith)
                requires
                    m == b * q + rem,
                    b >= 1,
                    rem >= 0,
            ;
        }
        if rem == 0 {
            proof {
                assert(a == (-(q as int)) * (b as int) + 0) by (nonlinear_arith)
                    requires
                        m == -a,
                        m == b * q + rem,
                        rem == 0,
                ;
                lemma_fundamental_div_mod_converse(a as int, b as int, -(q as int), 0);
            }
            0 - (q as i128)
        } else {
            proof {
                assert(a == (-(q as int) - 1) * (b as int) + ((b - rem) as int)) by (nonlinear_arith)
                    requires
                        m == -a,
                        m == b * q + rem,
                ;
                assert(q < m) by (nonlinear_arith)
                    requires
                        m == b * q + rem,
                        b >= 1,
                        rem > 0,
                ;
                lemma_fundamental_div_mod_converse(a as int, b as int, -(q as int) - 1, (b - rem) as int);
            }
            0 - (q as i128) - 1
        }
    }
}

/// The integer square root: the largest `r` with `r * r <= x`.
pub fn isqrt(x: u128) -> (r: u128)
    ensures
        r * r <= x < (r + 1) * (r + 1),
{
    let mut lo: u128 = 0;
    let mut hi: u128 = 0x1_0000_0000_0000_0000;
    proof {
        assert(hi * hi > u128::MAX) by (nonlinear_arith)
            requires
                hi == 0x1_0000_0000_0000_0000u128,
        ;
    }
    while hi - lo > 1
        invariant
            lo < hi <= 0x1_0000_0000_0000_0000u128,
            lo * lo <= x,
            x < hi * hi,
        decreases hi - lo,
    {
        let mid = lo + (hi - lo) / 2;
        proof {
            assert(mid * mid < 0x1_0000_0000_0000_0000_0000_0000_0000_0000) by (nonlinear_arith)
                requires
                    mid < 0x1_0000_0000_0000_0000u128,
            ;
        }
        if mid * mid <= x {
            lo = mid;
        } else {
            hi = mid;
        }
    }
    assert(hi == lo + 1);
    lo
}

} // verus!
