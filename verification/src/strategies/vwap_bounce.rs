//! Mean-reversion entry signal: a run of red candles closing below the
//! session's volume-weighted average price.

use vstd::prelude::*;
use vstd::string::StringExecFns;
use crate::Candle;
use crate::Vwap;
use crate::calculate_vwap;
use crate::is_three_red_candles;
use crate::lemma_vwap_nonnegative;
use crate::pv_total;
use crate::vol_total;
use crate::three_red;
use crate::strategies::Strategy;

verus! {

/// The last close sits strictly below the VWAP of the whole history, compared
/// exactly: `close < pv / (3 * vol)` as rationals. With zero total volume the
/// VWAP falls back to zero and no (non-negative) close is below it.
pub open spec fn close_below_vwap(s: Seq<Candle>) -> bool {
    vol_total(s) > 0 && (s.last().close as int) * (3 * vol_total(s)) < pv_total(s)
}

/// VWAP-Bounce trigger: at least three candles, the last three all red, and
/// the last close strictly below the VWAP of the entire history. A history
/// whose price-volume mass exceeds 128-bit arithmetic is treated as
/// no-signal.
pub open spec fn vwap_bounce_fires(s: Seq<Candle>) -> bool {
    &&& s.len() >= 3
    &&& pv_total(s) <= u128::MAX
    &&& three_red(s)
    &&& close_below_vwap(s)
}

/// Detects a pullback into a red run while price sits below the
/// volume-weighted fair value. VWAP is anchored to the entire supplied
/// history, not a recent window.
#[derive(Clone, Copy)]
pub struct VwapBounce;

proof fn lemma_price_cmp(p: int, num: int, den: int)
    requires
        den > 0,
        num >= 0,
        p >= 0,
    ensures
        (p * den < num) <==> (p < num / den || (p == num / den && num % den > 0)),
{
    let q = num / den;
    let r = num % den;
    vstd::arithmetic::div_mod::lemma_fundamental_div_mod(num, den);
    vstd::arithmetic::div_mod::lemma_mod_bound(num, den);
    assert((p * den < num) <==> (p < q || (p == q && r > 0))) by (nonlinear_arith)
        requires
            num == den * q + r,
            0 <= r < den,
            den > 0,
            p >= 0,
    ;
}

/// Exact strict comparison of an integer price against a rational VWAP.
fn price_below(price: u32, v: &Vwap) -> (b: bool)
    requires
        v.den > 0,
    ensures
        b == ((price as int) * (v.den as int) < v.num as int),
{
    let q: u128 = v.num / v.den;
    let r: u128 = v.num % v.den;
    proof {
        lemma_price_cmp(price as int, v.num as int, v.den as int);
    }
    (price as u128) < q || ((price as u128) == q && r > 0)
}

impl Strategy for VwapBounce {
    open spec fn spec_name(&self) -> Seq<char> {
        "VWAP Bounce"@
    }

    open spec fn spec_fires(&self, history: Seq<Candle>) -> bool {
        vwap_bounce_fires(history)
    }

    fn name(&self) -> (r: String) {
        String::from_str("VWAP Bounce")
    }

    fn check_signal(&self, candles: &[Candle]) -> (b: bool) {
        if candles.len() < 3 {
            return false;
        }
        match calculate_vwap(candles) {
            None => false,
            Some(v) => {
                if !is_three_red_candles(candles) {
                    false
                } else {
                    let last = candles[candles.len() - 1];
                    proof {
                        assert(candles@.last() == candles@[candles@.len() - 1]);
                        if vol_total(candles@) == 0 {
                            lemma_vwap_nonnegative(candles@);
                        }
                    }
                    price_below(last.close, &v)
                }
            },
        }
    }
}

} // verus!
