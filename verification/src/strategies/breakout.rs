//! Momentum entry signal: the last close clears every high in the window of
//! candles just before it.

use vstd::prelude::*;
use vstd::string::StringExecFns;
use crate::Candle;
use crate::strategies::Strategy;

verus! {

/// Start of the window of (up to) five candles immediately preceding the
/// last one.
pub open spec fn breakout_window_start(s: Seq<Candle>) -> int {
    if s.len() <= 6 {
        0
    } else {
        s.len() - 6
    }
}

/// Breakout trigger: at least one candle, and the last close strictly
/// exceeds every high among the up-to-five candles preceding the last.
/// With no preceding candles the rolling maximum is vacuously cleared, so a
/// one-candle history fires — the degenerate case is kept deliberately and
/// is pinned down by this definition.
pub open spec fn breakout_fires(s: Seq<Candle>) -> bool {
    &&& s.len() >= 1
    &&& forall|i: int|
        breakout_window_start(s) <= i < s.len() - 1 ==> s[i].high < s.last().close
}

/// Fires when the final candle closes above the rolling maximum high of the
/// up-to-five candles before it.
#[derive(Clone, Copy)]
pub struct Breakout;

impl Strategy for Breakout {
    open spec fn spec_name(&self) -> Seq<char> {
        "Breakout"@
    }

    open spec fn spec_fires(&self, history: Seq<Candle>) -> bool {
        breakout_fires(history)
    }

    fn name(&self) -> (r: String) {
        String::from_str("Breakout")
    }

    fn check_signal(&self, candles: &[Candle]) -> (b: bool) {
        let n = candles.len();
        if n == 0 {
            return false;
        }
        let last = candles[n - 1];
        proof {
            assert(candles@.last() == candles@[n - 1]);
        }
        let start: usize = if n <= 6 {
            0
        } else {
            n - 6
        };
        let mut i: usize = start;
        while i < n - 1
            invariant
                n == candles@.len(),
                n >= 1,
                start == breakout_window_start(candles@),
                start <= i <= n - 1,
                last == candles@[n - 1],
                last.close == candles@.last().close,
                forall|j: int| start <= j < i ==> candles@[j].high < last.close,
            decreases n - 1 - i,
        {
            let c = candles[i];
            if c.high >= last.close {
                assert(!breakout_fires(candles@));
                return false;
            }
            i = i + 1;
        }
        true
    }
}

} // verus!
