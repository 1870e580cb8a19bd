//! Strategy evaluation engine for candle-based trading signals.
//!
//! Prices and volumes are integer quantities (price ticks and unit counts),
//! so every indicator below is exact arithmetic: the volume-weighted average
//! price is kept as an exact rational number rather than a rounded quotient.

use vstd::prelude::*;

pub mod strategies;
pub mod backtest;

verus! {

/// One OHLCV price bar. Prices are in integer ticks, volume in whole units.
/// The usual shape `low <= open, close <= high` is expected of market data but
/// deliberately not required: malformed bars are accepted and evaluated as-is.
#[derive(Clone, Copy, PartialEq, Eq, Structural, Debug)]
pub struct Candle {
    pub timestamp: i64,
    pub open: u32,
    pub close: u32,
    pub high: u32,
    pub low: u32,
    pub volume: u32,
}

/// An option contract carried across the exchange boundary; the strategy
/// engine never inspects one. The strike is in integer price ticks.
#[derive(Clone, Debug)]
pub struct OptionContract {
    pub symbol: String,
    pub strike: u64,
    pub expiry: String,
    pub option_type: String,
}

/// A record of one brokerage action, carried across the exchange boundary
/// only; the strategy engine never inspects one.
#[derive(Clone, Debug)]
pub struct TradeLog {
    pub timestamp: i64,
    pub action: String,
    pub details: String,
}

/// The exchange/broker capability boundary. The strategy engine consumes only
/// `fetch_candles`; the brokerage operations (authentication, balance, option
/// chain, orders, trade logging) complete the boundary contract but are left
/// to peripheral use.
pub trait ExchangeApi {
    /// The candle batch this source currently serves.
    spec fn candles(&self) -> Seq<Candle>;

    fn fetch_candles(&self) -> (r: Vec<Candle>)
        ensures
            r@ == self.candles(),
    ;

    fn authenticate_broker(&self) -> bool;

    /// Account balance in integer currency units.
    fn get_account_balance(&self) -> u64;

    fn get_option_chain(&self) -> Vec<OptionContract>;

    fn submit_order(&self, contract: &OptionContract, amount: u64) -> bool;

    fn log_trade(&self, trade: &TradeLog);
}

/// Placeholder exchange connection: serves an empty candle batch and accepts
/// every brokerage call without doing anything.
pub struct AlpacaApiStub;

impl ExchangeApi for AlpacaApiStub {
    open spec fn candles(&self) -> Seq<Candle> {
        Seq::empty()
    }

    fn fetch_candles(&self) -> (r: Vec<Candle>) {
        Vec::new()
    }

    fn authenticate_broker(&self) -> (r: bool)
        ensures
            r,
    {
        true
    }

    fn get_account_balance(&self) -> (r: u64)
        ensures
            r == 10000,
    {
        10000
    }

    fn get_option_chain(&self) -> (r: Vec<OptionContract>)
        ensures
            r@ == Seq::<OptionContract>::empty(),
    {
        Vec::new()
    }

    fn submit_order(&self, _contract: &OptionContract, _amount: u64) -> (r: bool)
        ensures
            r,
    {
        true
    }

    fn log_trade(&self, _trade: &TradeLog) {
    }
}

/// The volume-weighted average price of a candle sequence, as the exact
/// non-negative rational `num / den` (with `den > 0`).
#[derive(Clone, Copy, PartialEq, Eq, Structural, Debug)]
pub struct Vwap {
    pub num: u128,
    pub den: u128,
}

/// Price-volume mass of one candle: typical price times volume, scaled by 3
/// to stay integral (typical price is `(high + low + close) / 3`).
pub open spec fn candle_pv(c: Candle) -> int {
    (c.high + c.low + c.close) * c.volume
}

/// Sum of `candle_pv` over a candle sequence.
pub open spec fn pv_total(s: Seq<Candle>) -> int
    decreases s.len(),
{
    if s.len() == 0 {
        0
    } else {
        pv_total(s.drop_last()) + candle_pv(s.last())
    }
}

/// Total volume of a candle sequence.
pub open spec fn vol_total(s: Seq<Candle>) -> int
    decreases s.len(),
{
    if s.len() == 0 {
        0
    } else {
        vol_total(s.drop_last()) + s.last().volume
    }
}

/// Both indicator sums are non-negative, and a sequence with no volume also
/// has no price-volume mass, so its VWAP is exactly zero.
pub proof fn lemma_vwap_nonnegative(s: Seq<Candle>)
    ensures
        pv_total(s) >= 0,
        vol_total(s) >= 0,
        vol_total(s) == 0 ==> pv_total(s) == 0,
    decreases s.len(),
{
    if s.len() > 0 {
        lemma_vwap_nonnegative(s.drop_last());
        vstd::arithmetic::mul::lemma_mul_nonnegative(
            (s.last().high + s.last().low + s.last().close) as int,
            s.last().volume as int,
        );
        if vol_total(s) == 0 {
            assert(s.last().volume == 0);
            assert(candle_pv(s.last()) == (s.last().high + s.last().low + s.last().close) * 0);
            vstd::arithmetic::mul::lemma_mul_by_zero_is_zero(
                (s.last().high + s.last().low + s.last().close) as int,
            );
        }
    }
}

/// A prefix of a candle sequence never has more price-volume mass than the
/// whole sequence.
proof fn lemma_pv_total_take_le(s: Seq<Candle>, i: int)
    requires
        0 <= i <= s.len(),
    ensures
        pv_total(s.take(i)) <= pv_total(s),
    decreases s.len() - i,
{
    if i == s.len() {
        assert(s.take(i) =~= s);
    } else {
        assert(s.take(i + 1).drop_last() =~= s.take(i));
        assert(s.take(i + 1).last() == s[i]);
        vstd::arithmetic::mul::lemma_mul_nonnegative(
            (s[i].high + s[i].low + s[i].close) as int,
            s[i].volume as int,
        );
        lemma_pv_total_take_le(s, i + 1);
    }
}

proof fn lemma_vol_total_bound(s: Seq<Candle>)
    ensures
        0 <= vol_total(s) <= s.len() * (u32::MAX as int),
    decreases s.len(),
{
    if s.len() > 0 {
        lemma_vol_total_bound(s.drop_last());
        assert((s.len() - 1) * (u32::MAX as int) + (u32::MAX as int) == s.len() * (
        u32::MAX as int)) by (nonlinear_arith);
    }
}

/// Volume-weighted average price of the whole slice: the sum of typical price
/// (`(high + low + close) / 3`) times volume, divided by the total volume,
/// returned as the exact rational `pv / (3 * vol)`. A slice with zero total
/// volume yields exactly zero (a defined fallback, not an error). `None` is
/// returned only when the price-volume sum exceeds what 128-bit arithmetic
/// can represent.
pub fn calculate_vwap(candles: &[Candle]) -> (r: Option<Vwap>)
    ensures
        r is Some <==> pv_total(candles@) <= u128::MAX,
        r matches Some(v) ==> v.num == pv_total(candles@),
        r matches Some(v) ==> v.den == (if vol_total(candles@) == 0 {
            1int
        } else {
            3 * vol_total(candles@)
        }),
        vol_total(candles@) == 0 && r is Some ==> r == Some((Vwap { num: 0, den: 1 })),
{
    let n = candles.len();
    let mut pv: u128 = 0;
    let mut vol: u128 = 0;
    let mut i: usize = 0;
    while i < n
        invariant
            n == candles@.len(),
            i <= n,
            pv == pv_total(candles@.take(i as int)),
            vol == vol_total(candles@.take(i as int)),
            vol <= i * (u32::MAX as int),
        decreases n - i,
    {
        let c = candles[i];
        proof {
            assert(candles@.take(i + 1).drop_last() =~= candles@.take(i as int));
            assert(candles@.take(i + 1).last() == candles@[i as int]);
        }
        let hlc: u128 = c.high as u128 + c.low as u128 + c.close as u128;
        proof {
            vstd::arithmetic::mul::lemma_mul_upper_bound(
                hlc as int,
                3 * (u32::MAX as int),
                c.volume as int,
                u32::MAX as int,
            );
        }
        let term: u128 = hlc * (c.volume as u128);
        if pv > u128::MAX - term {
            proof {
                lemma_pv_total_take_le(candles@, i + 1);
            }
            return None;
        }
        pv = pv + term;
        vol = vol + (c.volume as u128);
        i = i + 1;
    }
    proof {
        assert(candles@.take(n as int) =~= candles@);
    }
    if vol == 0 {
        proof {
            lemma_vwap_nonnegative(candles@);
        }
        Some(Vwap { num: 0, den: 1 })
    } else {
        Some(Vwap { num: pv, den: 3 * vol })
    }
}

/// Start of the trailing window of the most recent (up to) three candles.
pub open spec fn red_window_start(s: Seq<Candle>) -> int {
    if s.len() <= 3 {
        0
    } else {
        s.len() - 3
    }
}

/// The last up-to-three candles are all red (`close < open`). A sequence
/// shorter than three is judged on the candles it has, so the empty sequence
/// counts as all-red — the vacuous edge of the trailing-window rule.
pub open spec fn three_red(s: Seq<Candle>) -> bool {
    forall|i: int| red_window_start(s) <= i < s.len() ==> s[i].close < s[i].open
}

/// True iff the last three candles of the slice are all red (`close < open`);
/// with fewer than three candles, judges however many are present, so an
/// empty slice returns true.
pub fn is_three_red_candles(candles: &[Candle]) -> (r: bool)
    ensures
        r == three_red(candles@),
{
    let n = candles.len();
    let start: usize = if n <= 3 {
        0
    } else {
        n - 3
    };
    let mut i: usize = start;
    while i < n
        invariant
            n == candles@.len(),
            start == red_window_start(candles@),
            start <= i <= n,
            forall|j: int| start <= j < i ==> candles@[j].close < candles@[j].open,
        decreases n - i,
    {
        let c = candles[i];
        if c.close >= c.open {
            assert(!three_red(candles@));
            return false;
        }
        i = i + 1;
    }
    true
}

} // verus!
