use vwap_option_bot::strategies::breakout::Breakout;
use vwap_option_bot::strategies::vwap_bounce::VwapBounce;
use vwap_option_bot::strategies::Strategy;
use vwap_option_bot::Candle;

fn candle(timestamp: i64, open: u32, close: u32, high: u32, low: u32, volume: u32) -> Candle {
    Candle { timestamp, open, close, high, low, volume }
}

#[test]
fn vwap_bounce_fires_on_red_run_below_vwap() {
    // pv = (101+94+95)*10 + (96+89+90)*10 + (91+79+80)*10 = 8150, vol = 30;
    // close 80 is below 8150/90 = 90.55..., and all three candles are red.
    let candles = vec![
        candle(1, 100, 95, 101, 94, 10),
        candle(2, 95, 90, 96, 89, 10),
        candle(3, 90, 80, 91, 79, 10),
    ];
    assert!(VwapBounce.check_signal(&candles));
}

#[test]
fn vwap_bounce_needs_three_candles() {
    let candles = vec![
        candle(1, 100, 95, 101, 94, 10),
        candle(2, 95, 90, 96, 89, 10),
    ];
    assert!(!VwapBounce.check_signal(&candles));
    assert!(!VwapBounce.check_signal(&[]));
}

#[test]
fn vwap_bounce_needs_close_below_vwap() {
    // All three red, but each close (9) sits above the VWAP 19/3 = 6.33...
    let candles = vec![
        candle(1, 10, 9, 9, 1, 10),
        candle(2, 10, 9, 9, 1, 10),
        candle(3, 10, 9, 9, 1, 10),
    ];
    assert!(!VwapBounce.check_signal(&candles));
}

#[test]
fn vwap_bounce_needs_all_three_red() {
    // Close below VWAP, but the middle candle is green.
    let candles = vec![
        candle(1, 100, 95, 101, 94, 10),
        candle(2, 90, 96, 96, 89, 10),
        candle(3, 90, 80, 91, 79, 10),
    ];
    assert!(!VwapBounce.check_signal(&candles));
}

#[test]
fn vwap_bounce_zero_volume_never_fires() {
    // Zero total volume makes the VWAP fall back to zero, and no close is
    // below zero.
    let candles = vec![
        candle(1, 100, 95, 101, 94, 0),
        candle(2, 95, 90, 96, 89, 0),
        candle(3, 90, 80, 91, 79, 0),
    ];
    assert!(!VwapBounce.check_signal(&candles));
}

#[test]
fn breakout_fires_above_prior_high() {
    let candles = vec![
        candle(1, 10, 11, 12, 9, 100),
        candle(2, 11, 10, 11, 9, 100),
        candle(3, 10, 13, 13, 10, 100),
    ];
    // Close 13 exceeds max(12, 11) = 12.
    assert!(Breakout.check_signal(&candles));
}

#[test]
fn breakout_does_not_fire_at_or_below_prior_high() {
    let equal = vec![
        candle(1, 10, 11, 12, 9, 100),
        candle(2, 11, 12, 12, 10, 100),
    ];
    // Close 12 equals the prior high 12: no breakout.
    assert!(!Breakout.check_signal(&equal));
    let below = vec![
        candle(1, 10, 11, 12, 9, 100),
        candle(2, 11, 10, 11, 9, 100),
    ];
    assert!(!Breakout.check_signal(&below));
}

#[test]
fn breakout_window_is_five_candles_before_the_last() {
    // The high of 50 sits six candles before the last one, outside the
    // rolling window, so a close of 11 still clears the window's max of 10.
    let candles = vec![
        candle(1, 10, 10, 50, 9, 100),
        candle(2, 10, 10, 10, 9, 100),
        candle(3, 10, 10, 10, 9, 100),
        candle(4, 10, 10, 10, 9, 100),
        candle(5, 10, 10, 10, 9, 100),
        candle(6, 10, 10, 10, 9, 100),
        candle(7, 10, 11, 11, 9, 100),
    ];
    assert!(Breakout.check_signal(&candles));
    // With the 50-high inside the window, the same close does not clear it.
    assert!(!Breakout.check_signal(&candles[..6]));
}

#[test]
fn breakout_single_candle_fires_vacuously() {
    // With no preceding candles the rolling maximum is vacuously cleared;
    // this degenerate case deliberately fires.
    assert!(Breakout.check_signal(&[candle(1, 10, 9, 11, 8, 100)]));
    assert!(!Breakout.check_signal(&[]));
}

#[test]
fn strategy_names_are_stable() {
    assert_eq!(VwapBounce.name(), "VWAP Bounce");
    assert_eq!(Breakout.name(), "Breakout");
}
