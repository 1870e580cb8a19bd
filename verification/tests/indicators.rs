use vwap_option_bot::{calculate_vwap, is_three_red_candles, Candle, Vwap};

fn candle(timestamp: i64, open: u32, close: u32, high: u32, low: u32, volume: u32) -> Candle {
    Candle { timestamp, open, close, high, low, volume }
}

#[test]
fn test_calculate_vwap() {
    let candles = vec![
        candle(1, 10, 9, 11, 8, 100),
        candle(2, 9, 8, 10, 7, 150),
    ];
    let vwap = calculate_vwap(&candles).unwrap();
    assert!(vwap.num > 0);
    assert!(vwap.den > 0);
}

#[test]
fn test_is_three_red_candles_true() {
    let candles = vec![
        candle(1, 10, 9, 11, 8, 100),
        candle(2, 9, 8, 10, 7, 150),
        candle(3, 8, 7, 9, 6, 120),
    ];
    assert!(is_three_red_candles(&candles));
}

#[test]
fn test_is_three_red_candles_false() {
    let candles = vec![
        candle(1, 10, 11, 12, 9, 100),
        candle(2, 11, 12, 13, 10, 150),
        candle(3, 12, 13, 14, 11, 120),
    ];
    assert!(!is_three_red_candles(&candles));
}

#[test]
fn vwap_single_candle_exact_weighting() {
    // Typical price (11 + 8 + 9) / 3 = 28/3; one candle, so the VWAP is 28/3.
    let candles = vec![candle(1, 10, 9, 11, 8, 100)];
    let vwap = calculate_vwap(&candles).unwrap();
    assert_eq!(vwap, Vwap { num: 2800, den: 300 });
    // Exactly 28/3 as a rational.
    assert_eq!(vwap.num * 3, 28 * vwap.den);
}

#[test]
fn vwap_zero_volume_falls_back_to_zero() {
    let candles = vec![
        candle(1, 10, 9, 11, 8, 0),
        candle(2, 9, 8, 10, 7, 0),
    ];
    assert_eq!(calculate_vwap(&candles).unwrap(), Vwap { num: 0, den: 1 });
}

#[test]
fn vwap_empty_slice_is_zero() {
    let candles: Vec<Candle> = vec![];
    assert_eq!(calculate_vwap(&candles).unwrap(), Vwap { num: 0, den: 1 });
}

#[test]
fn vwap_two_candles_exact_value() {
    // pv = (11+8+9)*100 + (10+7+8)*150 = 2800 + 3750 = 6550; vol = 250.
    let candles = vec![
        candle(1, 10, 9, 11, 8, 100),
        candle(2, 9, 8, 10, 7, 150),
    ];
    assert_eq!(calculate_vwap(&candles).unwrap(), Vwap { num: 6550, den: 750 });
}

#[test]
fn three_red_one_green_among_last_three() {
    let candles = vec![
        candle(1, 10, 9, 11, 8, 100),
        candle(2, 9, 10, 11, 8, 100),
        candle(3, 10, 9, 11, 8, 100),
    ];
    assert!(!is_three_red_candles(&candles));
}

#[test]
fn three_red_ignores_older_candles() {
    // A green candle before the trailing window of three does not matter.
    let candles = vec![
        candle(1, 10, 12, 13, 9, 100),
        candle(2, 12, 11, 13, 10, 100),
        candle(3, 11, 10, 12, 9, 100),
        candle(4, 10, 9, 11, 8, 100),
    ];
    assert!(is_three_red_candles(&candles));
}

#[test]
fn three_red_short_history_judges_what_is_there() {
    // The trailing-window rule judges however many candles exist, so an empty
    // history counts as all-red, and a single red candle does too.
    let empty: Vec<Candle> = vec![];
    assert!(is_three_red_candles(&empty));
    assert!(is_three_red_candles(&[candle(1, 10, 9, 11, 8, 100)]));
    assert!(!is_three_red_candles(&[candle(1, 10, 11, 12, 9, 100)]));
}
