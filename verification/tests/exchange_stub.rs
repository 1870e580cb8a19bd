use vwap_option_bot::{AlpacaApiStub, ExchangeApi, OptionContract, TradeLog};

fn get_api() -> AlpacaApiStub {
    AlpacaApiStub
}

#[test]
fn test_fetch_candles_stub() {
    let api = get_api();
    let candles = api.fetch_candles();
    assert!(candles.is_empty());
}

#[test]
fn test_authenticate_broker_stub() {
    let api = get_api();
    assert!(api.authenticate_broker());
}

#[test]
fn test_get_account_balance_stub() {
    let api = get_api();
    let balance = api.get_account_balance();
    assert_eq!(balance, 10000);
}

#[test]
fn test_get_option_chain_stub() {
    let api = get_api();
    let chain = api.get_option_chain();
    assert!(chain.is_empty());
}

#[test]
fn test_submit_order_stub() {
    let api = get_api();
    let contract = OptionContract {
        symbol: "SPY230616C00400000".to_string(),
        strike: 400,
        expiry: "2023-06-16".to_string(),
        option_type: "call".to_string(),
    };
    let result = api.submit_order(&contract, 100);
    assert!(result);
}

#[test]
fn test_log_trade_stub() {
    let api = get_api();
    let log = TradeLog {
        timestamp: 1234567890,
        action: "BUY".to_string(),
        details: "Test trade".to_string(),
    };
    api.log_trade(&log);
}
