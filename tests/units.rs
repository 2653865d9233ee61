use btcmon::bitcoin::EstimatedFee;
use btcmon::bitcoin_core::BitcoinCore;
use btcmon::config::{match_string_to_bool, BitcoinCoreSettings};
use btcmon::fees::{FeeService, FeesBlockchainInfo, FeesState};
use btcmon::maintenance::{backoff_delay_ms, rest_tick, FeedLink, FullNodeMaintenance};
use btcmon::node::NodeStatus;
use btcmon::price::{Price, PriceCoinbase, PriceCurrency, PriceState, UnknownCurrency};
use btcmon::price_strategy::{CoinbasePrice, PriceProvider, PriceTickerPair};
use btcmon::text::parse_u64;
use btcmon::update::NodeUpdate;
use btcmon::widgets::BalanceGauge;

#[test]
fn parse_u64_follows_decimal_notation() {
    assert_eq!(parse_u64("123"), Some(123));
    assert_eq!(parse_u64("+7"), Some(7));
    assert_eq!(parse_u64("007"), Some(7));
    assert_eq!(parse_u64(""), None);
    assert_eq!(parse_u64("+"), None);
    assert_eq!(parse_u64("-1"), None);
    assert_eq!(parse_u64("1 "), None);
    assert_eq!(parse_u64("18446744073709551615"), Some(u64::MAX));
    assert_eq!(parse_u64("18446744073709551616"), None);
    assert_eq!(parse_u64("99999999999999999999x"), None);
}

#[test]
fn backoff_doubles_up_to_cap() {
    assert_eq!(backoff_delay_ms(0), 0);
    assert_eq!(backoff_delay_ms(1), 15000);
    assert_eq!(backoff_delay_ms(2), 30000);
    assert_eq!(backoff_delay_ms(3), 60000);
    assert_eq!(backoff_delay_ms(4), 120000);
    assert_eq!(backoff_delay_ms(5), 120000);
    assert_eq!(backoff_delay_ms(u32::MAX), 120000);
}

#[test]
fn maintenance_retries_subscribe_with_backoff() {
    let mut m = FullNodeMaintenance::new(true);
    let plan = m.on_tick(0, false);
    assert!(plan.poll && plan.subscribe && !plan.stop);
    match m.on_subscribe_result(false, 0) {
        NodeUpdate::FeedStatus(s) => assert_eq!(s, NodeStatus::Offline),
        _ => panic!("feed status expected"),
    }
    assert_eq!(m.next_subscribe_at, 15000);
    assert!(!m.on_tick(10000, false).subscribe);
    assert!(m.on_tick(15000, false).subscribe);
    m.on_subscribe_result(false, 15000);
    assert_eq!(m.next_subscribe_at, 45000);
    m.on_subscribe_result(true, 45000);
    assert_eq!(m.feed, FeedLink::Listening);
    assert_eq!(m.subscribe_failures, 0);
    assert!(!m.on_tick(60000, false).subscribe);
    assert!(m.on_poll_result(false));
    assert_eq!(m.feed, FeedLink::Down);
    assert!(m.on_tick(75000, false).subscribe);
    let plan = m.on_tick(90000, true);
    assert!(plan.stop && !plan.poll && !plan.subscribe);
    assert!(m.on_tick(105000, false).stop);
}

#[test]
fn maintenance_without_feed_only_polls() {
    let mut m = FullNodeMaintenance::new(false);
    let plan = m.on_tick(0, false);
    assert!(plan.poll && !plan.subscribe);
    assert!(!m.on_poll_result(false));
    assert_eq!(m.feed, FeedLink::Unconfigured);
    assert!(rest_tick(false).poll);
    assert!(rest_tick(true).stop);
}

#[test]
fn string_flags() {
    assert!(match_string_to_bool("true"));
    assert!(match_string_to_bool("1"));
    assert!(!match_string_to_bool("false"));
    assert!(!match_string_to_bool("0"));
    assert!(!match_string_to_bool("yes"));
}

#[test]
fn currency_codes() {
    assert_eq!("USD".parse::<PriceCurrency>(), Ok(PriceCurrency::USD));
    assert_eq!(PriceCurrency::from_code("EUR"), Ok(PriceCurrency::EUR));
    assert_eq!(PriceCurrency::from_code("usd"), Err(UnknownCurrency));
    assert_eq!(PriceCurrency::EUR.as_str(), "EUR");
    assert_eq!(
        PriceCoinbase::product_url(PriceCurrency::EUR),
        "https://api.coinbase.com/api/v3/brokerage/market/products/BTC-EUR"
    );
}

#[test]
fn full_node_endpoints() {
    let core = BitcoinCore::new(&BitcoinCoreSettings {
        host: "10.0.0.2".to_string(),
        rpc_port: "8332".to_string(),
        rpc_user: "u".to_string(),
        rpc_password: "p".to_string(),
        zmq_port: "28332".to_string(),
    });
    assert_eq!(core.rpc_url, "10.0.0.2:8332");
    assert_eq!(core.zmq_url.as_deref(), Some("tcp://10.0.0.2:28332"));
    let none = BitcoinCore::new(&BitcoinCoreSettings::default());
    assert!(none.zmq_url.is_none());
}

#[test]
fn empty_states() {
    let f = FeesState::new();
    assert_eq!((f.result.low.as_str(), f.result.medium.as_str(), f.result.high.as_str()), ("-", "-", "-"));
    let p = PriceState::new();
    assert_eq!(p.currency, PriceCurrency::USD);
    assert_eq!(p.last_price_in_currency, None);
    assert!(FeeService::<FeesBlockchainInfo>::new().result.is_none());
    assert!(Price::<PriceCoinbase>::new().last_price_in_currency.is_none());
    assert!(PriceProvider::<CoinbasePrice>::new().last_price_in_currency.is_none());
    assert_eq!(PriceTickerPair::USDBTC.currency(), btcmon::price_strategy::PriceCurrency::USD);
    assert_eq!(NodeStatus::new(), NodeStatus::Offline);
    assert_eq!(NodeStatus::Synchronizing.as_str(), "Synchronizing");
}

#[test]
fn balance_gauge_figures() {
    let g = BalanceGauge::new(250, 1000);
    assert_eq!(g.remote_balance(), 750);
    assert_eq!(g.ratio_permille(), 250);
    assert_eq!(BalanceGauge::new(5, 0).ratio_permille(), 0);
    assert_eq!(BalanceGauge::new(5, 0).remote_balance(), 0);
    assert_eq!(BalanceGauge::new(2000, 1000).ratio_permille(), 1000);
}

#[test]
fn estimated_fee_answer() {
    let f = EstimatedFee::new(3);
    assert_eq!(f.received_target, 3);
    let g = f.with_answer(1200, 4);
    assert_eq!((g.fee, g.target, g.received_target), (1200, 3, 4));
    assert_eq!(f.with_answer(1, -2).received_target, 1);
    assert_eq!(f.with_answer(1, 300).received_target, 1);
}
