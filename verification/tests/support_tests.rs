use gridzbotz::arbitrage::{quote_age_tier, DexId};
use gridzbotz::circuit_breaker::TradeOutcome;
use gridzbotz::fee_filter::{fee_decision, CheckStart, FeeDecision, FeeFilterCounters};
use gridzbotz::keystore::{
    keypair_secret, max_daily_trades_valid, secret_from_json_key, DailyTradeLimit, KeypairFormatError,
    TradeLimitReached, DAY_MS,
};
use gridzbotz::level_analytics::LevelAnalytics;
use gridzbotz::metrics::{
    build_info, labels_equal, metric_header, metric_series, MetricEntry, MetricType, MetricsRegistry, TradeLogger,
};
use gridzbotz::rpc::{Endpoint, FailoverStep, RpcFailover};
use gridzbotz::signal::SignalType;
use gridzbotz::volatility::{PriceHistory, VolatilityConfig};
use gridzbotz::window::RollingWindow;
use gridzbotz::wma::{correlation_sample, count_agreements, PerformanceCounts};

// ---------- rpc ----------

#[test]
fn test_hornet_rpc_new() {
    let rpc = RpcFailover::new(3);
    let health = rpc.health_check();

    assert!(health.primary_healthy);
    assert_eq!(health.total_requests, 0);
    assert_eq!(health.primary_failures, 0);
}

#[test]
fn rpc_failover_walks_fallbacks_in_order() {
    let mut rpc = RpcFailover::new(2);
    assert_eq!(rpc.begin_request(), Endpoint::Primary);
    assert_eq!(rpc.report(false), FailoverStep::Try(Endpoint::Fallback(0)));
    assert_eq!(rpc.report(false), FailoverStep::Try(Endpoint::Fallback(1)));
    assert_eq!(rpc.report(true), FailoverStep::Succeeded(Endpoint::Fallback(1)));
    let h = rpc.health_check();
    assert!(!h.primary_healthy);
    assert_eq!(h.total_requests, 1);
    assert_eq!(h.primary_failures, 1);
    assert_eq!(h.fallback_activations, 1);

    assert_eq!(rpc.begin_request(), Endpoint::Primary);
    assert_eq!(rpc.report(true), FailoverStep::Succeeded(Endpoint::Primary));
    let h = rpc.health_check();
    assert!(h.primary_healthy);
    assert_eq!(h.primary_successes(), 1);
}

#[test]
fn rpc_all_endpoints_fail() {
    let mut rpc = RpcFailover::new(1);
    rpc.begin_request();
    assert_eq!(rpc.report(false), FailoverStep::Try(Endpoint::Fallback(0)));
    assert_eq!(rpc.report(false), FailoverStep::AllFailed);
    let h = rpc.health_check();
    assert_eq!(h.fallback_activations, 0);
    assert_eq!(h.primary_failures, 1);

    let mut lone = RpcFailover::new(0);
    lone.begin_request();
    assert_eq!(lone.report(false), FailoverStep::AllFailed);
}

// ---------- keystore ----------

#[test]
fn keystore_test_config_validation() {
    // Default configuration: no trade-count limit.
    assert!(max_daily_trades_valid(None));
    // A limit of zero trades is refused.
    assert!(!max_daily_trades_valid(Some(0)));
}

#[test]
fn test_daily_limits_validation() {
    assert!(max_daily_trades_valid(Some(5)));
}

#[test]
fn keypair_raw_bytes() {
    let raw: Vec<u8> = (0u8..64).collect();
    let secret = keypair_secret(&raw).unwrap();
    assert_eq!(secret, (0u8..32).collect::<Vec<u8>>());

    let raw32: Vec<u8> = (100u8..132).collect();
    assert_eq!(keypair_secret(&raw32).unwrap(), raw32);
}

#[test]
fn keypair_json_array() {
    let key: Vec<u8> = (1u8..=64).collect();
    let text = format!("{:?}", key);
    let secret = keypair_secret(text.as_bytes()).unwrap();
    assert_eq!(secret, (1u8..=32).collect::<Vec<u8>>());
}

#[test]
fn keypair_json_errors() {
    assert_eq!(keypair_secret(b"not json"), Err(KeypairFormatError::Json));
    assert_eq!(keypair_secret(b"[1,2,3]"), Err(KeypairFormatError::InvalidLength(3)));
    assert_eq!(secret_from_json_key(&[7u8; 10]), Err(KeypairFormatError::InvalidLength(10)));
    assert_eq!(secret_from_json_key(&[7u8; 32]), Ok(vec![7u8; 32]));
}

#[test]
fn daily_trade_limit_rolls_and_refuses() {
    let mut limit = DailyTradeLimit::new(Some(2), 1_000);
    assert!(limit.check_trade_count().is_ok());
    limit.record_transaction();
    limit.record_transaction();
    assert_eq!(limit.check_trade_count(), Err(TradeLimitReached { count: 2, max: 2 }));
    assert!(!limit.roll_day(1_000 + DAY_MS));
    assert!(limit.roll_day(1_001 + DAY_MS));
    assert_eq!(limit.daily_tx_count, 0);
    assert!(limit.check_trade_count().is_ok());

    let unlimited = DailyTradeLimit::new(None, 0);
    assert!(unlimited.check_trade_count().is_ok());
}

// ---------- metrics ----------

fn format_metric(name: &str, help: &str, t: MetricType, value: f64, labels: &Vec<(String, String)>) -> String {
    format!("{}{} {}\n", metric_header(name, help, t), metric_series(name, labels), value)
}

fn export(registry: &MetricsRegistry<f64>) -> String {
    let mut out = String::new();
    for e in registry.entries() {
        out.push_str(&format_metric(&e.name, &e.help, e.metric_type, e.value, &e.labels));
        out.push('\n');
    }
    out
}

fn inc_counter(registry: &mut MetricsRegistry<f64>, name: &str, labels: Vec<(String, String)>) {
    match registry.position(name, &labels) {
        Some(i) => {
            let v = registry.entries()[i].value;
            registry.set_value(i, v + 1.0);
        }
        None => registry.register(MetricEntry {
            name: name.to_string(),
            metric_type: MetricType::Counter,
            help: format!("Counter: {}", name),
            value: 1.0,
            labels,
        }),
    }
}

fn set_gauge(registry: &mut MetricsRegistry<f64>, name: &str, value: f64, labels: Vec<(String, String)>) {
    registry.register(MetricEntry {
        name: name.to_string(),
        metric_type: MetricType::Gauge,
        help: format!("Gauge: {}", name),
        value,
        labels,
    });
}

#[test]
fn test_metric_formatting() {
    let formatted = format_metric("test_counter", "Test counter", MetricType::Counter, 42.0, &vec![]);
    assert!(formatted.contains("# HELP test_counter Test counter"));
    assert!(formatted.contains("# TYPE test_counter counter"));
    assert!(formatted.contains("test_counter 42"));
}

#[test]
fn test_metric_with_labels() {
    let labels = vec![
        ("env".to_string(), "prod".to_string()),
        ("region".to_string(), "us-east".to_string()),
    ];
    let formatted = format_metric("test_gauge", "Test gauge", MetricType::Gauge, 100.5, &labels);
    assert!(formatted.contains("test_gauge{env=\"prod\",region=\"us-east\"} 100.5"));
}

#[test]
fn test_registry_increment() {
    let mut registry: MetricsRegistry<f64> = MetricsRegistry::new();
    inc_counter(&mut registry, "test_counter", vec![]);
    inc_counter(&mut registry, "test_counter", vec![]);
    inc_counter(&mut registry, "test_counter", vec![]);

    let exported = export(&registry);
    assert!(exported.contains("test_counter 3"));
    assert_eq!(registry.entries().len(), 1);
}

#[test]
fn test_registry_gauge() {
    let mut registry: MetricsRegistry<f64> = MetricsRegistry::new();
    set_gauge(&mut registry, "test_gauge", 42.5, vec![]);
    set_gauge(&mut registry, "test_gauge", 100.0, vec![]);

    let exported = export(&registry);
    assert!(exported.contains("test_gauge 100"));
    assert!(!exported.contains("42.5"));
}

#[test]
fn test_trading_metrics() {
    let mut registry: MetricsRegistry<f64> = MetricsRegistry::new();
    let buy_ok = vec![("side".to_string(), "buy".to_string()), ("success".to_string(), "true".to_string())];
    let sell_bad = vec![("side".to_string(), "sell".to_string()), ("success".to_string(), "false".to_string())];
    inc_counter(&mut registry, "gridbot_trades_total", buy_ok.clone());
    inc_counter(&mut registry, "gridbot_trades_total", buy_ok);
    inc_counter(&mut registry, "gridbot_trades_total", sell_bad);
    set_gauge(&mut registry, "gridbot_pnl_usd", 1234.56, vec![]);

    let exported = export(&registry);
    assert!(exported.contains("gridbot_trades_total{side=\"buy\",success=\"true\"} 2"));
    assert!(exported.contains("gridbot_trades_total{side=\"sell\",success=\"false\"} 1"));
    assert!(exported.contains("gridbot_pnl_usd 1234.56"));
}

#[test]
fn metric_header_exact_text() {
    assert_eq!(
        metric_header("up", "Is it up", MetricType::Histogram),
        "# HELP up Is it up\n# TYPE up histogram\n"
    );
    assert_eq!(MetricType::Gauge.exposition_name(), "gauge");
    assert_eq!(metric_series("up", &vec![("a".to_string(), "1".to_string())]), "up{a=\"1\"}");
}

#[test]
fn labels_compare_pairwise() {
    let a = vec![("k".to_string(), "v".to_string())];
    let b = vec![("k".to_string(), "w".to_string())];
    assert!(labels_equal(&a, &a.clone()));
    assert!(!labels_equal(&a, &b));
    assert!(!labels_equal(&a, &vec![]));
}

#[test]
fn registry_clear_forgets_series() {
    let mut registry: MetricsRegistry<f64> = MetricsRegistry::new();
    set_gauge(&mut registry, "g", 1.0, vec![]);
    assert_eq!(registry.position("g", &vec![]), Some(0));
    registry.clear();
    assert_eq!(registry.position("g", &vec![]), None);
    assert!(registry.entries().is_empty());
}

#[test]
fn trade_logger_paths() {
    let logger = TradeLogger::new("logs/trades", "20240101_120000".to_string());
    assert_eq!(logger.session_id(), "20240101_120000");
    assert_eq!(logger.output_path(), "logs/trades/trades_20240101_120000.csv");
    assert!(TradeLogger::csv_header().starts_with("timestamp,trade_id,order_id,side"));
}

#[test]
fn build_info_fields() {
    let info = build_info();
    assert_eq!(info.version, "7.0.0");
    assert_eq!(info.name, "gridzbotz");
    assert_eq!(info.rust_version, "1.85");
}

// ---------- fee filter ----------

#[test]
fn test_disabled_returns_blocked_disabled() {
    assert_eq!(fee_decision(false, true, true), FeeDecision::BlockedDisabled);
}

#[test]
fn test_invalid_prices_block() {
    assert_eq!(fee_decision(true, false, true), FeeDecision::BlockedInsufficientProfit);
}

#[test]
fn fee_decision_by_profit() {
    assert_eq!(fee_decision(true, true, true), FeeDecision::Allowed);
    assert_eq!(fee_decision(true, true, false), FeeDecision::BlockedInsufficientProfit);
}

#[test]
fn test_grace_period() {
    let mut counters = FeeFilterCounters::new(5);
    assert_eq!(counters.begin_check(), CheckStart::Grace);
    assert_eq!(counters.trades_passed, 1);
    assert_eq!(counters.total_checks, 1);
}

#[test]
fn fee_filter_grace_ends_after_executions() {
    let mut counters = FeeFilterCounters::new(1);
    counters.record_execution();
    assert_eq!(counters.begin_check(), CheckStart::Evaluate);
    counters.finish_check(false);
    assert_eq!(counters.trades_filtered, 1);
    assert_eq!(counters.total_checks, 1);
    counters.reset_stats();
    assert_eq!(counters, FeeFilterCounters::new(1));
}

#[test]
fn zero_grace_evaluates_first_check() {
    let mut counters = FeeFilterCounters::new(0);
    assert_eq!(counters.begin_check(), CheckStart::Evaluate);
}

// ---------- volatility history ----------

#[test]
fn test_small_sample_behavior() {
    let mut history: PriceHistory<f64> = PriceHistory::new(VolatilityConfig::default_config());
    assert!(!history.add(100.0));
    assert!(!history.add(101.0));
    assert_eq!(history.sample_count(), 2);
}

#[test]
fn test_reset_functionality() {
    let mut history: PriceHistory<f64> = PriceHistory::new(VolatilityConfig::default_config());
    let mut ready = false;
    for i in 0..100 {
        ready = history.add(90.0 + i as f64 * 0.5);
    }
    assert!(ready);
    history.reset();
    assert_eq!(history.sample_count(), 0);
}

#[test]
fn price_history_caps_at_max() {
    let config = VolatilityConfig { max_samples: 5, min_samples: 3, verbose: false };
    let mut history: PriceHistory<u32> = PriceHistory::new(config);
    for p in 0..12u32 {
        history.add(p);
    }
    assert_eq!(history.sample_count(), 5);
    assert_eq!(history.window.as_slice(), &[7, 8, 9, 10, 11]);
}

// ---------- rolling window ----------

#[test]
fn rolling_window_keeps_latest() {
    let mut w: RollingWindow<u8> = RollingWindow::new(3);
    assert!(w.is_empty());
    for v in 1..=5u8 {
        w.push(v);
    }
    assert_eq!(w.len(), 3);
    assert_eq!(w.capacity(), 3);
    assert_eq!(w.as_slice(), &[3, 4, 5]);
    assert_eq!(*w.get(0), 3);
    w.clear();
    assert!(w.is_empty());
}

// ---------- level analytics ----------

#[test]
fn level_analytics_counts_and_hot_levels() {
    let mut a = LevelAnalytics::new();
    a.record_fill(Some(7));
    a.record_fill(Some(7));
    a.record_fill(Some(7));
    a.record_fill(Some(2));
    a.record_fill(Some(9));
    a.record_fill(Some(9));
    a.record_fill(None);
    assert_eq!(a.fill_count(7), 3);
    assert_eq!(a.fill_count(9), 2);
    assert_eq!(a.fill_count(4), 0);
    assert_eq!(a.tracked_levels(), 3);
    assert_eq!(a.fills_with_level(), 6);
    assert_eq!(a.fills_without_level(), 1);
    assert_eq!(a.hot_levels(2), vec![7, 9]);
    assert_eq!(a.hot_levels(4), Vec::<u64>::new());
}

// ---------- weighted majority bookkeeping ----------

#[test]
fn performance_counts_tally() {
    let mut p = PerformanceCounts::new();
    p.record_trade(TradeOutcome::Profit);
    p.record_trade(TradeOutcome::Loss);
    p.record_trade(TradeOutcome::Flat);
    assert_eq!((p.total_trades, p.wins, p.losses), (3, 1, 1));
    for _ in 0..25 {
        p.record_signal(SignalType::Buy);
    }
    p.record_signal(SignalType::Sell);
    let recent = p.recent_signals_slice();
    assert_eq!(recent.len(), 20);
    assert_eq!(recent[19], SignalType::Sell);
}

#[test]
fn agreement_counts() {
    let a = [SignalType::Buy, SignalType::Sell, SignalType::Hold];
    let b = [SignalType::Buy, SignalType::Hold];
    assert_eq!(count_agreements(&a, &b), (1, 2));
    assert_eq!(count_agreements(&b, &a), (1, 2));
    assert_eq!(correlation_sample(&a, &b), None);
    let long_a = [SignalType::Buy; 12];
    let mut long_b = [SignalType::Buy; 10];
    long_b[3] = SignalType::Sell;
    assert_eq!(correlation_sample(&long_a, &long_b), Some((9, 10)));
}

// ---------- arbitrage ----------

#[test]
fn dex_names_and_quote_tiers() {
    assert_eq!(DexId::Jupiter.name(), "Jupiter");
    assert_eq!(DexId::OpenBook.name(), "OpenBook");
    assert_eq!(quote_age_tier(100, 98, 97), 3);
    assert_eq!(quote_age_tier(100, 95, 99), 2);
    assert_eq!(quote_age_tier(100, 90, 99), 1);
}
