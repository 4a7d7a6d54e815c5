use gridzbotz::cli::{Args, LogLevel, RunLength};
use gridzbotz::session::{total_cycles, sleep_after_cycle, slow_cycle_threshold, stats_due, CycleStatus, SessionMetrics, TickReport};

fn args(mode: Option<&str>, paper: bool) -> Args {
    Args {
        config: "config/master.toml".to_string(),
        mode: mode.map(|m| m.to_string()),
        paper,
        duration_minutes: None,
        duration_hours: None,
        cycles: None,
        debug: false,
        trace: false,
    }
}

#[test]
fn test_slippage_decimal_conversion() {
    let bps: u16 = 100;
    let decimal = bps as f64 / 10_000.0;
    assert!((decimal - 0.01).abs() < 1e-9);

    let bps: u16 = 50;
    let decimal = bps as f64 / 10_000.0;
    assert!((decimal - 0.005).abs() < 1e-9);
}

#[test]
fn test_spacing_usd_from_price_and_pct() {
    let price = 200.0_f64;
    let pct = 0.15_f64;
    let spacing = price * (pct / 100.0);
    assert!((spacing - 0.30).abs() < 1e-9);
}

#[test]
fn test_args_resolved_mode_paper_flag() {
    let a = args(None, true);
    assert_eq!(a.resolved_mode(), Some("paper".to_string()));
}

#[test]
fn test_args_resolved_mode_explicit() {
    let a = args(Some("live"), false);
    assert_eq!(a.resolved_mode(), Some("live".to_string()));
}

#[test]
fn test_args_resolved_mode_none() {
    let a = args(None, false);
    assert_eq!(a.resolved_mode(), None);
}

#[test]
fn test_session_metrics_success_rate() {
    let mut m = SessionMetrics::new();
    m.record_cycle(50, 200);
    m.record_cycle(60, 200);
    m.record_failure();
    // The binary's success rate is 2 of 3 cycles, 66.7%.
    assert_eq!((m.successful_cycles, m.successful_cycles + m.failed_cycles), (2, 3));
    assert_eq!(m.errors, 1);
}

#[test]
fn test_session_metrics_avg_cycle_time() {
    let mut m = SessionMetrics::new();
    m.record_cycle(100, 200);
    m.record_cycle(200, 200);
    // The binary's average is 300 ms over 2 cycles, 150 ms.
    assert_eq!(m.cycle_times, vec![100, 200]);
}

#[test]
fn min_max_cycle_times() {
    let mut m = SessionMetrics::new();
    assert_eq!(m.min_cycle_time(), 0);
    assert_eq!(m.max_cycle_time(), 0);
    m.record_cycle(120, 300);
    m.record_cycle(40, 300);
    m.record_cycle(400, 300);
    assert_eq!(m.min_cycle_time(), 40);
    assert_eq!(m.max_cycle_time(), 400);
    assert_eq!(m.slow_cycles, 1);
    assert_eq!(m.successful_cycles, 3);
}

#[test]
fn mode_override_validates() {
    assert!(args(Some("paper"), false).mode_override().is_ok());
    assert_eq!(args(Some("live"), false).mode_override().ok().flatten(), Some("live".to_string()));
    match args(Some("demo"), false).mode_override() {
        Err(e) => assert_eq!(e.message(), "Invalid --mode 'demo'. Must be 'paper' or 'live'"),
        Ok(_) => panic!("demo is not a mode"),
    }
    assert!(args(None, false).mode_override().unwrap().is_none());
}

#[test]
fn run_length_override_precedence() {
    let current = RunLength { test_cycles: None, test_duration_minutes: Some(10), test_duration_hours: None };
    let mut a = args(None, false);
    assert_eq!(a.apply_run_length(current), (current, false));
    a.duration_hours = Some(2);
    assert_eq!(a.apply_run_length(current).0, RunLength { test_cycles: None, test_duration_minutes: None, test_duration_hours: Some(2) });
    a.duration_minutes = Some(5);
    assert_eq!(a.apply_run_length(current).0, RunLength { test_cycles: None, test_duration_minutes: Some(5), test_duration_hours: None });
    a.cycles = Some(100);
    assert_eq!(a.apply_run_length(current), (RunLength { test_cycles: Some(100), test_duration_minutes: None, test_duration_hours: None }, true));
}

#[test]
fn log_level_trace_wins() {
    let mut a = args(None, false);
    assert_eq!(a.log_level(), LogLevel::Info);
    a.debug = true;
    assert_eq!(a.log_level(), LogLevel::Debug);
    a.trace = true;
    assert_eq!(a.log_level(), LogLevel::Trace);
}

#[test]
fn tick_bookkeeping() {
    let mut m = SessionMetrics::new();
    let tick = TickReport { active: true, paused_with_reason: false, orders_placed: 2, fills: 0, total_orders: 5, stats_paused: false };
    assert_eq!(m.record_tick(tick, 3), Some((CycleStatus::Repositioned, 5)));
    assert_eq!(m.repositions, 1);
    let halted = TickReport { active: true, paused_with_reason: true, orders_placed: 0, fills: 0, total_orders: 5, stats_paused: true };
    assert_eq!(m.record_tick(halted, 5), Some((CycleStatus::Halted, 5)));
    assert_eq!(m.regime_gate_blocks, 2);
    assert_eq!(m.repositions, 1);
    let stop = TickReport { active: false, ..tick };
    assert_eq!(m.record_tick(stop, 5), None);
    m.record_tick_error();
    assert_eq!(m.errors, 2);
    assert_eq!(m.failed_cycles, 1);
    m.record_invalid_price();
    assert_eq!(m.failed_price_fetches, 1);
    assert_eq!(CycleStatus::Stable.label(), "✓ Stable");
}

#[test]
fn loop_timing_helpers() {
    assert_eq!(total_cycles(true, 10), u32::MAX);
    assert_eq!(total_cycles(false, 10), 10);
    assert_eq!(slow_cycle_threshold(1000), 3000);
    assert_eq!(sleep_after_cycle(300, 1000), Some(700));
    assert_eq!(sleep_after_cycle(1000, 1000), None);
    assert!(stats_due(true, 20, 10));
    assert!(!stats_due(true, 21, 10));
    assert!(!stats_due(false, 20, 10));
}
