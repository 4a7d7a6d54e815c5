use gridzbotz::circuit_breaker::{BreakerCore, TradeOutcome, TripReason, MAX_CONSECUTIVE_LOSSES};
use gridzbotz::stop_loss::{SlTripReason, StopLossGate};
use gridzbotz::win_rate_guard::{Suppression, WinRateGuard};

// The money side of the breaker (daily P&L, peak balance, drawdown) is
// float arithmetic kept by the binary; these tests hand the verified core
// the outcome of its limit checks for each trade of the original scenario
// (10% daily-loss limit, 15% drawdown limit).

#[test]
fn test_circuit_breaker_creation() {
    let core = BreakerCore::new(60);
    assert!(!core.is_tripped());
    assert_eq!(core.consecutive_losses, 0);
    assert_eq!(core.trip_reason, None);
}

#[test]
fn test_consecutive_losses() {
    // Balance 10000, four losses of 100: 1% daily loss, 1% drawdown each time.
    let mut core = BreakerCore::new(60);
    for _ in 0..4 {
        core.record_trade(TradeOutcome::Loss, false, false, 0);
        assert!(!core.is_tripped());
    }
    core.record_trade(TradeOutcome::Loss, false, false, 0);
    assert!(core.is_tripped());
    assert_eq!(core.trip_reason, Some(TripReason::ConsecutiveLosses));
}

#[test]
fn test_record_trade_noop_when_tripped() {
    let mut core = BreakerCore::new(60);
    for _ in 0..5 {
        core.record_trade(TradeOutcome::Loss, false, false, 0);
    }
    assert!(core.is_tripped());
    let count_at_trip = core.consecutive_losses;
    core.record_trade(TradeOutcome::Loss, false, false, 0);
    core.record_trade(TradeOutcome::Loss, false, false, 0);
    assert_eq!(core.consecutive_losses, count_at_trip, "consecutive_losses must not grow after trip");
}

#[test]
fn test_profit_resets_streak() {
    let mut core = BreakerCore::new(60);
    for _ in 0..3 {
        core.record_trade(TradeOutcome::Loss, false, false, 0);
    }
    assert_eq!(core.consecutive_losses, 3);
    core.record_trade(TradeOutcome::Profit, false, false, 0);
    assert_eq!(core.consecutive_losses, 0);
}

#[test]
fn test_daily_loss_limit_fires_as_percentage() {
    let mut core = BreakerCore::new(60);
    // Balance 1000: -90 is a 9% daily loss (under the 10% limit), 9% drawdown.
    core.record_trade(TradeOutcome::Loss, false, false, 0);
    assert!(!core.is_tripped(), "9% loss should not trip 10% daily limit");
    // Another -20: 11% daily loss (limit hit), 11% drawdown (under 15%).
    core.record_trade(TradeOutcome::Loss, true, false, 0);
    assert!(core.is_tripped(), "11% total daily loss should trip 10% limit");
    assert_eq!(core.trip_reason, Some(TripReason::DailyLossLimit));
}

#[test]
fn breaker_cooldown_resets_after_expiry() {
    let mut core = BreakerCore::new(60);
    core.force_trip(TripReason::MaxDrawdown, 1_000);
    assert!(!core.is_trading_allowed(1_000 + 59_999));
    let status = core.status(1_000 + 59_000);
    assert_eq!(status.cooldown_remaining_ms, Some(1_000));
    assert!(status.is_tripped);
    assert!(core.is_trading_allowed(1_000 + 60_000));
    assert!(!core.is_tripped());
    assert_eq!(core.trip_reason, None);
    assert_eq!(core.consecutive_losses, 0);
    assert_eq!(core.status(70_000).cooldown_remaining_ms, None);
}

#[test]
fn breaker_limit_precedence() {
    let mut core = BreakerCore::new(60);
    for _ in 0..(MAX_CONSECUTIVE_LOSSES - 1) {
        core.record_trade(TradeOutcome::Loss, false, false, 0);
    }
    core.record_trade(TradeOutcome::Loss, false, true, 5);
    assert_eq!(core.trip_reason, Some(TripReason::MaxDrawdown));
    assert_eq!(core.trip_time_ms, Some(5));
    assert_eq!(TripReason::ConsecutiveLosses.description(), "Too Many Consecutive Losses");
}

// ── stop-loss cooldown ─────────────────────────────────────────────────

// The stop and take-profit thresholds are float checks of the binary; a
// price of 94.9 against an entry of 100 is 5.1% down, past the 5% stop, and
// 110.1 is 10.1% up, past the 10% take-profit: each trips the verified gate.

#[test]
fn test_not_tripped_initially() {
    let mut gate = StopLossGate::new(300);
    assert!(!gate.is_tripped());
    assert!(gate.is_trading_allowed(0));
    assert!(gate.trip_reason().is_none());
}

#[test]
fn test_stop_loss_trips_cooldown_gate() {
    let mut gate = StopLossGate::new(300);
    gate.trip(SlTripReason::StopLoss, 0);
    assert!(gate.is_tripped());
    assert!(!gate.is_trading_allowed(10));
    assert_eq!(gate.trip_reason(), Some(SlTripReason::StopLoss));
}

#[test]
fn test_take_profit_trips_cooldown_gate() {
    let mut gate = StopLossGate::new(300);
    gate.trip(SlTripReason::TakeProfit, 0);
    assert!(gate.is_tripped());
    assert!(!gate.is_trading_allowed(10));
    assert_eq!(gate.trip_reason(), Some(SlTripReason::TakeProfit));
}

#[test]
fn test_cooldown_auto_resets_after_expiry() {
    let mut gate = StopLossGate::new(1);
    gate.trip(SlTripReason::StopLoss, 5_000);
    assert!(gate.is_tripped());
    assert!(gate.is_trading_allowed(5_000 + 1_100), "is_trading_allowed() must return true after cooldown expires");
    assert!(!gate.is_tripped(), "tripped_at must be cleared after auto-reset");
    assert!(gate.trip_reason().is_none(), "trip_reason must be None after reset");
}

#[test]
fn test_sl_cooldown_remaining_is_some_when_tripped() {
    let mut gate = StopLossGate::new(300);
    gate.trip(SlTripReason::StopLoss, 0);
    let remaining = gate.cooldown_remaining(5);
    assert!(remaining.is_some(), "cooldown_remaining must be Some while tripped");
    assert!(remaining.unwrap() / 1000 > 290, "remaining must be close to 300s on fresh trip, got {:?}", remaining);
}

#[test]
fn test_sl_cooldown_remaining_is_none_when_not_tripped() {
    let gate = StopLossGate::new(300);
    assert!(gate.cooldown_remaining(0).is_none());
}

#[test]
fn test_double_trip_does_not_reset_clock() {
    let mut gate = StopLossGate::new(300);
    gate.trip(SlTripReason::StopLoss, 0);
    let first_remaining = gate.cooldown_remaining(0).unwrap();
    gate.trip(SlTripReason::StopLoss, 50);
    let second_remaining = gate.cooldown_remaining(50).unwrap();
    assert!(second_remaining <= first_remaining,
        "double-trip must not reset cooldown clock: first={:?} second={:?}", first_remaining, second_remaining);
    assert_eq!(gate.tripped_at_ms, Some(0));
}

#[test]
fn test_reset_sl_clears_trip_state() {
    let mut gate = StopLossGate::new(300);
    gate.trip(SlTripReason::StopLoss, 0);
    assert!(gate.is_tripped());
    gate.reset_sl();
    assert!(!gate.is_tripped());
    assert!(gate.trip_reason().is_none());
    assert!(gate.is_trading_allowed(1));
}

#[test]
fn test_cooldown_secs_read_from_config() {
    let gate = StopLossGate::new(600);
    assert_eq!(gate.cooldown_secs, 600);
    assert_eq!(SlTripReason::StopLoss.description(), "stop-loss triggered");
}

// ── win-rate guard ─────────────────────────────────────────────────────

/// Where a win rate lies against the 40% minimum and 45% resume threshold
/// (the comparison itself is a float check of the binary).
#[derive(Clone, Copy, PartialEq)]
enum Rate {
    /// Under 40%.
    BelowMin,
    /// From 40% to under 45%.
    Band,
    /// 45% or more.
    Resume,
}

fn evaluate(guard: &mut WinRateGuard, rate: Rate, total_trades: u64) -> bool {
    guard.evaluate(total_trades, rate == Rate::BelowMin, rate == Rate::Resume)
}

fn enabled_guard() -> WinRateGuard {
    WinRateGuard::new(true, 10)
}

#[test]
fn test_disabled_guard_always_allows() {
    let mut guard = WinRateGuard::new(false, 10);
    assert!(evaluate(&mut guard, Rate::BelowMin /* 0.0 */, 1000));
    assert!(guard.is_trading_allowed());
    assert!(!guard.is_suppressed());
}

#[test]
fn test_warmup_window_allows_below_threshold() {
    let mut guard = enabled_guard();
    assert!(evaluate(&mut guard, Rate::BelowMin /* 0.0 */, 9), "warmup window must allow all trades");
    assert!(!guard.is_suppressed());
}

#[test]
fn test_warmup_boundary_exactly_min_trades_activates_guard() {
    let mut guard = enabled_guard();
    assert!(!evaluate(&mut guard, Rate::BelowMin /* 0.0 */, 10), "guard must activate at min_trades boundary");
    assert!(guard.is_suppressed());
}

#[test]
fn test_suppresses_below_min_win_rate() {
    let mut guard = enabled_guard();
    assert!(!evaluate(&mut guard, Rate::BelowMin /* 0.35 */, 20), "39.9% should suppress");
    assert!(guard.is_suppressed());
}

#[test]
fn test_does_not_suppress_at_min_win_rate() {
    let mut guard = enabled_guard();
    assert!(evaluate(&mut guard, Rate::Band /* 0.40 */, 20), "exactly 40% should NOT suppress");
    assert!(!guard.is_suppressed());
}

#[test]
fn test_does_not_suppress_above_threshold() {
    let mut guard = enabled_guard();
    assert!(evaluate(&mut guard, Rate::Resume /* 0.60 */, 20));
    assert!(!guard.is_suppressed());
}

#[test]
fn test_hysteresis_no_premature_resume_below_resume_pct() {
    let mut guard = enabled_guard();
    assert!(!evaluate(&mut guard, Rate::BelowMin /* 0.35 */, 20));
    assert!(guard.is_suppressed());
    assert!(!evaluate(&mut guard, Rate::Band /* 0.41 */, 21), "41% is above suppress but below resume — must stay suppressed");
    assert!(guard.is_suppressed(), "hysteresis: must NOT resume until above resume_pct");
}

#[test]
fn test_hysteresis_resumes_at_resume_pct() {
    let mut guard = enabled_guard();
    assert!(!evaluate(&mut guard, Rate::BelowMin /* 0.35 */, 20));
    assert!(guard.is_suppressed());
    assert!(evaluate(&mut guard, Rate::Resume /* 0.45 */, 25), "exactly 45% must trigger resume");
    assert!(!guard.is_suppressed(), "is_suppressed must clear after resume");
}

#[test]
fn test_hysteresis_resumes_above_resume_pct() {
    let mut guard = enabled_guard();
    assert!(!evaluate(&mut guard, Rate::BelowMin /* 0.35 */, 20));
    assert!(evaluate(&mut guard, Rate::Resume /* 0.60 */, 30), "60% well above resume band — must allow");
    assert!(!guard.is_suppressed());
}

#[test]
fn test_can_re_suppress_after_resume() {
    let mut guard = enabled_guard();
    assert!(!evaluate(&mut guard, Rate::BelowMin /* 0.35 */, 20));
    assert!(evaluate(&mut guard, Rate::Resume /* 0.50 */, 30));
    assert!(!guard.is_suppressed());
    assert!(!evaluate(&mut guard, Rate::BelowMin /* 0.30 */, 40));
    assert!(guard.is_suppressed());
}

#[test]
fn test_reason_empty_when_not_suppressed() {
    let guard = enabled_guard();
    assert_eq!(guard.suppression(), Suppression::NotSuppressed, "reason must be empty when not suppressed");
}

#[test]
fn test_reason_non_empty_when_suppressed() {
    let mut guard = enabled_guard();
    assert!(!evaluate(&mut guard, Rate::BelowMin /* 0.35 */, 20));
    assert_eq!(guard.suppression(), Suppression::BelowMinimum);
    assert!(!evaluate(&mut guard, Rate::Band /* 0.41 */, 21));
    assert_eq!(guard.suppression(), Suppression::BelowResume);
}

#[test]
fn test_reason_cleared_after_resume() {
    let mut guard = enabled_guard();
    assert!(!evaluate(&mut guard, Rate::BelowMin /* 0.35 */, 20));
    assert_ne!(guard.suppression(), Suppression::NotSuppressed);
    assert!(evaluate(&mut guard, Rate::Resume /* 0.50 */, 30));
    assert_eq!(guard.suppression(), Suppression::NotSuppressed, "reason must clear after resume");
}

#[test]
fn win_rate_guard_test_reads_correct_config_fields() {
    let guard = enabled_guard();
    assert!(guard.is_enabled());
    assert_eq!(guard.min_trades, 10);
}
