use gridzbotz::consensus::{ConsensusEngine, ConsensusMode, ConsensusOutcome, HoldReason, count_directions};
use gridzbotz::grid::{
    default_seed_orders_bypass, grid_signal_counts, lifecycle_check_due, placement_gate, select_stale_levels, LevelState,
    PauseCause, PlacementGate, RegimeGate, SeedGate,
};
use gridzbotz::regime::{classify, should_pause, MarketRegime, RegimePause};
use gridzbotz::registry::{plan_registry, EntryFlags};
use gridzbotz::signal::{detect_cross, detect_rsi_divergence, Cross, RSIDivergence, SignalCounts, SignalKind, SignalType};

/// Thresholds of a regime detector (true %), as configured.
struct Thresholds {
    very_low: f64,
    low: f64,
    medium: f64,
    high: f64,
}

const DEFAULT_THRESHOLDS: Thresholds = Thresholds { very_low: 0.5, low: 1.0, medium: 2.0, high: 3.0 };

fn classify_vol(t: &Thresholds, v: f64) -> MarketRegime {
    classify(v < t.very_low, v < t.low, v < t.medium, v < t.high)
}

fn pause_for(t: &Thresholds, pause_in_very_low_vol: bool, min_vol: f64, v: f64) -> RegimePause {
    should_pause(pause_in_very_low_vol, classify_vol(t, v), v < min_vol)
}

#[test]
fn test_threshold_ordering_basic() {
    let t = &DEFAULT_THRESHOLDS;
    assert_eq!(classify_vol(t, 0.2), MarketRegime::VeryLow);
    assert_eq!(classify_vol(t, 0.7), MarketRegime::Low);
    assert_eq!(classify_vol(t, 1.5), MarketRegime::Medium);
    assert_eq!(classify_vol(t, 2.2), MarketRegime::High);
    assert_eq!(classify_vol(t, 4.0), MarketRegime::VeryHigh);
}

#[test]
fn test_severity_scale_and_icon_labels() {
    let levels = [0.3, 0.8, 1.5, 2.2, 3.5];
    for (i, l) in levels.iter().enumerate() {
        let regime = classify_vol(&DEFAULT_THRESHOLDS, *l);
        assert_eq!(regime.severity(), i as u8);
        assert!(regime.label_with_icon().contains("_VOL"));
    }
}

#[test]
fn test_manual_regime_threshold_override() {
    let t = Thresholds { very_low: 1.0, low: 2.0, medium: 3.0, high: 4.0 };
    assert_eq!(classify_vol(&t, 0.5), MarketRegime::VeryLow);
    assert_eq!(classify_vol(&t, 3.5), MarketRegime::High);
}

#[test]
fn test_get_current_regime_getter() {
    let regime = MarketRegime::initial();
    assert_eq!(regime, MarketRegime::Medium, "Default should be Medium");
    assert!(!format!("{:?}", regime).is_empty(), "Regime should be debuggable");
}

#[test]
fn test_pause_when_below_min_threshold() {
    assert_eq!(pause_for(&DEFAULT_THRESHOLDS, false, 0.5, 0.3), RegimePause::BelowMinimum);
}

#[test]
fn test_no_pause_in_high_volatility() {
    assert_eq!(pause_for(&DEFAULT_THRESHOLDS, true, 0.02, 3.2), RegimePause::Trade);
}

#[test]
fn test_analyze_combined_output_consistency() {
    let regime = classify_vol(&DEFAULT_THRESHOLDS, 0.2);
    assert_eq!(regime, MarketRegime::VeryLow);
    let pause = pause_for(&DEFAULT_THRESHOLDS, true, 0.02, 0.2);
    assert_eq!(pause, RegimePause::VeryLowVol, "Pause expected in VeryLow vol state");
    assert!(regime.label().contains("VOL"));
}

#[test]
fn test_default_gate_allows_real_sol_volatility() {
    assert_eq!(pause_for(&DEFAULT_THRESHOLDS, false, 0.02, 0.03), RegimePause::Trade);
}

#[test]
fn test_default_gate_blocks_dead_market() {
    assert_eq!(pause_for(&DEFAULT_THRESHOLDS, false, 0.02, 0.005), RegimePause::BelowMinimum);
}

#[test]
fn regime_labels_and_high_vol() {
    assert_eq!(MarketRegime::VeryLow.label(), "VERY_LOW_VOL");
    assert_eq!(MarketRegime::VeryHigh.label(), "VERY_HIGH_VOL");
    assert_eq!(MarketRegime::Low.label_with_icon(), "🙂 LOW_VOL");
    assert!(MarketRegime::High.is_high_vol());
    assert!(MarketRegime::VeryHigh.is_high_vol());
    assert!(!MarketRegime::Medium.is_high_vol());
    assert_eq!(MarketRegime::VeryHigh.severity(), 4);
}

// ── consensus ──────────────────────────────────────────────────────────

fn sample_kinds() -> Vec<SignalKind> {
    vec![SignalKind::Buy, SignalKind::Sell, SignalKind::Hold]
}

#[test]
fn test_single_returns_first() {
    let engine = ConsensusEngine::new(ConsensusMode::Single);
    assert_eq!(engine.resolve(&sample_kinds(), false), ConsensusOutcome::First);
    assert_eq!(sample_kinds()[0], SignalKind::Buy);
}

#[test]
fn test_weighted_mode_produces_signal() {
    // strengths: buy 0.9 → 0.25 + 0.225, sell 0.3 → 0.25 + 0.075, hold 0
    let strengths = [0.25 + 0.9 * 0.25, 0.25 + 0.3 * 0.25, 0.0];
    let avg: f64 = strengths.iter().sum::<f64>() / 3.0;
    let engine = ConsensusEngine::new(ConsensusMode::WeightedAverage);
    let out = engine.resolve(&sample_kinds(), avg > 0.6);
    assert!(out == ConsensusOutcome::First || out == ConsensusOutcome::Hold(HoldReason::WeightedNeutral));
    assert_eq!(out, ConsensusOutcome::Hold(HoldReason::WeightedNeutral));
}

#[test]
fn test_majority_vote_returns_expected() {
    let engine = ConsensusEngine::new(ConsensusMode::MajorityVote);
    let kinds = vec![SignalKind::Buy, SignalKind::Buy, SignalKind::Sell];
    assert_eq!(engine.resolve(&kinds, false), ConsensusOutcome::MajorityBuy, "Expected Buy signal with clear majority");
}

#[test]
fn consensus_empty_and_tie() {
    let majority = ConsensusEngine::new(ConsensusMode::MajorityVote);
    assert_eq!(majority.resolve(&[], false), ConsensusOutcome::Hold(HoldReason::MajorityEmpty));
    assert_eq!(
        majority.resolve(&[SignalKind::StrongBuy, SignalKind::StrongSell, SignalKind::Hold], false),
        ConsensusOutcome::Hold(HoldReason::MajorityTie)
    );
    assert_eq!(majority.resolve(&[SignalKind::StrongSell], false), ConsensusOutcome::MajoritySell);
    assert_eq!(ConsensusEngine::new(ConsensusMode::Single).resolve(&[], true), ConsensusOutcome::Hold(HoldReason::NoSignals));
    assert_eq!(HoldReason::NoSignals.text(), "no signals available");
    assert_eq!(count_directions(&[SignalKind::Buy, SignalKind::StrongBuy, SignalKind::Sell]), (2, 1));
    assert_eq!(ConsensusMode::default_mode(), ConsensusMode::Single);
}

#[test]
fn signal_kinds_and_counts() {
    assert_eq!(SignalKind::StrongBuy.signal_type(), SignalType::Buy);
    assert_eq!(SignalKind::StrongSell.signal_type(), SignalType::Sell);
    assert_eq!(SignalKind::Hold.signal_type(), SignalType::Hold);
    let mut c = SignalCounts::new();
    c.record_signal(SignalKind::StrongBuy);
    c.record_signal(SignalKind::Sell);
    c.record_signal(SignalKind::Hold);
    assert_eq!((c.signals_generated, c.buy_signals, c.sell_signals, c.hold_signals), (3, 1, 1, 1));
}

#[test]
fn crossovers_and_divergence() {
    assert_eq!(detect_cross(-1, 1), Some(Cross::Golden));
    assert_eq!(detect_cross(1, -1), Some(Cross::Death));
    assert_eq!(detect_cross(0, 1), None);
    assert_eq!(detect_rsi_divergence(5, Some((4, 0, 2, 3))), RSIDivergence::Bullish);
    assert_eq!(detect_rsi_divergence(5, Some((1, 2, 4, 0))), RSIDivergence::Bearish);
    assert_eq!(detect_rsi_divergence(5, Some((1, 2, 3, 0))), RSIDivergence::NoDivergence);
    assert_eq!(detect_rsi_divergence(5, None), RSIDivergence::NoDivergence);
}

// ── grid ───────────────────────────────────────────────────────────────

#[test]
fn test_config_default_seed_bypass_is_true() {
    assert!(default_seed_orders_bypass(), "seed_orders_bypass must default to true");
}

#[test]
fn test_seed_bypass_allows_initial_orders() {
    let seed = SeedGate::new(true);
    assert!(seed.is_seeding());
    assert_eq!(placement_gate(true, seed, true), PlacementGate::SeedBypass, "seed bypass: buy must pass during seeding");
}

#[test]
fn test_seed_bypass_off_after_mark_seeding_complete() {
    let mut seed = SeedGate::new(true);
    assert!(seed.is_seeding());
    assert!(seed.mark_seeding_complete());
    assert!(!seed.is_seeding());
    assert_eq!(placement_gate(true, seed, true), PlacementGate::CheckFees);
}

#[test]
fn test_mark_seeding_complete_idempotent() {
    let mut seed = SeedGate::new(true);
    seed.mark_seeding_complete();
    assert!(!seed.mark_seeding_complete());
    assert!(!seed.is_seeding());
}

#[test]
fn test_seed_bypass_disabled_filter_from_order_one() {
    let mut seed = SeedGate::new(false);
    assert!(!seed.is_seeding());
    seed.mark_seeding_complete();
    assert!(!seed.is_seeding());
    assert_eq!(placement_gate(false, seed, false), PlacementGate::FeeFilteringDisabled);
    assert_eq!(placement_gate(true, seed, false), PlacementGate::NoPriceYet);
}

#[test]
fn test_lifecycle_disabled_returns_empty() {
    assert!(!lifecycle_check_due(false, 0, 10_000_000, 5));
}

#[test]
fn test_lifecycle_throttle_suppresses_within_interval() {
    // checked at construction (t = 0); 60-minute refresh interval
    assert!(!lifecycle_check_due(true, 0, 1_000, 60));
    assert!(!lifecycle_check_due(true, 0, 60 * 60_000 - 1, 60));
    assert!(lifecycle_check_due(true, 0, 60 * 60_000, 60));
}

#[test]
fn test_lifecycle_never_cancels_buy_filled_level() {
    let levels = vec![
        LevelState { id: 1, pending: false, stale: true },
        LevelState { id: 2, pending: true, stale: true },
        LevelState { id: 3, pending: true, stale: false },
    ];
    let stale = select_stale_levels(&levels);
    assert!(!stale.contains(&1), "BuyFilled level must never appear in stale cancellation list");
    assert_eq!(stale, vec![2]);
}

#[test]
fn grid_stats_counts() {
    let c = grid_signal_counts(10, 4);
    assert_eq!((c.signals_generated, c.buy_signals, c.sell_signals, c.hold_signals, c.rebalances_executed), (10, 2, 2, 6, 4));
    assert_eq!(grid_signal_counts(3, 5).hold_signals, 0);
}

#[test]
fn regime_gate_pauses_and_resumes() {
    let mut gate = RegimeGate::new();
    assert!(gate.should_trade_now(false, true, true, true));
    assert!(!gate.should_trade_now(true, true, true, false));
    assert_eq!(gate.cause, PauseCause::VeryLowVolRegime);
    assert!(!gate.should_trade_now(true, true, false, true));
    assert_eq!(gate.cause, PauseCause::VeryLowVolRegime, "first pause cause is kept");
    assert!(gate.should_trade_now(true, true, false, false));
    assert!(!gate.paused);
}

// ── registry ───────────────────────────────────────────────────────────

#[test]
fn test_execution_only_not_registered_in_wma() {
    let (attached, voters) = plan_registry(&[EntryFlags { enabled: true, wma_voter: false }]);
    assert_eq!(attached, vec![0]);
    assert!(voters.is_empty());
}

#[test]
fn test_regular_add_still_registers_in_wma() {
    let (attached, voters) = plan_registry(&[EntryFlags { enabled: true, wma_voter: true }]);
    assert_eq!(attached, vec![0]);
    assert_eq!(voters, vec![0]);
}

#[test]
fn test_registry_disabled_strategy_not_in_wma() {
    // .add(gr1, 0.40).add_if(false, gr2, 0.20)
    let entries = [EntryFlags { enabled: true, wma_voter: true }, EntryFlags { enabled: false, wma_voter: true }];
    let (attached, voters) = plan_registry(&entries);
    assert_eq!(attached.len(), 1);
    assert_eq!(voters, vec![0]);
}

#[test]
fn test_registry_builder_preserves_weight_order() {
    let weights = [0.40_f64, 0.25];
    let entries = [EntryFlags { enabled: true, wma_voter: true }; 2];
    let (attached, _) = plan_registry(&entries);
    assert_eq!(attached.len(), 2);
    let w: Vec<f64> = attached.iter().map(|i| weights[*i]).collect();
    assert_eq!(w, vec![0.40, 0.25]);
}

#[test]
fn test_registry_builder_add_if_enabled() {
    let entries = [EntryFlags { enabled: true, wma_voter: true }, EntryFlags { enabled: false, wma_voter: true }];
    assert_eq!(plan_registry(&entries).0.len(), 1);
}

#[test]
fn test_registry_builder_empty() {
    let (attached, voters) = plan_registry(&[]);
    assert!(attached.is_empty());
    assert_eq!(attached.len(), 0);
    assert!(voters.is_empty());
}

#[test]
fn test_registry_builder_build() {
    let weights = [0.40_f64];
    let (attached, _) = plan_registry(&[EntryFlags { enabled: true, wma_voter: true }]);
    let w: Vec<f64> = attached.iter().map(|i| weights[*i]).collect();
    assert_eq!(attached.len(), 1);
    assert_eq!(w.len(), 1);
    assert_eq!(w[0], 0.40);
}

#[test]
fn test_registry_build_registers_wma_slots() {
    let (_, voters) = plan_registry(&[EntryFlags { enabled: true, wma_voter: true }]);
    assert!(voters.contains(&0));
}

#[test]
fn test_add_if_execution_only_enabled() {
    let weights = [0.40_f64];
    let (attached, voters) = plan_registry(&[EntryFlags { enabled: true, wma_voter: false }]);
    let w: Vec<f64> = attached.iter().map(|i| weights[*i]).collect();
    assert_eq!(attached.len(), 1);
    assert_eq!(w, vec![0.40]);
    assert!(voters.is_empty());
}

#[test]
fn test_add_if_execution_only_disabled() {
    let (attached, voters) = plan_registry(&[EntryFlags { enabled: false, wma_voter: false }]);
    assert_eq!(attached.len(), 0);
    assert!(voters.is_empty());
}
