use vstd::prelude::*;
use vstd::string::*;

verus! {

/// Market volatility regime, ordered from calmest to most volatile.
#[derive(Debug, Clone, Copy, PartialEq, Eq, Structural)]
pub enum MarketRegime {
    VeryLow,
    Low,
    Medium,
    High,
    VeryHigh,
}

/// Severity of a regime on the scale 0 (calmest) to 4 (most volatile).
pub open spec fn spec_severity(r: MarketRegime) -> u8 {
    match r {
        MarketRegime::VeryLow => 0,
        MarketRegime::Low => 1,
        MarketRegime::Medium => 2,
        MarketRegime::High => 3,
        MarketRegime::VeryHigh => 4,
    }
}

pub open spec fn spec_label(r: MarketRegime) -> Seq<char> {
    match r {
        MarketRegime::VeryLow => "VERY_LOW_VOL"@,
        MarketRegime::Low => "LOW_VOL"@,
        MarketRegime::Medium => "MEDIUM_VOL"@,
        MarketRegime::High => "HIGH_VOL"@,
        MarketRegime::VeryHigh => "VERY_HIGH_VOL"@,
    }
}

pub open spec fn spec_label_with_icon(r: MarketRegime) -> Seq<char> {
    match r {
        MarketRegime::VeryLow => "😴 VERY_LOW_VOL"@,
        MarketRegime::Low => "🙂 LOW_VOL"@,
        MarketRegime::Medium => "⚖️ MEDIUM_VOL"@,
        MarketRegime::High => "🔥 HIGH_VOL"@,
        MarketRegime::VeryHigh => "🚨 VERY_HIGH_VOL"@,
    }
}

impl MarketRegime {
    /// Machine label of the regime.
    pub fn label(&self) -> (s: &'static str)
        ensures
            s@ == spec_label(*self),
    {
        match self {
            MarketRegime::VeryLow => "VERY_LOW_VOL",
            MarketRegime::Low => "LOW_VOL",
            MarketRegime::Medium => "MEDIUM_VOL",
            MarketRegime::High => "HIGH_VOL",
            MarketRegime::VeryHigh => "VERY_HIGH_VOL",
        }
    }

    /// Label with a leading icon, for dashboards.
    pub fn label_with_icon(&self) -> (s: &'static str)
        ensures
            s@ == spec_label_with_icon(*self),
    {
        match self {
            MarketRegime::VeryLow => "😴 VERY_LOW_VOL",
            MarketRegime::Low => "🙂 LOW_VOL",
            MarketRegime::Medium => "⚖️ MEDIUM_VOL",
            MarketRegime::High => "🔥 HIGH_VOL",
            MarketRegime::VeryHigh => "🚨 VERY_HIGH_VOL",
        }
    }

    /// High and very high volatility.
    pub fn is_high_vol(&self) -> (b: bool)
        ensures
            b == (*self == MarketRegime::High || *self == MarketRegime::VeryHigh),
    {
        matches!(self, MarketRegime::High | MarketRegime::VeryHigh)
    }

    /// The regime a detector starts in.
    pub fn initial() -> (r: Self)
        ensures
            r == MarketRegime::Medium,
    {
        MarketRegime::Medium
    }

    /// Numerical severity scale 0 (low) to 4 (high).
    pub fn severity(&self) -> (s: u8)
        ensures
            s == spec_severity(*self),
    {
        match self {
            MarketRegime::VeryLow => 0,
            MarketRegime::Low => 1,
            MarketRegime::Medium => 2,
            MarketRegime::High => 3,
            MarketRegime::VeryHigh => 4,
        }
    }
}

/// The regime a machine label names, if any.
pub open spec fn spec_regime_of_label(s: Seq<char>) -> Option<MarketRegime> {
    if s == "VERY_LOW_VOL"@ {
        Some(MarketRegime::VeryLow)
    } else if s == "LOW_VOL"@ {
        Some(MarketRegime::Low)
    } else if s == "MEDIUM_VOL"@ {
        Some(MarketRegime::Medium)
    } else if s == "HIGH_VOL"@ {
        Some(MarketRegime::High)
    } else if s == "VERY_HIGH_VOL"@ {
        Some(MarketRegime::VeryHigh)
    } else {
        None
    }
}

/// Reads a machine label back into its regime (`None` for any other text).
pub fn regime_of_label(label: &str) -> (r: Option<MarketRegime>)
    ensures
        r == spec_regime_of_label(label@),
{
    let s = String::from_str(label);
    if s == String::from_str("VERY_LOW_VOL") {
        Some(MarketRegime::VeryLow)
    } else if s == String::from_str("LOW_VOL") {
        Some(MarketRegime::Low)
    } else if s == String::from_str("MEDIUM_VOL") {
        Some(MarketRegime::Medium)
    } else if s == String::from_str("HIGH_VOL") {
        Some(MarketRegime::High)
    } else if s == String::from_str("VERY_HIGH_VOL") {
        Some(MarketRegime::VeryHigh)
    } else {
        None
    }
}

/// Law: reading a regime's label gives the regime back, so the labels
/// are distinct.
pub proof fn lemma_label_roundtrip(r: MarketRegime)
    ensures
        spec_regime_of_label(spec_label(r)) == Some(r),
{
    reveal_strlit("VERY_LOW_VOL");
    reveal_strlit("LOW_VOL");
    reveal_strlit("MEDIUM_VOL");
    reveal_strlit("HIGH_VOL");
    reveal_strlit("VERY_HIGH_VOL");
    assert("VERY_LOW_VOL"@.len() == 12);
    assert("LOW_VOL"@.len() == 7);
    assert("MEDIUM_VOL"@.len() == 10);
    assert("HIGH_VOL"@.len() == 8);
    assert("VERY_HIGH_VOL"@.len() == 13);
}

/// Regime of a volatility reading, from its comparisons with the four
/// ascending thresholds (very low, low, medium, high): the first threshold
/// the reading is below decides.
pub open spec fn spec_classify(below_very_low: bool, below_low: bool, below_medium: bool, below_high: bool) -> MarketRegime {
    if below_very_low {
        MarketRegime::VeryLow
    } else if below_low {
        MarketRegime::Low
    } else if below_medium {
        MarketRegime::Medium
    } else if below_high {
        MarketRegime::High
    } else {
        MarketRegime::VeryHigh
    }
}

pub fn classify(below_very_low: bool, below_low: bool, below_medium: bool, below_high: bool) -> (r: MarketRegime)
    ensures
        r == spec_classify(below_very_low, below_low, below_medium, below_high),
{
    if below_very_low {
        MarketRegime::VeryLow
    } else if below_low {
        MarketRegime::Low
    } else if below_medium {
        MarketRegime::Medium
    } else if below_high {
        MarketRegime::High
    } else {
        MarketRegime::VeryHigh
    }
}

/// Why the regime detector pauses trading.
#[derive(Debug, Clone, Copy, PartialEq, Eq, Structural)]
pub enum RegimePause {
    /// Trading may go on.
    Trade,
    /// The regime is very low volatility and the configuration pauses there.
    VeryLowVol,
    /// Volatility is under the configured minimum.
    BelowMinimum,
}

/// The detector's pause decision: the very-low-volatility rule first,
/// then the minimum volatility.
pub fn should_pause(pause_in_very_low_vol: bool, regime: MarketRegime, below_min: bool) -> (p: RegimePause)
    ensures
        p == (if pause_in_very_low_vol && regime == MarketRegime::VeryLow {
            RegimePause::VeryLowVol
        } else if below_min {
            RegimePause::BelowMinimum
        } else {
            RegimePause::Trade
        }),
        p == RegimePause::Trade <==> !(pause_in_very_low_vol && regime == MarketRegime::VeryLow) && !below_min,
        below_min ==> p != RegimePause::Trade,
{
    if pause_in_very_low_vol && regime == MarketRegime::VeryLow {
        RegimePause::VeryLowVol
    } else if below_min {
        RegimePause::BelowMinimum
    } else {
        RegimePause::Trade
    }
}

/// Law: with ascending thresholds the classification is monotone — a
/// reading below more thresholds never gets a more severe regime, and the
/// high-volatility regimes are exactly severity 3 and up.
pub proof fn lemma_classify_monotone(a: (bool, bool, bool, bool), b: (bool, bool, bool, bool))
    requires
        a.0 ==> a.1, a.1 ==> a.2, a.2 ==> a.3,
        b.0 ==> b.1, b.1 ==> b.2, b.2 ==> b.3,
        b.0 ==> a.0, b.1 ==> a.1, b.2 ==> a.2, b.3 ==> a.3,
    ensures
        spec_severity(spec_classify(a.0, a.1, a.2, a.3)) <= spec_severity(spec_classify(b.0, b.1, b.2, b.3)),
{
}

/// Law: a regime is high volatility exactly when its severity is 3 or more.
pub proof fn lemma_high_vol_is_severe(r: MarketRegime)
    ensures
        (r == MarketRegime::High || r == MarketRegime::VeryHigh) <==> spec_severity(r) >= 3,
{
}

} // verus!
