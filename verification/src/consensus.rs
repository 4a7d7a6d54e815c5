use vstd::prelude::*;
use crate::signal::{SignalKind, spec_is_bullish, spec_is_bearish};

verus! {

/// How the consensus engine combines the signals of several strategies.
#[derive(Debug, Clone, Copy, PartialEq, Eq, Structural)]
pub enum ConsensusMode {
    Single,
    WeightedAverage,
    MajorityVote,
}

impl ConsensusMode {
    /// The default mode: follow the first strategy.
    pub fn default_mode() -> (m: Self)
        ensures
            m == ConsensusMode::Single,
    {
        ConsensusMode::Single
    }
}

/// Why the consensus is to hold.
#[derive(Debug, Clone, Copy, PartialEq, Eq, Structural)]
pub enum HoldReason {
    NoSignals,
    WeightedEmpty,
    WeightedNeutral,
    MajorityEmpty,
    MajorityTie,
}

impl HoldReason {
    /// Reason text carried by the resulting hold signal.
    pub fn text(&self) -> (s: &'static str)
        ensures
            s@ == spec_hold_text(*self),
    {
        match self {
            HoldReason::NoSignals => "no signals available",
            HoldReason::WeightedEmpty => "weighted: empty",
            HoldReason::WeightedNeutral => "weighted: neutral",
            HoldReason::MajorityEmpty => "majority: empty",
            HoldReason::MajorityTie => "majority: tie",
        }
    }
}

pub open spec fn spec_hold_text(r: HoldReason) -> Seq<char> {
    match r {
        HoldReason::NoSignals => "no signals available"@,
        HoldReason::WeightedEmpty => "weighted: empty"@,
        HoldReason::WeightedNeutral => "weighted: neutral"@,
        HoldReason::MajorityEmpty => "majority: empty"@,
        HoldReason::MajorityTie => "majority: tie"@,
    }
}

/// What the engine resolved the signals to.
#[derive(Debug, Clone, Copy, PartialEq, Eq, Structural)]
pub enum ConsensusOutcome {
    /// Pass on the first strategy's signal unchanged.
    First,
    /// A buy voted by the majority (reason "majority bull", confidence 0.75).
    MajorityBuy,
    /// A sell voted by the majority (reason "majority bear", confidence 0.75).
    MajoritySell,
    Hold(HoldReason),
}

/// Number of bullish signals in `s`.
pub open spec fn count_bullish(s: Seq<SignalKind>) -> nat
    decreases s.len(),
{
    if s.len() == 0 {
        0
    } else {
        count_bullish(s.drop_last()) + if spec_is_bullish(s.last()) { 1nat } else { 0 }
    }
}

/// Number of bearish signals in `s`.
pub open spec fn count_bearish(s: Seq<SignalKind>) -> nat
    decreases s.len(),
{
    if s.len() == 0 {
        0
    } else {
        count_bearish(s.drop_last()) + if spec_is_bearish(s.last()) { 1nat } else { 0 }
    }
}

proof fn lemma_counts_bounded(s: Seq<SignalKind>)
    ensures
        count_bullish(s) <= s.len(),
        count_bearish(s) <= s.len(),
    decreases s.len(),
{
    if s.len() > 0 {
        lemma_counts_bounded(s.drop_last());
    }
}

/// The outcome of resolving `kinds` in `mode`; `strong` tells whether the
/// average signal strength exceeds 0.6 (used by the weighted mode only).
pub open spec fn spec_resolve(mode: ConsensusMode, kinds: Seq<SignalKind>, strong: bool) -> ConsensusOutcome {
    match mode {
        ConsensusMode::Single => if kinds.len() == 0 {
            ConsensusOutcome::Hold(HoldReason::NoSignals)
        } else {
            ConsensusOutcome::First
        },
        ConsensusMode::WeightedAverage => if kinds.len() == 0 {
            ConsensusOutcome::Hold(HoldReason::WeightedEmpty)
        } else if strong {
            ConsensusOutcome::First
        } else {
            ConsensusOutcome::Hold(HoldReason::WeightedNeutral)
        },
        ConsensusMode::MajorityVote => if kinds.len() == 0 {
            ConsensusOutcome::Hold(HoldReason::MajorityEmpty)
        } else if count_bullish(kinds) > count_bearish(kinds) {
            ConsensusOutcome::MajorityBuy
        } else if count_bullish(kinds) < count_bearish(kinds) {
            ConsensusOutcome::MajoritySell
        } else {
            ConsensusOutcome::Hold(HoldReason::MajorityTie)
        },
    }
}

/// Consensus engine combining strategy signals into one decision.
#[derive(Debug, Clone, Copy)]
pub struct ConsensusEngine {
    pub mode: ConsensusMode,
}

impl ConsensusEngine {
    pub fn new(mode: ConsensusMode) -> (e: Self)
        ensures
            e.mode == mode,
    {
        ConsensusEngine { mode }
    }

    /// Resolves the strategies' signals (given by kind, in strategy order).
    pub fn resolve(&self, kinds: &[SignalKind], strong: bool) -> (o: ConsensusOutcome)
        ensures
            o == spec_resolve(self.mode, kinds@, strong),
    {
        match self.mode {
            ConsensusMode::Single => {
                if kinds.len() == 0 {
                    ConsensusOutcome::Hold(HoldReason::NoSignals)
                } else {
                    ConsensusOutcome::First
                }
            },
            ConsensusMode::WeightedAverage => {
                if kinds.len() == 0 {
                    ConsensusOutcome::Hold(HoldReason::WeightedEmpty)
                } else if strong {
                    ConsensusOutcome::First
                } else {
                    ConsensusOutcome::Hold(HoldReason::WeightedNeutral)
                }
            },
            ConsensusMode::MajorityVote => self.majority(kinds),
        }
    }

    fn majority(&self, kinds: &[SignalKind]) -> (o: ConsensusOutcome)
        requires
            self.mode == ConsensusMode::MajorityVote,
        ensures
            o == spec_resolve(self.mode, kinds@, false),
    {
        if kinds.len() == 0 {
            return ConsensusOutcome::Hold(HoldReason::MajorityEmpty);
        }
        let (bulls, bears) = count_directions(kinds);
        if bulls > bears {
            ConsensusOutcome::MajorityBuy
        } else if bulls < bears {
            ConsensusOutcome::MajoritySell
        } else {
            ConsensusOutcome::Hold(HoldReason::MajorityTie)
        }
    }
}

/// Counts the bullish and the bearish signals.
pub fn count_directions(kinds: &[SignalKind]) -> (r: (usize, usize))
    ensures
        r.0 == count_bullish(kinds@),
        r.1 == count_bearish(kinds@),
{
    let mut bulls: usize = 0;
    let mut bears: usize = 0;
    let mut i: usize = 0;
    while i < kinds.len()
        invariant
            i <= kinds@.len(),
            bulls == count_bullish(kinds@.take(i as int)),
            bears == count_bearish(kinds@.take(i as int)),
        decreases kinds@.len() - i,
    {
        proof {
            assert(kinds@.take(i as int + 1).drop_last() =~= kinds@.take(i as int));
            lemma_counts_bounded(kinds@.take(i as int));
        }
        if kinds[i].is_bullish() {
            bulls = bulls + 1;
        }
        if kinds[i].is_bearish() {
            bears = bears + 1;
        }
        i = i + 1;
    }
    proof {
        assert(kinds@.take(kinds@.len() as int) =~= kinds@);
    }
    (bulls, bears)
}

/// Law: majority voting is symmetric — mirroring every signal (buys
/// become sells and the other way round) mirrors the decision.
pub proof fn lemma_majority_symmetric(kinds: Seq<SignalKind>)
    ensures
        count_bullish(kinds.map_values(|k: SignalKind| mirror(k))) == count_bearish(kinds),
        count_bearish(kinds.map_values(|k: SignalKind| mirror(k))) == count_bullish(kinds),
        spec_resolve(ConsensusMode::MajorityVote, kinds, false) == ConsensusOutcome::MajorityBuy
            <==> spec_resolve(ConsensusMode::MajorityVote, kinds.map_values(|k: SignalKind| mirror(k)), false)
            == ConsensusOutcome::MajoritySell,
    decreases kinds.len(),
{
    let mk = kinds.map_values(|k: SignalKind| mirror(k));
    if kinds.len() > 0 {
        lemma_majority_symmetric(kinds.drop_last());
        assert(mk.drop_last() =~= kinds.drop_last().map_values(|k: SignalKind| mirror(k)));
    }
}

/// Law: what each mode resolves a list of signals to. With no signals every
/// mode holds, naming the mode's own empty case. Single mode passes on the first strategy's signal. Weighted
/// mode passes on the first strategy's signal when the average strength is
/// strong (above 0.6) and holds as neutral otherwise. Majority vote buys
/// when the bullish signals outnumber the bearish ones, sells in the
/// opposite case, and holds on a tie. Only the weighted mode looks at the
/// strength.
pub proof fn lemma_resolution_by_mode(mode: ConsensusMode, kinds: Seq<SignalKind>, strong: bool)
    ensures
        kinds.len() == 0 ==> spec_resolve(mode, kinds, strong) == ConsensusOutcome::Hold(
            match mode {
                ConsensusMode::Single => HoldReason::NoSignals,
                ConsensusMode::WeightedAverage => HoldReason::WeightedEmpty,
                ConsensusMode::MajorityVote => HoldReason::MajorityEmpty,
            },
        ),
        spec_resolve(mode, kinds, strong) == ConsensusOutcome::First ==> kinds.len() > 0,
        mode == ConsensusMode::Single && kinds.len() > 0 ==> spec_resolve(mode, kinds, strong)
            == ConsensusOutcome::First,
        mode == ConsensusMode::WeightedAverage && kinds.len() > 0 && strong ==> spec_resolve(
            mode,
            kinds,
            strong,
        ) == ConsensusOutcome::First,
        mode == ConsensusMode::WeightedAverage && kinds.len() > 0 && !strong ==> spec_resolve(
            mode,
            kinds,
            strong,
        ) == ConsensusOutcome::Hold(HoldReason::WeightedNeutral),
        mode == ConsensusMode::MajorityVote && kinds.len() > 0 ==> {
            &&& (spec_resolve(mode, kinds, strong) == ConsensusOutcome::MajorityBuy <==> count_bullish(kinds)
                > count_bearish(kinds))
            &&& (spec_resolve(mode, kinds, strong) == ConsensusOutcome::MajoritySell <==> count_bullish(
                kinds,
            ) < count_bearish(kinds))
            &&& (spec_resolve(mode, kinds, strong) == ConsensusOutcome::Hold(HoldReason::MajorityTie)
                <==> count_bullish(kinds) == count_bearish(kinds))
        },
        mode != ConsensusMode::WeightedAverage ==> spec_resolve(mode, kinds, true) == spec_resolve(
            mode,
            kinds,
            false,
        ),
{
}

/// The signal pointing the other way with the same strength.
pub open spec fn mirror(k: SignalKind) -> SignalKind {
    match k {
        SignalKind::StrongBuy => SignalKind::StrongSell,
        SignalKind::Buy => SignalKind::Sell,
        SignalKind::Hold => SignalKind::Hold,
        SignalKind::Sell => SignalKind::Buy,
        SignalKind::StrongSell => SignalKind::StrongBuy,
    }
}

} // verus!
