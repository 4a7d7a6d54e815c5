use vstd::prelude::*;

verus! {

/// Smallest value of a non-empty sequence.
pub open spec fn seq_min(s: Seq<u64>) -> u64
    recommends
        s.len() > 0,
    decreases s.len(),
{
    if s.len() <= 1 {
        s[0]
    } else {
        let m = seq_min(s.drop_last());
        if s.last() < m {
            s.last()
        } else {
            m
        }
    }
}

/// Largest value of a non-empty sequence.
pub open spec fn seq_max(s: Seq<u64>) -> u64
    recommends
        s.len() > 0,
    decreases s.len(),
{
    if s.len() <= 1 {
        s[0]
    } else {
        let m = seq_max(s.drop_last());
        if s.last() > m {
            s.last()
        } else {
            m
        }
    }
}

/// `seq_min` is a member of the sequence and below all of its members;
/// `seq_max` likewise above.
pub proof fn lemma_min_max(s: Seq<u64>)
    requires
        s.len() > 0,
    ensures
        s.contains(seq_min(s)),
        s.contains(seq_max(s)),
        forall|i: int| 0 <= i < s.len() ==> seq_min(s) <= #[trigger] s[i] && s[i] <= seq_max(s),
    decreases s.len(),
{
    if s.len() > 1 {
        lemma_min_max(s.drop_last());
        assert forall|i: int| 0 <= i < s.len() implies seq_min(s) <= #[trigger] s[i] && s[i] <= seq_max(s) by {
            if i < s.len() - 1 {
                assert(s[i] == s.drop_last()[i]);
            }
        }
        let pm = choose|j: int| 0 <= j < s.len() - 1 && s.drop_last()[j] == seq_min(s.drop_last());
        let px = choose|j: int| 0 <= j < s.len() - 1 && s.drop_last()[j] == seq_max(s.drop_last());
        assert(s[pm] == s.drop_last()[pm]);
        assert(s[px] == s.drop_last()[px]);
        assert(s[s.len() - 1] == s.last());
    } else {
        assert(s[0] == s[0]);
    }
}

/// Counters of one trading session. Wall-clock timing is kept by the caller.
pub struct SessionMetrics {
    pub cycle_times: Vec<u64>,
    pub repositions: u32,
    pub errors: u32,
    pub price_updates: u64,
    pub successful_cycles: u32,
    pub failed_cycles: u32,
    pub failed_price_fetches: u32,
    pub slow_cycles: u32,
    pub regime_gate_blocks: u32,
}

/// How a cycle ended, as shown in the cycle log line.
#[derive(Debug, Clone, Copy, PartialEq, Eq, Structural)]
pub enum CycleStatus {
    Shutdown,
    Halted,
    Repositioned,
    Stable,
}

impl CycleStatus {
    /// Status label printed in the cycle line.
    pub fn label(&self) -> (s: &'static str)
        ensures
            s@ == (match *self {
                CycleStatus::Shutdown => "🛑 Shutdown"@,
                CycleStatus::Halted => "🚫 Halted"@,
                CycleStatus::Repositioned => "🔄 Repositioned"@,
                CycleStatus::Stable => "✓ Stable"@,
            }),
    {
        match self {
            CycleStatus::Shutdown => "🛑 Shutdown",
            CycleStatus::Halted => "🚫 Halted",
            CycleStatus::Repositioned => "🔄 Repositioned",
            CycleStatus::Stable => "✓ Stable",
        }
    }
}

/// What the bot reported for one tick, with its lifetime order count.
#[derive(Debug, Clone, Copy)]
pub struct TickReport {
    /// False when the bot asks the loop to stop.
    pub active: bool,
    /// True when the tick carried a pause reason.
    pub paused_with_reason: bool,
    pub orders_placed: u32,
    pub fills: u32,
    /// Orders placed over the bot's lifetime.
    pub total_orders: u64,
    /// Whether the bot's stats show it paused.
    pub stats_paused: bool,
}

impl SessionMetrics {
    pub fn new() -> (m: Self)
        ensures
            m.cycle_times@ == Seq::<u64>::empty(),
            m.repositions == 0,
            m.errors == 0,
            m.price_updates == 0,
            m.successful_cycles == 0,
            m.failed_cycles == 0,
            m.failed_price_fetches == 0,
            m.slow_cycles == 0,
            m.regime_gate_blocks == 0,
    {
        SessionMetrics {
            cycle_times: Vec::new(),
            repositions: 0,
            errors: 0,
            price_updates: 0,
            successful_cycles: 0,
            failed_cycles: 0,
            failed_price_fetches: 0,
            slow_cycles: 0,
            regime_gate_blocks: 0,
        }
    }

    /// Records a completed cycle and whether it was slower than the threshold.
    pub fn record_cycle(&mut self, duration_ms: u64, slow_threshold: u64)
        requires
            old(self).successful_cycles < u32::MAX,
            old(self).slow_cycles < u32::MAX,
        ensures
            final(self).cycle_times@ == old(self).cycle_times@.push(duration_ms),
            final(self).successful_cycles == old(self).successful_cycles + 1,
            final(self).slow_cycles == old(self).slow_cycles + (if duration_ms > slow_threshold { 1int } else { 0 }),
            final(self).repositions == old(self).repositions,
            final(self).errors == old(self).errors,
            final(self).price_updates == old(self).price_updates,
            final(self).failed_cycles == old(self).failed_cycles,
            final(self).failed_price_fetches == old(self).failed_price_fetches,
            final(self).regime_gate_blocks == old(self).regime_gate_blocks,
    {
        self.cycle_times.push(duration_ms);
        self.successful_cycles = self.successful_cycles + 1;
        if duration_ms > slow_threshold {
            self.slow_cycles = self.slow_cycles + 1;
        }
    }

    /// Records a failed cycle (also counted as an error).
    pub fn record_failure(&mut self)
        requires
            old(self).failed_cycles < u32::MAX,
            old(self).errors < u32::MAX,
        ensures
            final(self).failed_cycles == old(self).failed_cycles + 1,
            final(self).errors == old(self).errors + 1,
            final(self).cycle_times@ == old(self).cycle_times@,
            final(self).successful_cycles == old(self).successful_cycles,
            final(self).slow_cycles == old(self).slow_cycles,
            final(self).repositions == old(self).repositions,
            final(self).price_updates == old(self).price_updates,
            final(self).failed_price_fetches == old(self).failed_price_fetches,
            final(self).regime_gate_blocks == old(self).regime_gate_blocks,
    {
        self.failed_cycles = self.failed_cycles + 1;
        self.errors = self.errors + 1;
    }

    /// Shortest cycle in ms (0 before the first cycle).
    pub fn min_cycle_time(&self) -> (r: u64)
        ensures
            self.cycle_times@.len() == 0 ==> r == 0,
            self.cycle_times@.len() > 0 ==> r == seq_min(self.cycle_times@),
    {
        let n = self.cycle_times.len();
        if n == 0 {
            return 0;
        }
        let mut best: u64 = self.cycle_times[0];
        let mut i: usize = 1;
        while i < n
            invariant
                n == self.cycle_times@.len(),
                1 <= i <= n,
                best == seq_min(self.cycle_times@.take(i as int)),
            decreases n - i,
        {
            proof {
                assert(self.cycle_times@.take(i as int + 1).drop_last() =~= self.cycle_times@.take(i as int));
            }
            if self.cycle_times[i] < best {
                best = self.cycle_times[i];
            }
            i = i + 1;
        }
        proof {
            assert(self.cycle_times@.take(n as int) =~= self.cycle_times@);
        }
        best
    }

    /// Longest cycle in ms (0 before the first cycle).
    pub fn max_cycle_time(&self) -> (r: u64)
        ensures
            self.cycle_times@.len() == 0 ==> r == 0,
            self.cycle_times@.len() > 0 ==> r == seq_max(self.cycle_times@),
    {
        let n = self.cycle_times.len();
        if n == 0 {
            return 0;
        }
        let mut best: u64 = self.cycle_times[0];
        let mut i: usize = 1;
        while i < n
            invariant
                n == self.cycle_times@.len(),
                1 <= i <= n,
                best == seq_max(self.cycle_times@.take(i as int)),
            decreases n - i,
        {
            proof {
                assert(self.cycle_times@.take(i as int + 1).drop_last() =~= self.cycle_times@.take(i as int));
            }
            if self.cycle_times[i] > best {
                best = self.cycle_times[i];
            }
            i = i + 1;
        }
        proof {
            assert(self.cycle_times@.take(n as int) =~= self.cycle_times@);
        }
        best
    }

    /// A cycle whose price read was invalid: counted as a failed fetch and a failure.
    pub fn record_invalid_price(&mut self)
        requires
            old(self).failed_price_fetches < u32::MAX,
            old(self).failed_cycles < u32::MAX,
            old(self).errors < u32::MAX,
        ensures
            final(self).failed_price_fetches == old(self).failed_price_fetches + 1,
            final(self).failed_cycles == old(self).failed_cycles + 1,
            final(self).errors == old(self).errors + 1,
            final(self).cycle_times@ == old(self).cycle_times@,
            final(self).successful_cycles == old(self).successful_cycles,
            final(self).repositions == old(self).repositions,
            final(self).regime_gate_blocks == old(self).regime_gate_blocks,
            final(self).price_updates == old(self).price_updates,
    {
        self.failed_price_fetches = self.failed_price_fetches + 1;
        self.record_failure();
    }

    /// A tick that returned an error: one error for the tick, and the cycle
    /// is recorded as a failure (which counts a second error).
    pub fn record_tick_error(&mut self)
        requires
            old(self).failed_cycles < u32::MAX,
            old(self).errors < u32::MAX - 1,
        ensures
            final(self).failed_cycles == old(self).failed_cycles + 1,
            final(self).errors == old(self).errors + 2,
            final(self).cycle_times@ == old(self).cycle_times@,
            final(self).successful_cycles == old(self).successful_cycles,
            final(self).repositions == old(self).repositions,
            final(self).regime_gate_blocks == old(self).regime_gate_blocks,
            final(self).price_updates == old(self).price_updates,
            final(self).failed_price_fetches == old(self).failed_price_fetches,
    {
        self.errors = self.errors + 1;
        self.record_failure();
    }

    /// Books a successful tick. Returns `None` when the bot asked to stop
    /// (nothing is booked), otherwise the cycle status and the lifetime
    /// order count to compare the next tick against.
    pub fn record_tick(&mut self, tick: TickReport, last_reposition_count: u64) -> (r: Option<(CycleStatus, u64)>)
        requires
            old(self).repositions < u32::MAX,
            old(self).regime_gate_blocks < u32::MAX - 1,
        ensures
            !tick.active ==> r is None && *final(self) == *old(self),
            tick.active ==> {
                let grew = tick.total_orders > last_reposition_count;
                &&& r == Some((
                    if tick.paused_with_reason {
                        CycleStatus::Halted
                    } else if tick.orders_placed > 0 {
                        CycleStatus::Repositioned
                    } else {
                        CycleStatus::Stable
                    },
                    if grew { tick.total_orders } else { last_reposition_count },
                ))
                &&& final(self).repositions == old(self).repositions + (if grew { 1int } else { 0 })
                &&& final(self).regime_gate_blocks == old(self).regime_gate_blocks
                    + (if tick.stats_paused { 1int } else { 0 })
                    + (if tick.paused_with_reason { 1int } else { 0 })
                &&& final(self).cycle_times@ == old(self).cycle_times@
                &&& final(self).errors == old(self).errors
                &&& final(self).price_updates == old(self).price_updates
                &&& final(self).successful_cycles == old(self).successful_cycles
                &&& final(self).failed_cycles == old(self).failed_cycles
                &&& final(self).failed_price_fetches == old(self).failed_price_fetches
                &&& final(self).slow_cycles == old(self).slow_cycles
            },
    {
        if !tick.active {
            return None;
        }
        let mut last = last_reposition_count;
        let new_repositions = tick.total_orders.saturating_sub(last_reposition_count);
        if new_repositions > 0 {
            self.repositions = self.repositions + 1;
            last = tick.total_orders;
        }
        if tick.stats_paused {
            self.regime_gate_blocks = self.regime_gate_blocks + 1;
        }
        let status = if tick.paused_with_reason {
            self.regime_gate_blocks = self.regime_gate_blocks + 1;
            CycleStatus::Halted
        } else if tick.orders_placed > 0 {
            CycleStatus::Repositioned
        } else {
            CycleStatus::Stable
        };
        Some((status, last))
    }
}

/// Number of cycles to run: unbounded (`u32::MAX`) in live mode, otherwise
/// the configured count truncated to 32 bits.
pub fn total_cycles(is_live: bool, configured: usize) -> (n: u32)
    ensures
        n == (if is_live { u32::MAX } else { configured as u32 }),
{
    if is_live {
        u32::MAX
    } else {
        configured as u32
    }
}

/// A cycle is slow beyond three cycle intervals.
pub fn slow_cycle_threshold(cycle_interval_ms: u64) -> (t: u64)
    requires
        cycle_interval_ms * 3 <= u64::MAX,
    ensures
        t == cycle_interval_ms * 3,
{
    cycle_interval_ms * 3
}

/// How long to sleep after a cycle: the rest of the interval, or nothing
/// when the cycle overran it.
pub fn sleep_after_cycle(cycle_time_ms: u64, cycle_interval_ms: u64) -> (r: Option<u64>)
    ensures
        cycle_time_ms < cycle_interval_ms ==> r == Some((cycle_interval_ms - cycle_time_ms) as u64),
        cycle_time_ms >= cycle_interval_ms ==> r is None,
{
    if cycle_time_ms < cycle_interval_ms {
        Some(cycle_interval_ms - cycle_time_ms)
    } else {
        None
    }
}

/// Whether the periodic stats line is due at this cycle.
pub fn stats_due(enable_metrics: bool, cycle: u32, stats_interval: u32) -> (b: bool)
    requires
        enable_metrics ==> stats_interval > 0,
    ensures
        b == (enable_metrics && cycle % stats_interval == 0),
{
    enable_metrics && cycle % stats_interval == 0
}

/// Law: the shortest and longest recorded cycles are recorded cycle times
/// bounding every other one.
pub proof fn lemma_cycle_extremes(m: SessionMetrics)
    requires
        m.cycle_times@.len() > 0,
    ensures
        m.cycle_times@.contains(seq_min(m.cycle_times@)),
        m.cycle_times@.contains(seq_max(m.cycle_times@)),
        forall|i: int| 0 <= i < m.cycle_times@.len() ==> seq_min(m.cycle_times@) <= #[trigger] m.cycle_times@[i] <= seq_max(m.cycle_times@),
{
    lemma_min_max(m.cycle_times@);
}

} // verus!
