use vstd::prelude::*;
use crate::window::{RollingWindow, keep_last};

verus! {

/// Sample bounds of the shared volatility analyser.
#[derive(Debug, Clone, Copy, PartialEq, Eq, Structural)]
pub struct VolatilityConfig {
    pub max_samples: usize,
    pub min_samples: usize,
    pub verbose: bool,
}

impl VolatilityConfig {
    /// 600 samples kept, 30 needed before any volatility is computed.
    pub fn default_config() -> (c: Self)
        ensures
            c == (VolatilityConfig { max_samples: 600, min_samples: 30, verbose: false }),
    {
        VolatilityConfig { max_samples: 600, min_samples: 30, verbose: false }
    }
}

/// Price history of the volatility analyser: the last `max_samples`
/// valid prices; statistics are computed once `min_samples` are held.
pub struct PriceHistory<T> {
    pub config: VolatilityConfig,
    pub window: RollingWindow<T>,
}

impl<T> PriceHistory<T> {
    pub open spec fn wf(&self) -> bool {
        &&& self.window.wf()
        &&& self.window.spec_capacity() == self.config.max_samples
    }

    pub fn new(config: VolatilityConfig) -> (h: Self)
        ensures
            h.wf(),
            h.config == config,
            h.window@ == Seq::<T>::empty(),
    {
        PriceHistory { config, window: RollingWindow::new(config.max_samples) }
    }

    /// Adds a valid price; returns whether enough samples are now held to
    /// recompute the statistics.
    pub fn add(&mut self, price: T) -> (ready: bool)
        requires
            old(self).wf(),
        ensures
            final(self).wf(),
            final(self).config == old(self).config,
            final(self).window@ == keep_last(old(self).window@.push(price), old(self).config.max_samples as nat),
            ready == (final(self).window@.len() >= old(self).config.min_samples),
    {
        self.window.push(price);
        self.window.len() >= self.config.min_samples
    }

    /// Number of samples held.
    pub fn sample_count(&self) -> (n: usize)
        ensures
            n == self.window@.len(),
    {
        self.window.len()
    }

    /// Forgets every sample.
    pub fn reset(&mut self)
        requires
            old(self).wf(),
        ensures
            final(self).wf(),
            final(self).config == old(self).config,
            final(self).window@ == Seq::<T>::empty(),
    {
        self.window.clear();
    }
}

} // verus!
