# gridzbotz

The decision core of a Solana grid trading bot, verified with Verus.

- `src/` — the verified library: risk gates (circuit breaker, stop-loss
  cooldown, win-rate hysteresis, daily trade limits), strategy decision
  tables (RSI, enhanced RSI, moving-average and MACD momentum, mean
  reversion), consensus voting and the weighted-majority round, regime
  classification, grid placement and lifecycle rules, RPC failover, session
  bookkeeping, the Prometheus series registry and exposition text, and the
  keypair file format. Each public function states its result in `ensures`;
  the `lemma_*` proof functions state the properties that span functions.
- `tests/` — tests of the library on concrete values.
- `app/` — the binary: command-line parsing, logging, the trading loop,
  file and network I/O, and the floating-point arithmetic (indicators,
  money figures, confidences) that feeds the library's decisions.
