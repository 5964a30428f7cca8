# chapaty_template

Trading agents for the chapaty backtesting engine, with their decision logic
verified in Verus.

- `src/` — the verified library: the agents' per-bar state machines (SMA
  crossover, breakout, template), their parameter grids, the bar clock that
  keeps `act` idempotent, and the runner's computations (grid subset,
  leaderboard size, report and crash-log paths, configuration values).
- `tests/` — tests of the library on concrete values.
- `app/` — the program around it: the chapaty `Agent` implementations with the
  floating-point indicators, environment loading, the backtest and grid search,
  report writing, and crash reporting.
