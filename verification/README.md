# lockin

Application locks that cannot be cut short: a lock names an executable and a
duration of 1 to 3650 days, and while it is active every process running that
executable is warned for a grace period and then terminated; a respawn is
terminated at once.

- `src/` is the library, verified with Verus. Its contracts are stated over the
  views of its types (`LockStateView`, `EngineView`, `TimeValidatorView`,
  `StoreView`, ...) and over spec functions such as `check_step`,
  `record_outcome` and `load_outcome`; the laws that span several calls are the
  public `law_*` proof functions.
- `app/` is the service around it: the command line, the asynchronous
  enforcement loop, the UI channel and the JSON encoding of stored snapshots.
- `tests/` runs the library on concrete values.

Instants are milliseconds since the Unix epoch (UTC); durations are milliseconds.
