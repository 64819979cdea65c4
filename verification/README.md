# net_kit

Cross-platform network reachability monitoring, split in two:

- `src/` — the verified library (Verus). It holds the state and every
  decision of the monitor:
  - `session.rs`: the start / shutdown lifecycle slot (an engine is created
    only when none runs; repeated starts and shutdowns are no-ops; every
    session gets its own scope: the instance identity and a rising session
    number);
  - `replies.rs`: the facade's answers, including those given when no
    session is running;
  - `monitor_state.rs`: the per-session state — listener registry with
    wrapping, collision-free handle allocation within the session, handles
    tagged with their session so that handles of other instances or earlier
    sessions never resolve, reachability and IP-stack bookkeeping, change
    detection and the dispatch list of listeners to call;
  - `monitor_task.rs`: the monitor task as a state machine from event to
    action, with proofs that the initial-state signal is always sent once and
    that a task leaving its watch loop resets the shared state;
  - `interface_state.rs`, `ip_stack.rs`, `network_status.rs`: reachability
    and IP-stack rules;
  - `platform_report.rs`, `text.rs`: parsing of the Windows wireless-interface
    report and network-name checks (Unicode trimming, ASCII case folding);
  - `net_error.rs`: the error type.
- `app/` — the facade `Net` (locks, the async start, the runtime engine, the
  interface watcher loop that drives `MonitorTask`, listener dispatch on the
  engine's callback pool, and the Windows COM / `netsh` queries).
- `tests/` — tests of the library, including the lifecycle scenarios driven
  through the verified slot, replies and state.
