# aria

The scheduling, execution and registry logic behind the Aria SDK, written
in Verus: each function carries a contract, and Verus proves the code
meets it.

- `src/` — the verified library.
  - `text`, `json`: text primitives on character sequences and the JSON
    model the logic reads.
  - `aria`: registry entry types, their defaults, stored-name parsing,
    prompt sections, the key-value prefix pattern and handler hashes.
  - `afw`: schedules, the cron job table and its bridge to cron functions,
    pipeline ordering and runs, team runs (five modes), feed runs and
    scheduling decisions, task execution decisions.
  - `agent`: stop reasons, turn usage and per-run event sequence numbers.
  - `sdk`: the decisions of the HTTP routes (tenants, error answers,
    pagination, execution inputs).
- `tests/` — tests of the library.
- `app/` — the runtime around it: PostgreSQL registries, the model
  provider interface, timer loops and executors, the event bus and the
  HTTP router.
