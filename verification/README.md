# llm-budget

Hard spend limits for LLM agents, verified with Verus. Every request is charged
against a per-agent budget and refused once the cap is hit; a fleet-wide cap
governs what can be committed to agents; a kill switch stops an agent for good;
a cascade moves an agent to a cheaper model tier when less than a set fraction
of its budget is left.

- `src/` is the library. Money is an integer: nano-dollars at the interface,
  micro-dollars in the counters. Each function states what it returns and
  changes; a timestamp is stated to be the conversion of what the clock showed.
  The proof functions named `law_...` state what holds of the library as a
  whole.
- `tests/` runs the library on concrete values.
- `app/` puts shared handles, `f64` dollars, `serde` types and session files on
  disk around the library.

| Module | What it holds |
|---|---|
| `money` | amounts, rounding, and how they are written out |
| `model` | `ModelTier` with its prices, `ModelCascade` |
| `budget` | `AtomicBudget`, `BudgetEnvelope`, `AgentBudget`, envelopes shared through handles, and why charges that run side by side keep to the limit |
| `fleet` | `FleetBudget`, `FleetAllocator` |
| `persistence` | `BudgetStore`: file names, cache, and what an outcome on disk means |
| `error` | `BudgetError` and its messages |
| `clock` | timestamps |

Things to know:

- Prices are approximate, and fixed per tier.
- `FleetAllocator::reallocate` checks a request and moves nothing.
- The fleet's record of spend is approximate: each charge adds the agent's
  running total. The per-agent limits are exact.
- A registration that is refused commits nothing. Registering a known ID again
  replaces its budget and leaves the old amount committed.
