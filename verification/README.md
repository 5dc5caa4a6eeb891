# daneel

The verified core of DANEEL, a cognitive architecture whose alignment rests on
its structure: the Four Laws and the architectural invariants, bounded working
memory, attention over memory windows and the competition of candidate
thoughts on salience, thought assembly with a bounded cache,
volition (a veto over harmful thoughts), a sleep state machine, continuity of
identity, actor supervision, and the kin injection API's authentication and
rate limiting.

## Layout

- `src/` — the library, written in Verus. Public operations state what they
  return and change in `requires`/`ensures` over spec models (`Seq`, `int`);
  where a result depends on the clock or on a random draw, the contract
  states what holds for every reading or draw, and an `_at` form takes the
  reading as an argument. Properties that span operations stand as public
  proof functions (`lemma_*`, `law_*`).
  - `the_box/` — laws, invariants, core types, the cognitive loop's decisions,
    stimulus injection framing, cognitive-state metrics.
  - `actors/` — the state and request handling of each cognitive actor.
  - `api/` — HMAC bearer tokens and the injection rate limiter.
  - `resilience/` — actor supervision and crash-log naming and retention.
  - `time.rs`, `ieee.rs`, `text.rs` — durations and clock readings,
    single-precision values carried by their bit patterns, text helpers.
- `app/` — the program around the library: `main`, the actors' message
  loops (ractor), Redis streams, the HTTP edge (axum), crash-log files, and
  the single-precision arithmetic (salience composites, entropy, fractality).
- `tests/` — the library's tests.

Floating-point values are held by the library as `u32` bit patterns; the
comparisons it needs are proved against IEEE 754 ordering of those patterns,
and arithmetic on them happens in `app/`.
