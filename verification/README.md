# saddle_interaction

A world-interaction runtime for Bevy games: candidate ranking, sticky focus,
gated slot offers, instant, hold, toggle, mash, passive and staged
executions, cooldowns, one-shot consumption, exclusive reservations and
lifecycle messages. The decision logic is a Verus library whose contracts
and laws are checked by the verifier; the engine plugin around it measures
the world and carries the results.

## Layout

- `src/` — the verified library.
  - `scalar.rs`: bit-exact carriers for floating-point values and the total
    order `f32::total_cmp` induces on them.
  - `ids.rs`, `table.rs`, `components.rs`, `config.rs`, `messages.rs`: the
    data model; `table.rs` is a keyed table whose view is a `Map`.
  - `runtime.rs`: the shared runtime tables (cooldowns, consumption,
    reservations, toggles, stage positions, pending cancellations).
  - `control.rs`: per-actor input state and candidate merging.
  - `scoring.rs`, `focus.rs`: candidate ranking and sticky focus.
  - `gating.rs`: the ordered availability checks and offer resolution.
  - `execution.rs`: starting, advancing, completing and cancelling.
  - `prompt.rs`: focus markers and change reporting.
  - `order.rs`, `util.rs`: sorted-order facts and slot helpers.
  - `laws.rs`: properties that span several operations.
- `tests/` — executable tests of the library.
- `app/` — the Bevy plugin: components and resources with engine derives,
  the systems that read the world, measure distances, time and occlusion in
  floating point, call the library, and publish its messages.
