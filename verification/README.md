# TimeBreak

A micro-break aim trainer: a transparent overlay on the desktop where
silhouettes pop up and the player shoots them with recoil and spread
modelled on real weapons, followed by shot analytics and a coaching tip.

## Layout

- `src/` — the verified library (Verus):
  - `state.rs` — the break lifecycle state machine and its laws
    (escape, return to idle, no play without a countdown);
  - `telemetry.rs`, `metrics.rs` — what a shot contributes to the session
    tally, the tally itself (hits, kills, moving shots, sorted reaction
    times with median and ninetieth percentile) and the direction-bias
    classification;
  - `recommender.rs` — which coaching advice a session calls for, and the
    the advice record, and its id: the text of a version 4 UUID drawn
    from the operating system's random source;
  - `weapon.rs` — the weapon catalogue, real quantities held exactly in
    hundredths (the armour ratio in thousandths);
  - `recoil.rs` — spray progression and recovery;
  - `target.rs`, `spawner.rs`, `player.rs`, `spread.rs` — hitbox layouts,
    spawn schedule and target ids, stance rules.
- `app/` — the shell around it: floating-point physics, analytics and
  hit tests, SQLite storage, and a JSON command loop on standard input.
- `tests/` — tests of the library.
