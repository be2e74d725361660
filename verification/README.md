# ap_copter

The vehicle-level decisions of a multicopter flight stack, written in Verus:
arming checks, failsafes, the land and crash detectors, auxiliary switches,
the flight modes' state machines (AltHold, Acro, Drift, Brake, Land, Auto),
the heading command, and AutoTune's sequencing, gain bookkeeping and twitch
outcomes.

Every function in `src/` carries a contract over spec functions and is
proved by Verus; the properties that span several calls are public proof
functions (`lemma_*`) next to the code they speak of.

The flight stack measures the world in floating point. Those measurements
are compared with their limits outside the verified library, in `app/`, and
the outcomes of the comparisons are handed to `src/` as booleans; the library
decides from them. `app/` also holds the real-valued arithmetic itself (gain
steps, twitch targets, the heading slews).

- `src/` — the verified library.
- `tests/` — tests of the library on concrete values.
- `app/` — the floating-point side that feeds the library.
