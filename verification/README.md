# crosstraffic_wasm

Bindings of the HCM analysis engine (`transportations_library`) for the web
calculator.

- `src/` is the verified library: the reading of option strings (terrain,
  segment and section types, ramp options, editions, weekdays, intersection
  approaches and movements, LOS letters, ...), the shape checks on tabular
  inputs (weather and demand multiplier tables, lane-volume triples,
  roundabout entry arrays), the signalized approach layout, the urban
  facility's segment ledger, and the list helpers the result getters use.
  Every function carries a contract; Verus checks each one against its
  body, except for the few small wrappers around std and the analysis
  engine, whose contracts are trusted and say in their doc comments what
  they claim of the code they call.
- `app/` holds the `wasm_bindgen` classes: they own the engine's objects,
  carry the floating-point inputs and results across the wasm boundary and
  call the library for everything above.
- `tests/` exercises the library on concrete values.
