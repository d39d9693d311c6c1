# azerrust

Evaluation of AzerothCore condition rows, verified with Verus.

- `src/` — the verified library. `conditions::Condition::try_from` parses a
  condition row (type, three values, negation, target) into a typed condition;
  each typed condition's `meets` decides from the plain values that the world
  server reports for its target (`entities::*Ref`, `map::MapRef`) and from its
  answers to the queries the condition names; `conditions::meets` runs the
  whole protocol and answers 1 (met), 0 (not met) or -1 (left to the server).
- `app/` — the C++ bridge (cxx) to the world server: handles on the server's
  objects, the reading of the values handed to the library, and the
  floating-point parts (health percentages, distances, angles).
- `tests/` — tests of the library on concrete values.
