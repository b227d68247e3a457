# roche

Roche-geometry routines for binary stars.

- `src/` is the verified library (Verus): every choice of case in the
  disc-eclipse computation, made from the results of its comparisons (how a
  line of sight meets a rim, which case a point falls in, what limits the
  eclipse, which rims the view through the central hole runs through and what
  each does to it, which windows result), the argument checks of the stream and
  Lagrangian-point routines, the tests for crossing a target radius or
  direction in the stream integration, and the `Star` type.
- `app/` is ordinary Rust around it: the floating-point geometry (vectors,
  Lagrangian points, disc eclipses, the Planck function, gas-stream
  integration with `bulirsch`).
- `tests/` exercises the library.
