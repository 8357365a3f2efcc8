# maelstrom

Numerical core of a Position-Based Fluids (PBF) simulator, with its rules
proved by Verus.

## Layout

- `src/` — the verified library.
  - `fluid.rs`: fixed interaction lists (validated rows, lookup), filtering a
    row by kernel support, and the position of a particle's own term in its
    ascending per-particle sums.
  - `config/`: fixed policies, schema and text checks, solver-iteration and
    switch rules, exact derived-value assertions, applying a configuration
    layer with field-by-field provenance, and the canonical TOML inspection.
  - `scene/`: choice enums, configuration selection and relative references,
    plane and particle limits, identity order, lattice size and lattice
    enumeration order, and the scene inspection text.
  - `keys.rs`: the configuration and scene comparison keys.
  - `text.rs`: whitespace and control-character classes, text equality and
    basic-string quoting.
  - `error.rs`: the numerical error type.
- `app/` — ordinary Rust around the library: binary32 vector maths, writing
  binary32 values as text, kernels,
  density and correction arithmetic, plane geometry, CFL diagnostics, lattice
  equilibrium, TOML parsing with serde, file loading, and error messages.
- `tests/` — tests of the library.

Binary32 values that the library records (in errors and exact assertions) are
carried as their IEEE-754 bit patterns.
