# quantum-thermo

Quantum thermodynamics of qubits: states, channels, Gibbs states, work
statistics, entropies and resource theories.

- `src/` — the verified library (Verus): the row-major layout of two-qubit
  density matrices (diagonal, partial-trace terms), the block kept by a local
  measurement, the 2×2 transpose, and the resource-theory decisions
  (free states, state conversion and its explanation).
- `app/` — the floating-point physics, with serde support, built on the
  verified library.
- `tests/` — tests of the verified library.
