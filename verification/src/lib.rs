//! Quantum thermodynamics on a qubit: the exactly checkable part.
//!
//! The numerical physics (density matrices, channels, thermal states, work
//! statistics, entropies) works in floating point; this crate holds the
//! logic around it that is independent of the number representation:
//! the layout of 2×2 and 4×4 matrices, the block selected by a local
//! measurement, and the decisions of the resource theories.

pub mod entropy_quantum;
pub mod qubit;
pub mod resource;
