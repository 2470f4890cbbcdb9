//! Month-by-month cash-value projections for a life-insurance-style policy.
//!
//! The library holds the verified core: the projection schedule and its
//! roll-forward bookkeeping, rate-curve construction from plain records, the
//! premium solver's control machine, and the worker-pool dispatch accounting.
//! Monetary quantities are carried as IEEE 754 `f64` bit patterns (`u64`):
//! the verifier does not reason about floating-point arithmetic, so the
//! arithmetic kernel that combines them lives outside the library and hands
//! its results back as bits.

pub mod bench;
pub mod bits;
pub mod errors;
pub mod illustration;
pub mod pool;
pub mod rates;
pub mod schedule;
pub mod solver;
