//! A value type for an amount of memory, counted in bits.
//!
//! [`MemorySize`] stores a non-negative magnitude as a `u64` bit count and
//! offers constructors, accessors, checked arithmetic, ordering helpers,
//! alignment, and human-readable formatting of the byte-equivalent value.

pub mod human;
pub mod laws;
pub mod size;

pub use size::MemorySize;
