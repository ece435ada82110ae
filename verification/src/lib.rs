//! Parametric sketch solving: entities whose coordinates are references into a
//! shared pool of scalar parameters, constraints between those entities, and
//! the construction of the numeric system (residuals and partial derivatives)
//! that an optimizer drives towards zero.
//!
//! The library moves scalars around and decides which closed-form formula
//! applies where; it performs no arithmetic on them. A scalar is carried as
//! the bit pattern of a binary64 number, so every decision made here is exact.

pub mod scalar;
pub mod ids;
pub mod entities;
pub mod objects;
pub mod error;
pub mod constraint;
pub mod evaluator;
pub mod free_map;
pub mod projector;
pub mod driver;
