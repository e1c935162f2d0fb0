//! A minimal PLONKish circuit arithmetization layer.
//!
//! The library expresses the relation `z = x^2 * y^2 + c` as a set of
//! fixed-shape row constraints and wire equalities: one custom gate over
//! three advice columns and five selector (fixed) columns, four single-row
//! regions wired together by copy constraints, and a public-input binding
//! for the result. A mock backend validates a synthesized trace against
//! its gate polynomial, the copy constraints and the public inputs.

pub mod checker;
pub mod chip;
pub mod circuit;
pub mod cs;
pub mod field;
pub mod gate;
pub mod laws;
pub mod mock;
pub mod value;

pub use field::Fp;
pub use value::Value;
