//! Algebraic structures, profunctor optics, law witnesses and higher
//! categories with their laws proved, and an index of the public items of a
//! Rust workspace.
pub mod algebra;
pub mod index;
pub mod optics;
pub mod profunctor;
pub mod witness;
pub mod higher;
pub mod recursion;
