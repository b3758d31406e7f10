//! Profunctor optics over closures, their composition and conversions.
pub mod lens;
pub mod modify;
pub mod getter;
pub mod review;
pub mod setter;
pub mod fold;
pub mod traversal;
pub mod iso;
pub mod prism;
pub mod optic;
