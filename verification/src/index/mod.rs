//! An index of the public API items of a Rust workspace.
pub mod text;
pub mod scan;
pub mod item;
pub mod source;
pub mod order;
pub mod workspace;
