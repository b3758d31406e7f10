//! Data types for recursion schemes.
pub mod either;
