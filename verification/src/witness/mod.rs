//! Law checks, property markers, rewrite witnesses, proven values and
//! refinement types.
pub mod law_check;
pub mod property;
pub mod rewrite;
pub mod refinement;
pub mod proven;
