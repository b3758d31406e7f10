//! Higher categories: 2-categories, bicategories, enriched categories and
//! functors between 2-categories.
pub mod two_category;
pub mod bicategory;
pub mod rich_cat;
pub mod coherence;
pub mod enriched;
pub mod ffunctor;
