//! Bicategories: 2-categories whose composition is associative and unital
//! only up to invertible 2-morphisms.
use vstd::prelude::*;
use super::two_category::{Cat, TwoCategory};

verus! {

/// A bicategory: the associator and the unitors are 2-morphisms.
pub trait Bicategory: TwoCategory {
    /// The associator `(h ∘ g) ∘ f ⇒ h ∘ (g ∘ f)` for morphisms between
    /// `A`, `B`, `C` and `D`.
    fn associator<A, B, C, D>() -> Self::TwoMorphism;

    /// The left unitor `id ∘ f ⇒ f` for a morphism from `A` to `B`.
    fn left_unitor<A, B>() -> Self::TwoMorphism;

    /// The right unitor `f ∘ id ⇒ f` for a morphism from `A` to `B`.
    fn right_unitor<A, B>() -> Self::TwoMorphism;
}

/// In the strict 2-category of types and functions the coherence cells are
/// trivial.
impl Bicategory for Cat {
    fn associator<A, B, C, D>() -> Self::TwoMorphism {
    }

    fn left_unitor<A, B>() -> Self::TwoMorphism {
    }

    fn right_unitor<A, B>() -> Self::TwoMorphism {
    }
}

} // verus!
