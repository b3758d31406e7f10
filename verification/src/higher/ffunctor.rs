//! Functors between 2-categories, and monads on a 2-category.
use vstd::prelude::*;
use core::marker::PhantomData;
use super::two_category::TwoCategory;

verus! {

/// A functor between 2-categories, on 2-morphisms.
pub trait FFunctor<C1: TwoCategory, C2: TwoCategory> {
    /// The image of a 2-morphism.
    fn map_two_morphism(alpha: C1::TwoMorphism) -> C2::TwoMorphism;
}

/// A monad on a 2-category: an endofunctor with unit and multiplication
/// 2-morphisms.
pub trait FMonad<C: TwoCategory>: FFunctor<C, C> {
    /// The unit at `A`.
    fn unit<A>() -> C::TwoMorphism;

    /// The multiplication at `A`.
    fn multiply<A>() -> C::TwoMorphism;
}

/// The identity functor on a 2-category.
#[verifier::reject_recursive_types(C)]
pub struct IdentityFFunctor<C>(PhantomData<C>);

impl<C> IdentityFFunctor<C> {
    /// The image of a morphism: the morphism itself.
    pub fn map_morphism<M>(f: M) -> (r: M)
        ensures
            r == f,
    {
        f
    }

    /// The image of a 2-morphism: the 2-morphism itself.
    pub fn map_two_morphism<T>(alpha: T) -> (r: T)
        ensures
            r == alpha,
    {
        alpha
    }
}

impl<C: TwoCategory> FFunctor<C, C> for IdentityFFunctor<C> {
    /// The image of a 2-morphism: the 2-morphism itself.
    fn map_two_morphism(alpha: C::TwoMorphism) -> (r: C::TwoMorphism)
        ensures
            r == alpha,
    {
        alpha
    }
}

} // verus!
