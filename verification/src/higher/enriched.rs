//! Enriched categories: hom-objects drawn from a monoidal category; here
//! the category of sets and functions, and a one-object monoid category.
use vstd::prelude::*;
use super::two_category::{composes_fn, is_identity, total};

verus! {

/// Enrichment over sets: hom-objects are functions.
pub struct SetEnrichment;

/// The category of types and functions, enriched over sets.
pub struct SetCategory;

impl SetCategory {
    /// `f` followed by `g`.
    pub fn compose<A, B, C, F: Fn(A) -> B, G: Fn(B) -> C>(f: F, g: G) -> (r: impl Fn(A) -> C)
        requires
            total(f),
            total(g),
        ensures
            total(r),
            composes_fn(r, f, g),
    {
        move |a: A| -> (c: C)
            requires
                total(&f),
                total(&g),
            ensures
                exists|b: B| call_ensures(&f, (a,), b) && call_ensures(&g, (b,), c),
            {
                let b = f(a);
                g(b)
            }
    }

    /// The identity function.
    pub fn id<A>() -> (r: impl Fn(A) -> A)
        ensures
            total(r),
            is_identity(r),
    {
        |a: A| -> (b: A)
            ensures
                b == a,
            { a }
    }
}

/// Enrichment over a monoid: a single trivial hom-object.
pub struct MonoidEnrichment;

/// The one-object category of a monoid, with trivial hom-objects.
pub struct MonoidCategory;

impl MonoidCategory {
    /// Composition of trivial hom-objects.
    pub fn compose(_f: (), _g: ()) {
    }

    /// The trivial identity.
    pub fn id() {
    }
}

} // verus!
