//! Strict 2-categories: objects, morphisms between them, and 2-morphisms
//! between morphisms; and the 2-category of types and functions.
use vstd::prelude::*;

verus! {

/// Whether `f` accepts every argument.
pub open spec fn total<A, B, F: Fn(A) -> B>(f: F) -> bool {
    forall|a: A| call_requires(f, (a,))
}

/// `k` is `f` followed by `g`: every result of `k` is a result of `g` on a
/// result of `f`.
pub open spec fn composes_fn<A, B, C, F: Fn(A) -> B, G: Fn(B) -> C, K: Fn(A) -> C>(k: K, f: F, g: G) -> bool {
    forall|a: A, c: C|
        call_ensures(k, (a,), c) ==> exists|b: B| call_ensures(f, (a,), b) && call_ensures(g, (b,), c)
}

/// `k` returns its argument.
pub open spec fn is_identity<A, K: Fn(A) -> A>(k: K) -> bool {
    forall|a: A, b: A| call_ensures(k, (a,), b) ==> b == a
}

/// The 2-morphism structure of a 2-category: 2-morphisms with an identity
/// and vertical composition.
pub trait TwoCategory {
    /// 2-morphisms: transformations between morphisms.
    type TwoMorphism;

    /// The identity 2-morphism.
    fn id2() -> Self::TwoMorphism;

    /// Vertical composition of 2-morphisms.
    fn compose2_vertical(alpha: Self::TwoMorphism, beta: Self::TwoMorphism) -> Self::TwoMorphism;
}

/// The 2-category of types and functions, with trivial 2-morphisms.
pub struct Cat;

impl Cat {
    /// The identity morphism.
    pub fn id1<A>() -> (r: impl Fn(A) -> A)
        ensures
            total(r),
            is_identity(r),
    {
        |a: A| -> (b: A)
            ensures
                b == a,
            { a }
    }

    /// `f` followed by `g`.
    pub fn compose1<A, B, C, F: Fn(A) -> B, G: Fn(B) -> C>(f: F, g: G) -> (r: impl Fn(A) -> C)
        requires
            total(f),
            total(g),
        ensures
            total(r),
            composes_fn(r, f, g),
    {
        move |a: A| -> (c: C)
            requires
                total(&f),
                total(&g),
            ensures
                exists|b: B| call_ensures(&f, (a,), b) && call_ensures(&g, (b,), c),
            {
                let b = f(a);
                g(b)
            }
    }
}

impl TwoCategory for Cat {
    type TwoMorphism = ();

    fn id2() -> Self::TwoMorphism {
    }

    fn compose2_vertical(_alpha: Self::TwoMorphism, _beta: Self::TwoMorphism) -> Self::TwoMorphism {
    }
}

/// Composition of morphisms is associative: composing `f` with `g` and
/// then `h`, or `f` with the composite of `g` and `h`, relates an input
/// only to outputs reached through `f`, `g` and `h` in turn.
pub proof fn lemma_compose1_associative<A, B, C, D, F, G, H, FG, GH, K1, K2>(
    f: F,
    g: G,
    h: H,
    fg: FG,
    gh: GH,
    k1: K1,
    k2: K2,
) where
    F: Fn(A) -> B,
    G: Fn(B) -> C,
    H: Fn(C) -> D,
    FG: Fn(A) -> C,
    GH: Fn(B) -> D,
    K1: Fn(A) -> D,
    K2: Fn(A) -> D,

    requires
        composes_fn(fg, f, g),
        composes_fn(k1, fg, h),
        composes_fn(gh, g, h),
        composes_fn(k2, f, gh),
    ensures
        forall|a: A, d: D|
            call_ensures(k1, (a,), d) ==> exists|b: B, c: C|
                call_ensures(f, (a,), b) && call_ensures(g, (b,), c) && call_ensures(h, (c,), d),
        forall|a: A, d: D|
            call_ensures(k2, (a,), d) ==> exists|b: B, c: C|
                call_ensures(f, (a,), b) && call_ensures(g, (b,), c) && call_ensures(h, (c,), d),
{
    assert forall|a: A, d: D| call_ensures(k1, (a,), d) implies exists|b: B, c: C|
        call_ensures(f, (a,), b) && call_ensures(g, (b,), c) && call_ensures(h, (c,), d) by {
        let c = choose|c: C| call_ensures(fg, (a,), c) && call_ensures(h, (c,), d);
        let b = choose|b: B| call_ensures(f, (a,), b) && call_ensures(g, (b,), c);
    }
    assert forall|a: A, d: D| call_ensures(k2, (a,), d) implies exists|b: B, c: C|
        call_ensures(f, (a,), b) && call_ensures(g, (b,), c) && call_ensures(h, (c,), d) by {
        let b = choose|b: B| call_ensures(f, (a,), b) && call_ensures(gh, (b,), d);
        let c = choose|c: C| call_ensures(g, (b,), c) && call_ensures(h, (c,), d);
    }
}

/// The identity morphism is a unit of composition on both sides.
pub proof fn lemma_compose1_identity<A, B, F, I, J, K1, K2>(f: F, i: I, j: J, k1: K1, k2: K2) where
    F: Fn(A) -> B,
    I: Fn(A) -> A,
    J: Fn(B) -> B,
    K1: Fn(A) -> B,
    K2: Fn(A) -> B,

    requires
        is_identity(i),
        is_identity(j),
        composes_fn(k1, i, f),
        composes_fn(k2, f, j),
    ensures
        forall|a: A, b: B| call_ensures(k1, (a,), b) ==> call_ensures(f, (a,), b),
        forall|a: A, b: B| call_ensures(k2, (a,), b) ==> call_ensures(f, (a,), b),
{
    assert forall|a: A, b: B| call_ensures(k1, (a,), b) implies call_ensures(f, (a,), b) by {
        let x = choose|x: A| call_ensures(i, (a,), x) && call_ensures(f, (x,), b);
    }
    assert forall|a: A, b: B| call_ensures(k2, (a,), b) implies call_ensures(f, (a,), b) by {
        let y = choose|y: B| call_ensures(f, (a,), y) && call_ensures(j, (y,), b);
    }
}

} // verus!
