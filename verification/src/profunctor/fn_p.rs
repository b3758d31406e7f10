//! The function profunctor: `P<A, B>` is a function from `A` to `B`.
use vstd::prelude::*;
use crate::higher::two_category::total;

verus! {

/// The function profunctor.
pub struct FnP;

impl FnP {
    /// Pre-composes `f` and post-composes `g`: `g ∘ pab ∘ f`.
    pub fn dimap<A, B, C, D, F: Fn(C) -> A, G: Fn(B) -> D, H: Fn(A) -> B>(f: F, g: G, pab: H) -> (r:
        impl Fn(C) -> D)
        requires
            total(f),
            total(g),
            total(pab),
        ensures
            total(r),
            forall|c: C, d: D|
                call_ensures(r, (c,), d) ==> exists|a: A, b: B|
                    call_ensures(f, (c,), a) && call_ensures(pab, (a,), b) && call_ensures(g, (b,), d),
    {
        move |c: C| -> (d: D)
            requires
                total(&f),
                total(&g),
                total(&pab),
            ensures
                exists|a: A, b: B|
                    call_ensures(&f, (c,), a) && call_ensures(&pab, (a,), b) && call_ensures(&g, (b,), d),
            {
                let a = f(c);
                let b = pab(a);
                g(b)
            }
    }

    /// Pre-composes `f`: `pab ∘ f`.
    pub fn lmap<A, B, C, F: Fn(C) -> A, H: Fn(A) -> B>(f: F, pab: H) -> (r: impl Fn(C) -> B)
        requires
            total(f),
            total(pab),
        ensures
            total(r),
            forall|c: C, b: B|
                call_ensures(r, (c,), b) ==> exists|a: A|
                    call_ensures(f, (c,), a) && call_ensures(pab, (a,), b),
    {
        move |c: C| -> (b: B)
            requires
                total(&f),
                total(&pab),
            ensures
                exists|a: A| call_ensures(&f, (c,), a) && call_ensures(&pab, (a,), b),
            {
                let a = f(c);
                pab(a)
            }
    }

    /// Post-composes `g`: `g ∘ pab`.
    pub fn rmap<A, B, D, G: Fn(B) -> D, H: Fn(A) -> B>(g: G, pab: H) -> (r: impl Fn(A) -> D)
        requires
            total(g),
            total(pab),
        ensures
            total(r),
            forall|a: A, d: D|
                call_ensures(r, (a,), d) ==> exists|b: B|
                    call_ensures(pab, (a,), b) && call_ensures(g, (b,), d),
    {
        move |a: A| -> (d: D)
            requires
                total(&g),
                total(&pab),
            ensures
                exists|b: B| call_ensures(&pab, (a,), b) && call_ensures(&g, (b,), d),
            {
                let b = pab(a);
                g(b)
            }
    }

    /// Acts on the first component of a pair, passing the second through.
    pub fn first<A, B, C, H: Fn(A) -> B>(pab: H) -> (r: impl Fn((A, C)) -> (B, C))
        requires
            total(pab),
        ensures
            total(r),
            forall|x: (A, C), y: (B, C)|
                call_ensures(r, (x,), y) ==> call_ensures(pab, (x.0,), y.0) && y.1 == x.1,
    {
        move |x: (A, C)| -> (y: (B, C))
            requires
                total(&pab),
            ensures
                call_ensures(&pab, (x.0,), y.0) && y.1 == x.1,
            {
                let (a, c) = x;
                (pab(a), c)
            }
    }

    /// Acts on the second component of a pair, passing the first through.
    pub fn second<A, B, C, H: Fn(A) -> B>(pab: H) -> (r: impl Fn((C, A)) -> (C, B))
        requires
            total(pab),
        ensures
            total(r),
            forall|x: (C, A), y: (C, B)|
                call_ensures(r, (x,), y) ==> call_ensures(pab, (x.1,), y.1) && y.0 == x.0,
    {
        move |x: (C, A)| -> (y: (C, B))
            requires
                total(&pab),
            ensures
                call_ensures(&pab, (x.1,), y.1) && y.0 == x.0,
            {
                let (c, a) = x;
                (c, pab(a))
            }
    }

    /// Acts on `Ok` values, passing `Err` values through.
    pub fn left<A, B, C, H: Fn(A) -> B>(pab: H) -> (r: impl Fn(Result<A, C>) -> Result<B, C>)
        requires
            total(pab),
        ensures
            total(r),
            forall|x: Result<A, C>, y: Result<B, C>|
                call_ensures(r, (x,), y) ==> match x {
                    Ok(a) => y matches Ok(b) && call_ensures(pab, (a,), b),
                    Err(c) => y == Err::<B, C>(c),
                },
    {
        move |x: Result<A, C>| -> (y: Result<B, C>)
            requires
                total(&pab),
            ensures
                match x {
                    Ok(a) => y matches Ok(b) && call_ensures(&pab, (a,), b),
                    Err(c) => y == Err::<B, C>(c),
                },
            {
                match x {
                    Ok(a) => Ok(pab(a)),
                    Err(c) => Err(c),
                }
            }
    }

    /// Acts on `Err` values, passing `Ok` values through.
    pub fn right<A, B, C, H: Fn(A) -> B>(pab: H) -> (r: impl Fn(Result<C, A>) -> Result<C, B>)
        requires
            total(pab),
        ensures
            total(r),
            forall|x: Result<C, A>, y: Result<C, B>|
                call_ensures(r, (x,), y) ==> match x {
                    Ok(c) => y == Ok::<C, B>(c),
                    Err(a) => y matches Err(b) && call_ensures(pab, (a,), b),
                },
    {
        move |x: Result<C, A>| -> (y: Result<C, B>)
            requires
                total(&pab),
            ensures
                match x {
                    Ok(c) => y == Ok::<C, B>(c),
                    Err(a) => y matches Err(b) && call_ensures(&pab, (a,), b),
                },
            {
                match x {
                    Ok(c) => Ok(c),
                    Err(a) => Err(pab(a)),
                }
            }
    }
}

} // verus!
