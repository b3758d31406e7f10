//! The forgetful profunctor: `P<A, B>` is a function from `A` into a fixed
//! result type `R`, ignoring `B`. Its `wander` folds the foci into a monoid.
use vstd::prelude::*;
use core::marker::PhantomData;
use crate::algebra::Monoid;
use crate::higher::two_category::total;
use crate::optics::fold::{Fold, fold_views};
use crate::optics::lens::total_get;

verus! {

/// The forgetful profunctor with result type `R`.
#[verifier::reject_recursive_types(R)]
pub struct ForgetF<R>(PhantomData<R>);

impl<R> ForgetF<R> {
    /// Pre-composes `f`; the post-composition is forgotten.
    pub fn dimap<A, B, C, D, F: Fn(C) -> A, G: Fn(B) -> D, H: Fn(A) -> R>(f: F, _g: G, pab: H) -> (r:
        impl Fn(C) -> R)
        requires
            total(f),
            total(pab),
        ensures
            total(r),
            forall|c: C, x: R|
                call_ensures(r, (c,), x) ==> exists|a: A|
                    call_ensures(f, (c,), a) && call_ensures(pab, (a,), x),
    {
        move |c: C| -> (x: R)
            requires
                total(&f),
                total(&pab),
            ensures
                exists|a: A| call_ensures(&f, (c,), a) && call_ensures(&pab, (a,), x),
            {
                let a = f(c);
                pab(a)
            }
    }

    /// Pre-composes `f`.
    pub fn lmap<A, C, F: Fn(C) -> A, H: Fn(A) -> R>(f: F, pab: H) -> (r: impl Fn(C) -> R)
        requires
            total(f),
            total(pab),
        ensures
            total(r),
            forall|c: C, x: R|
                call_ensures(r, (c,), x) ==> exists|a: A|
                    call_ensures(f, (c,), a) && call_ensures(pab, (a,), x),
    {
        move |c: C| -> (x: R)
            requires
                total(&f),
                total(&pab),
            ensures
                exists|a: A| call_ensures(&f, (c,), a) && call_ensures(&pab, (a,), x),
            {
                let a = f(c);
                pab(a)
            }
    }

    /// Post-composition is forgotten: the reader is unchanged.
    pub fn rmap<A, B, D, G: Fn(B) -> D, H: Fn(A) -> R>(_g: G, pab: H) -> (r: H)
        ensures
            r == pab,
    {
        pab
    }

    /// Reads the first component of a pair.
    pub fn first<A, C, H: Fn(A) -> R>(pab: H) -> (r: impl Fn((A, C)) -> R)
        requires
            total(pab),
        ensures
            total(r),
            forall|x: (A, C), y: R| call_ensures(r, (x,), y) ==> call_ensures(pab, (x.0,), y),
    {
        move |x: (A, C)| -> (y: R)
            requires
                total(&pab),
            ensures
                call_ensures(&pab, (x.0,), y),
            {
                let (a, _c) = x;
                pab(a)
            }
    }

    /// Reads the second component of a pair.
    pub fn second<A, C, H: Fn(A) -> R>(pab: H) -> (r: impl Fn((C, A)) -> R)
        requires
            total(pab),
        ensures
            total(r),
            forall|x: (C, A), y: R| call_ensures(r, (x,), y) ==> call_ensures(pab, (x.1,), y),
    {
        move |x: (C, A)| -> (y: R)
            requires
                total(&pab),
            ensures
                call_ensures(&pab, (x.1,), y),
            {
                let (_c, a) = x;
                pab(a)
            }
    }
}

impl<R: Monoid> ForgetF<R> {
    /// Reads `Ok` values; `Err` values give the identity.
    pub fn left<A, C, H: Fn(A) -> R>(pab: H) -> (r: impl Fn(Result<A, C>) -> R)
        requires
            total(pab),
        ensures
            total(r),
            forall|x: Result<A, C>, y: R|
                call_ensures(r, (x,), y) ==> match x {
                    Ok(a) => call_ensures(pab, (a,), y),
                    Err(_) => y@ == R::empty_spec(),
                },
    {
        move |x: Result<A, C>| -> (y: R)
            requires
                total(&pab),
            ensures
                match x {
                    Ok(a) => call_ensures(&pab, (a,), y),
                    Err(_) => y@ == R::empty_spec(),
                },
            {
                match x {
                    Ok(a) => pab(a),
                    Err(_) => R::empty(),
                }
            }
    }

    /// Reads `Err` values; `Ok` values give the identity.
    pub fn right<A, C, H: Fn(A) -> R>(pab: H) -> (r: impl Fn(Result<C, A>) -> R)
        requires
            total(pab),
        ensures
            total(r),
            forall|x: Result<C, A>, y: R|
                call_ensures(r, (x,), y) ==> match x {
                    Ok(_) => y@ == R::empty_spec(),
                    Err(a) => call_ensures(pab, (a,), y),
                },
    {
        move |x: Result<C, A>| -> (y: R)
            requires
                total(&pab),
            ensures
                match x {
                    Ok(_) => y@ == R::empty_spec(),
                    Err(a) => call_ensures(&pab, (a,), y),
                },
            {
                match x {
                    Ok(_) => R::empty(),
                    Err(a) => pab(a),
                }
            }
    }

    /// Folds the foci listed by `get_all` into the monoid, each read by
    /// `pab`, left to right from the identity.
    pub fn wander<S, A, G: Fn(&S) -> Vec<A>, H: Fn(A) -> R>(get_all: G, pab: H) -> (r: impl Fn(S) -> R)
        requires
            total_get(get_all),
            total(pab),
        ensures
            total(r),
            forall|s: S, x: R|
                call_ensures(r, (s,), x) ==> exists|v: Vec<A>, rs: Seq<R>|
                    call_ensures(get_all, (&s,), v) && rs.len() == v@.len() && (forall|i: int|
                        0 <= i < v@.len() ==> call_ensures(pab, (v@[i],), #[trigger] rs[i])) && x@
                        == fold_views(rs),
    {
        let fold = Fold::new(get_all);
        proof {
            assert(fold.fold_fn() == get_all);
        }
        move |s: S| -> (x: R)
            requires
                total(&pab),
            ensures
                exists|v: Vec<A>, rs: Seq<R>|
                    call_ensures(fold.fold_fn(), (&s,), v) && rs.len() == v@.len() && (forall|i: int|
                        0 <= i < v@.len() ==> call_ensures(&pab, (v@[i],), #[trigger] rs[i])) && x@
                        == fold_views(rs),
            { fold.fold_map(&s, &pab) }
    }
}

} // verus!
