//! A sum type of two alternatives, with case analysis and mapping of either
//! side.
use vstd::prelude::*;

verus! {

/// One of two values: a `Left` or a `Right`.
pub enum Either<L, R> {
    Left(L),
    Right(R),
}

/// `r` is `e` with a left value mapped by `f` and a right value passed
/// through.
pub open spec fn maps_left<L, R, L2, F: FnOnce(L) -> L2>(e: Either<L, R>, f: F, r: Either<L2, R>) -> bool {
    match e {
        Either::Left(l) => r matches Either::Left(l2) && call_ensures(f, (l,), l2),
        Either::Right(x) => r == Either::<L2, R>::Right(x),
    }
}

/// `r` is `e` with a right value mapped by `f` and a left value passed
/// through.
pub open spec fn maps_right<L, R, R2, F: FnOnce(R) -> R2>(e: Either<L, R>, f: F, r: Either<L, R2>) -> bool {
    match e {
        Either::Right(x) => r matches Either::Right(x2) && call_ensures(f, (x,), x2),
        Either::Left(l) => r == Either::<L, R2>::Left(l),
    }
}

impl<L, R> Either<L, R> {
    /// Case analysis: `f` of a left value, `g` of a right value.
    pub fn either<T, F: FnOnce(L) -> T, G: FnOnce(R) -> T>(self, f: F, g: G) -> (r: T)
        requires
            self matches Either::Left(l) ==> call_requires(f, (l,)),
            self matches Either::Right(x) ==> call_requires(g, (x,)),
        ensures
            self matches Either::Left(l) ==> call_ensures(f, (l,), r),
            self matches Either::Right(x) ==> call_ensures(g, (x,), r),
    {
        match self {
            Either::Left(l) => f(l),
            Either::Right(r) => g(r),
        }
    }

    /// Maps a left value with `f`; a right value passes through.
    pub fn map_left<L2, F: FnOnce(L) -> L2>(self, f: F) -> (r: Either<L2, R>)
        requires
            self matches Either::Left(l) ==> call_requires(f, (l,)),
        ensures
            maps_left(self, f, r),
    {
        match self {
            Either::Left(l) => Either::Left(f(l)),
            Either::Right(r) => Either::Right(r),
        }
    }

    /// Maps a right value with `f`; a left value passes through.
    pub fn map_right<R2, F: FnOnce(R) -> R2>(self, f: F) -> (r: Either<L, R2>)
        requires
            self matches Either::Right(x) ==> call_requires(f, (x,)),
        ensures
            maps_right(self, f, r),
    {
        match self {
            Either::Left(l) => Either::Left(l),
            Either::Right(r) => Either::Right(f(r)),
        }
    }
}

/// Mapping the left side with a function that returns its argument
/// changes nothing.
pub proof fn lemma_map_left_identity<L, R, F: FnOnce(L) -> L>(e: Either<L, R>, f: F, r: Either<L, R>)
    requires
        forall|l: L, l2: L| call_ensures(f, (l,), l2) ==> l2 == l,
        maps_left(e, f, r),
    ensures
        r == e,
{
}

/// Mapping the left side twice maps it once with the composite: a left
/// value ends as `g` of `f` of it, a right value passes through.
pub proof fn lemma_map_left_compose<L, R, L2, L3, F: FnOnce(L) -> L2, G: FnOnce(L2) -> L3>(
    e: Either<L, R>,
    f: F,
    g: G,
    r1: Either<L2, R>,
    r2: Either<L3, R>,
)
    requires
        maps_left(e, f, r1),
        maps_left(r1, g, r2),
    ensures
        match e {
            Either::Left(l) => r2 matches Either::Left(l3) && exists|l2: L2|
                call_ensures(f, (l,), l2) && call_ensures(g, (l2,), l3),
            Either::Right(x) => r2 == Either::<L3, R>::Right(x),
        },
{
}

/// Mapping the left and the right side commute: in either order, a left
/// value is mapped by `f` and a right value by `g`.
pub proof fn lemma_map_sides_commute<L, R, L2, R2, F: FnOnce(L) -> L2, G: FnOnce(R) -> R2>(
    e: Either<L, R>,
    f: F,
    g: G,
    a1: Either<L2, R>,
    a2: Either<L2, R2>,
    b1: Either<L, R2>,
    b2: Either<L2, R2>,
)
    requires
        maps_left(e, f, a1),
        maps_right(a1, g, a2),
        maps_right(e, g, b1),
        maps_left(b1, f, b2),
    ensures
        match e {
            Either::Left(l) => (a2 matches Either::Left(x) && call_ensures(f, (l,), x)) && (
            b2 matches Either::Left(y) && call_ensures(f, (l,), y)),
            Either::Right(r) => (a2 matches Either::Right(x) && call_ensures(g, (r,), x)) && (
            b2 matches Either::Right(y) && call_ensures(g, (r,), y)),
        },
{
}

} // verus!
