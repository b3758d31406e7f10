//! The tagged profunctor: `P<A, B>` is just a `B`, ignoring `A`. It has no
//! `first`, which keeps the optics built on it write-only.
use vstd::prelude::*;
use crate::higher::two_category::total;

verus! {

/// The tagged profunctor.
pub struct TaggedF;

impl TaggedF {
    /// Maps the tagged value with `g`; `f` is ignored.
    pub fn dimap<A, B, C, D, F: Fn(C) -> A, G: FnOnce(B) -> D>(_f: F, g: G, pab: B) -> (r: D)
        requires
            call_requires(g, (pab,)),
        ensures
            call_ensures(g, (pab,), r),
    {
        g(pab)
    }

    /// Pre-composition is ignored: the tagged value is unchanged.
    pub fn lmap<A, B, C, F: Fn(C) -> A>(_f: F, pab: B) -> (r: B)
        ensures
            r == pab,
    {
        pab
    }

    /// Maps the tagged value with `g`.
    pub fn rmap<A, B, D, G: FnOnce(B) -> D>(g: G, pab: B) -> (r: D)
        requires
            call_requires(g, (pab,)),
        ensures
            call_ensures(g, (pab,), r),
    {
        g(pab)
    }

    /// The tagged value on the `Ok` side.
    pub fn left<A, B, C>(pab: B) -> (r: Result<B, C>)
        ensures
            r == Ok::<B, C>(pab),
    {
        Ok(pab)
    }

    /// The tagged value on the `Err` side.
    pub fn right<A, B, C>(pab: B) -> (r: Result<C, B>)
        ensures
            r == Err::<C, B>(pab),
    {
        Err(pab)
    }
}

} // verus!
