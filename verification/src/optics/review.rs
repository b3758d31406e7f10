//! Reviews: write-only optics that build a target from a value.
use vstd::prelude::*;
use std::marker::PhantomData;
use super::lens::total_fn;

verus! {

/// A write-only optic that can construct a target from a value: the
/// construction half of a prism.
#[verifier::reject_recursive_types(T)]
#[verifier::reject_recursive_types(B)]
pub struct Review<T, B, Bd> where Bd: Fn(B) -> T {
    build: Bd,
    marker: PhantomData<(T, B)>,
}

impl<T, B, Bd> Review<T, B, Bd> where Bd: Fn(B) -> T {
    /// The constructor.
    pub closed spec fn build_fn(&self) -> Bd {
        self.build
    }

    #[verifier::type_invariant]
    closed spec fn total(&self) -> bool {
        total_fn(self.build)
    }

    /// A review from a constructor that accepts every value.
    pub fn new(build: Bd) -> (r: Self)
        requires
            total_fn(build),
        ensures
            r.build_fn() == build,
    {
        Review { build, marker: PhantomData }
    }

    /// The target built from `b`.
    pub fn review(&self, b: B) -> (t: T)
        ensures
            call_ensures(self.build_fn(), (b,), t),
    {
        proof {
            use_type_invariant(self);
        }
        (self.build)(b)
    }
}

} // verus!
