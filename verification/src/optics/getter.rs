//! Getters: read-only optics extracting one focus.
use vstd::prelude::*;
use std::marker::PhantomData;
use super::lens::{total_get, composes_get};

verus! {

/// A read-only optic that extracts a single focus from a source.
#[verifier::reject_recursive_types(S)]
#[verifier::reject_recursive_types(A)]
pub struct Getter<S, A, G> where G: Fn(&S) -> A {
    get: G,
    marker: PhantomData<(S, A)>,
}

/// A getter made by composition or conversion.
pub type ComposedGetter<S, A, G> = Getter<S, A, G>;

impl<S, A, G> Getter<S, A, G> where G: Fn(&S) -> A {
    /// The function that extracts the focus.
    pub closed spec fn get_fn(&self) -> G {
        self.get
    }

    #[verifier::type_invariant]
    closed spec fn total(&self) -> bool {
        total_get(self.get)
    }

    /// A getter from a function that accepts every source.
    pub fn new(get: G) -> (r: Self)
        requires
            total_get(get),
        ensures
            r.get_fn() == get,
    {
        Getter { get, marker: PhantomData }
    }

    /// The focus of `s`.
    pub fn get(&self, s: &S) -> (a: A)
        ensures
            call_ensures(self.get_fn(), (s,), a),
    {
        proof {
            use_type_invariant(self);
        }
        (self.get)(s)
    }

    /// Compose with another getter for deeper access.
    pub fn and_then<B, G2>(self, inner: Getter<A, B, G2>) -> (r: ComposedGetter<S, B, impl Fn(&S) -> B>) where
        G2: Fn(&A) -> B,

        ensures
            composes_get(r.get_fn(), self.get_fn(), inner.get_fn()),
    {
        proof {
            use_type_invariant(&self);
            use_type_invariant(&inner);
        }
        let og = self.get;
        let ig = inner.get;
        proof {
            assert(og == self.get_fn());
            assert(ig == inner.get_fn());
        }
        let get = move |s: &S| -> (b: B)
            requires
                total_get(&og),
                total_get(&ig),
            ensures
                exists|a: A| call_ensures(&og, (s,), a) && call_ensures(&ig, (&a,), b),
            {
                let a = og(s);
                ig(&a)
            };
        Getter::new(get)
    }
}

} // verus!
