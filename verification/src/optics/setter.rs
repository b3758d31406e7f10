//! Setters: modify-only optics.
use vstd::prelude::*;
use std::marker::PhantomData;
use super::lens::total_fn;
use super::modify::{Modify, modifies_within, rel_of, rel_within};

verus! {

/// The relation of a value to the clones of `b`.
pub open spec fn clones_of<A, B: Clone>(b: B) -> spec_fn(A, B) -> bool {
    |a: A, c: B| cloned(b, c)
}

/// Whether `c` is a clone of `*b`.
pub open spec fn clone_of<B: Clone>(b: &B, c: B) -> bool {
    cloned(*b, c)
}

/// A modify-only optic: it can map its foci, but not read them.
///
/// `S` — source, `T` — modified source, `A` — focus, `B` — replacement.
#[verifier::reject_recursive_types(S)]
#[verifier::reject_recursive_types(T)]
#[verifier::reject_recursive_types(A)]
#[verifier::reject_recursive_types(B)]
pub struct Setter<S, T, A, B, M> where M: Modify<S, T, A, B> {
    modify: M,
    marker: PhantomData<(S, T, A, B)>,
}

/// A simple (monomorphic) setter where `S == T` and `A == B`.
pub type SimpleSetter<S, A, M> = Setter<S, S, A, A, M>;

impl<S, T, A, B, M> Setter<S, T, A, B, M> where M: Modify<S, T, A, B> {
    /// The modification.
    pub closed spec fn modifier(&self) -> M {
        self.modify
    }

    #[verifier::type_invariant]
    closed spec fn wf(&self) -> bool {
        self.modify.wf()
    }

    /// A setter from a modification that accepts every source.
    pub fn new(modify: M) -> (r: Self)
        requires
            modify.wf(),
        ensures
            r.modifier() == modify,
    {
        Setter { modify, marker: PhantomData }
    }

    /// `s` with every focus modified by `f`.
    pub fn over<F: Fn(A) -> B>(&self, s: S, f: F) -> (t: T)
        requires
            total_fn(f),
        ensures
            self.modifier().modifies_rel(s, rel_of(f), t),
    {
        proof {
            use_type_invariant(self);
        }
        self.modify.modify_with(s, &f)
    }

    /// `s` with every focus replaced by a clone of `b`.
    pub fn set(&self, s: S, b: B) -> (t: T) where B: Clone
        ensures
            modifies_within(self.modifier(), s, clones_of(b), t),
    {
        proof {
            use_type_invariant(self);
        }
        let ghost gb = b;
        let f = move |_a: A| -> (c: B)
            ensures
                clone_of(&b, c),
            { b.clone() };
        let t = self.modify.modify_with(s, &f);
        proof {
            assert(rel_within(rel_of(&f), clones_of::<A, B>(gb)));
            assert(self.modifier().modifies_rel(s, rel_of(&f), t));
        }
        t
    }
}

} // verus!
