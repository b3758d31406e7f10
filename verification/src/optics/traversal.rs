//! Traversals: optics over zero or more foci that can both read and modify.
use vstd::prelude::*;
use std::marker::PhantomData;
use crate::algebra::Monoid;
use super::fold::{Fold, compose_all, composes_all, fold_views, single_focus, variant_focus, variant_list};
use super::iso::Iso;
use super::prism::Prism;
use super::lens::{Lens, total_get, total_fn};
use super::modify::{Modify, Nested, Focus, Whole, Variant, modifies_within, rel_of, rel_within};
use super::setter::{clone_of, clones_of};

verus! {

/// A multi-focus optic that can get and modify zero or more foci.
///
/// `S` — source, `T` — modified source, `A` — focus, `B` — replacement.
#[verifier::reject_recursive_types(S)]
#[verifier::reject_recursive_types(T)]
#[verifier::reject_recursive_types(A)]
#[verifier::reject_recursive_types(B)]
pub struct Traversal<S, T, A, B, G, M> where G: Fn(&S) -> Vec<A>, M: Modify<S, T, A, B> {
    get_all: G,
    modify_all: M,
    marker: PhantomData<(S, T, A, B)>,
}

/// A simple (monomorphic) traversal where `S == T` and `A == B`.
pub type SimpleTraversal<S, A, G, M> = Traversal<S, S, A, A, G, M>;

/// A traversal made by composition.
pub type ComposedTraversal<S, T, A, B, G, M> = Traversal<S, T, A, B, G, M>;

impl<S, T, A, B, G, M> Traversal<S, T, A, B, G, M> where G: Fn(&S) -> Vec<A>, M: Modify<S, T, A, B> {
    /// The function that lists the foci.
    pub closed spec fn get_fn(&self) -> G {
        self.get_all
    }

    /// The modification.
    pub closed spec fn modifier(&self) -> M {
        self.modify_all
    }

    #[verifier::type_invariant]
    closed spec fn wf(&self) -> bool {
        total_get(self.get_all) && self.modify_all.wf()
    }

    /// A traversal from a function listing the foci and a modification,
    /// both accepting every source.
    pub fn new(get_all: G, modify_all: M) -> (r: Self)
        requires
            total_get(get_all),
            modify_all.wf(),
        ensures
            r.get_fn() == get_all,
            r.modifier() == modify_all,
    {
        Traversal { get_all, modify_all, marker: PhantomData }
    }

    /// The foci of `s`.
    pub fn get_all(&self, s: &S) -> (r: Vec<A>)
        ensures
            call_ensures(self.get_fn(), (s,), r),
    {
        proof {
            use_type_invariant(self);
        }
        (self.get_all)(s)
    }

    /// `s` with every focus modified by `f`.
    pub fn over<F: Fn(A) -> B>(&self, s: S, f: F) -> (t: T)
        requires
            total_fn(f),
        ensures
            self.modifier().modifies_rel(s, rel_of(f), t),
    {
        proof {
            use_type_invariant(self);
        }
        self.modify_all.modify_with(s, &f)
    }

    /// `s` with every focus replaced by a clone of `b`.
    pub fn set(&self, s: S, b: B) -> (t: T) where B: Clone
        ensures
            modifies_within(self.modifier(), s, clones_of(b), t),
    {
        proof {
            use_type_invariant(self);
        }
        let ghost gb = b;
        let f = move |_a: A| -> (c: B)
            ensures
                clone_of(&b, c),
            { b.clone() };
        let t = self.modify_all.modify_with(s, &f);
        proof {
            assert(rel_within(rel_of(&f), clones_of::<A, B>(gb)));
            assert(self.modifier().modifies_rel(s, rel_of(&f), t));
        }
        t
    }

    /// Compose with another traversal for deeper multi-focus access: the
    /// foci are the inner foci of every outer focus, and modifying maps each
    /// outer focus by modifying its inner foci.
    pub fn and_then<X, Y, G2, M2>(self, inner: Traversal<A, B, X, Y, G2, M2>) -> (r: ComposedTraversal<
        S,
        T,
        X,
        Y,
        impl Fn(&S) -> Vec<X>,
        Nested<M, M2, A, B>,
    >) where G2: Fn(&A) -> Vec<X>, M2: Modify<A, B, X, Y>
        ensures
            composes_all(r.get_fn(), self.get_fn(), inner.get_fn()),
            r.modifier() == (Nested::<M, M2, A, B> {
                outer: self.modifier(),
                inner: inner.modifier(),
                marker: PhantomData,
            }),
    {
        proof {
            use_type_invariant(&self);
            use_type_invariant(&inner);
        }
        let k = compose_all(self.get_all, inner.get_all);
        let m = Nested { outer: self.modify_all, inner: inner.modify_all, marker: PhantomData };
        Traversal::new(k, m)
    }
}

/// The traversal over the one focus that `g` gets, modified by `m`.
pub fn single_traversal<S, T, A, B, G: Fn(&S) -> A, M: Modify<S, T, A, B>>(g: G, m: M) -> (r: Traversal<
    S,
    T,
    A,
    B,
    impl Fn(&S) -> Vec<A>,
    M,
>)
    requires
        total_get(g),
        m.wf(),
    ensures
        single_focus(r.get_fn(), g),
        r.modifier() == m,
{
        let k = move |s: &S| -> (v: Vec<A>)
            requires
                total_get(&g),
            ensures
                exists|a: A| call_ensures(&g, (s,), a) && v@ == seq![a],
            {
                let a = g(s);
                let mut v = Vec::new();
                v.push(a);
                proof {
                    assert(v@ =~= seq![a]);
                }
                v
            };
    Traversal::new(k, m)
}

impl<S, T, A, B, G, M> Traversal<S, T, A, B, G, M> where
    G: Fn(&S) -> Vec<A> + Copy,
    M: Modify<S, T, A, B> + Copy,
 {
    /// The profunctor encoding at functions: a function on the foci becomes
    /// the function on the source that modifies every focus with it.
    pub fn transform<F: Fn(A) -> B>(&self, pab: F) -> (r: impl Fn(S) -> T)
        requires
            total_fn(pab),
        ensures
            forall|s: S| call_requires(r, (s,)),
            forall|s: S, t: T|
                call_ensures(r, (s,), t) ==> self.modifier().modifies_rel(s, rel_of(pab), t),
    {
        proof {
            use_type_invariant(self);
        }
        let m = self.modify_all;
        proof {
            assert(m == self.modifier());
        }
        move |s: S| -> (t: T)
            requires
                m.wf(),
                total_fn(pab),
            ensures
                m.modifies_rel(s, rel_of(pab), t),
            { m.modify_with(s, &pab) }
    }

    /// The profunctor encoding at forgetful functions into a monoid: maps
    /// every focus into the monoid and combines the results in order.
    pub fn transform_forget<R: Monoid, F: Fn(A) -> R>(&self, f: F) -> (r: impl Fn(S) -> R)
        requires
            forall|a: A| call_requires(f, (a,)),
        ensures
            forall|s: S| call_requires(r, (s,)),
            forall|s: S, x: R|
                call_ensures(r, (s,), x) ==> exists|v: Vec<A>, rs: Seq<R>|
                    call_ensures(self.get_fn(), (&s,), v) && rs.len() == v@.len() && (forall|i: int|
                        0 <= i < v@.len() ==> call_ensures(f, (v@[i],), #[trigger] rs[i])) && x@
                        == fold_views(rs),
    {
        proof {
            use_type_invariant(self);
        }
        let fold = Fold::new(self.get_all);
        proof {
            assert(fold.fold_fn() == self.get_fn());
        }
        move |s: S| -> (x: R)
            requires
                forall|a: A| call_requires(f, (a,)),
            ensures
                exists|v: Vec<A>, rs: Seq<R>|
                    call_ensures(fold.fold_fn(), (&s,), v) && rs.len() == v@.len() && (forall|i: int|
                        0 <= i < v@.len() ==> call_ensures(&f, (v@[i],), #[trigger] rs[i])) && x@
                        == fold_views(rs),
            { fold.fold_map(&s, &f) }
    }

    /// The read-only fold over the same foci.
    pub fn to_fold(&self) -> (r: Fold<S, A, G>)
        ensures
            r.fold_fn() == self.get_fn(),
    {
        proof {
            use_type_invariant(self);
        }
        Fold::new(self.get_all)
    }
}

impl<S, T, A, B, G, St> Lens<S, T, A, B, G, St> where
    G: Fn(&S) -> A + Copy,
    St: Fn(S, B) -> T + Copy,
 {
    /// The traversal over the one focus.
    pub fn to_traversal(&self) -> (r: Traversal<S, T, A, B, impl Fn(&S) -> Vec<A>, Focus<G, St>>)
        ensures
            single_focus(r.get_fn(), self.get_fn()),
            r.modifier() == (Focus { getter: self.get_fn(), setter: self.set_fn() }),
    {
        let g = self.getter_copy();
        let st = self.setter_copy();
        single_traversal(g, Focus { getter: g, setter: st })
    }
}

impl<S, T, A, B, Fw, Bw> Iso<S, T, A, B, Fw, Bw> where Fw: Fn(&S) -> A + Copy, Bw: Fn(B) -> T + Copy {
    /// The traversal over the one converted focus.
    pub fn to_traversal(&self) -> (r: Traversal<S, T, A, B, impl Fn(&S) -> Vec<A>, Whole<Fw, Bw>>)
        ensures
            single_focus(r.get_fn(), self.forward_fn()),
            r.modifier() == (Whole { forward: self.forward_fn(), backward: self.backward_fn() }),
    {
        let fw = self.forward_copy();
        let bw = self.backward_copy();
        single_traversal(fw, Whole { forward: fw, backward: bw })
    }
}

impl<S: Clone, T, A, B, M, Bd> Prism<S, T, A, B, M, Bd> where
    M: Fn(S) -> Result<A, T> + Copy,
    Bd: Fn(B) -> T + Copy,
 {
    /// The traversal over the focus, present when the variant matches.
    pub fn to_traversal(&self) -> (r: Traversal<S, T, A, B, impl Fn(&S) -> Vec<A>, Variant<M, Bd>>)
        ensures
            variant_focus(r.get_fn(), self.match_fn()),
            r.modifier() == (Variant { matcher: self.match_fn(), build: self.build_fn() }),
    {
        let m = self.matcher_copy();
        let bd = self.build_copy();
        let k = variant_list(m);
        Traversal::new(k, Variant { matcher: m, build: bd })
    }
}

} // verus!
