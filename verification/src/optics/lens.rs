//! Lenses: a getter and a setter focusing on one part of a structure, their
//! composition, and the laws that composition keeps.
use vstd::prelude::*;
use std::marker::PhantomData;
use super::iso::{Iso, round_trip};

use super::getter::Getter;
use super::modify::Focus;
use super::setter::Setter;


verus! {

/// Whether `g` accepts every source.
pub open spec fn total_get<S, A, G: Fn(&S) -> A>(g: G) -> bool {
    forall|s: S| call_requires(g, (&s,))
}

/// Whether `st` accepts every source and replacement.
pub open spec fn total_put<S, T, B, St: Fn(S, B) -> T>(st: St) -> bool {
    forall|s: S, b: B| call_requires(st, (s, b))
}

/// Whether `f` accepts every argument.
pub open spec fn total_fn<A, B, F: FnOnce(A) -> B>(f: F) -> bool {
    forall|a: A| call_requires(f, (a,))
}

/// Whether `g` gives one result per source.
pub open spec fn get_deterministic<S, A, G: Fn(&S) -> A>(g: G) -> bool {
    forall|s: S, a1: A, a2: A|
        call_ensures(g, (&s,), a1) && call_ensures(g, (&s,), a2) ==> a1 == a2
}

/// GetPut: setting what was got changes nothing.
pub open spec fn get_put<S, A, G: Fn(&S) -> A, St: Fn(S, A) -> S>(g: G, st: St) -> bool {
    forall|s: S, a: A, t: S|
        call_ensures(g, (&s,), a) && call_ensures(st, (s, a), t) ==> t == s
}

/// PutGet: one gets back what was set.
pub open spec fn put_get<S, A, G: Fn(&S) -> A, St: Fn(S, A) -> S>(g: G, st: St) -> bool {
    forall|s: S, b: A, t: S, a: A|
        call_ensures(st, (s, b), t) && call_ensures(g, (&t,), a) ==> a == b
}

/// PutPut: a second set overrides the first.
pub open spec fn put_put<S, A, St: Fn(S, A) -> S>(st: St) -> bool {
    forall|s: S, b1: A, b2: A, t1: S, t2: S, t3: S|
        call_ensures(st, (s, b1), t1) && call_ensures(st, (t1, b2), t2) && call_ensures(
            st,
            (s, b2),
            t3,
        ) ==> t2 == t3
}

/// The lens laws, for a getter that is a function.
pub open spec fn lawful<S, A, G: Fn(&S) -> A, St: Fn(S, A) -> S>(g: G, st: St) -> bool {
    &&& get_deterministic(g)
    &&& get_put(g, st)
    &&& put_get(g, st)
    &&& put_put(st)
}

/// `k` gets through `g` and then `h`.
pub open spec fn composes_get<S, A, X, G: Fn(&S) -> A, H: Fn(&A) -> X, K: Fn(&S) -> X>(
    k: K,
    g: G,
    h: H,
) -> bool {
    forall|s: S, x: X|
        call_ensures(k, (&s,), x) ==> exists|a: A|
            call_ensures(g, (&s,), a) && call_ensures(h, (&a,), x)
}

/// `k` sets the inner focus: it gets the outer focus with `og`, sets it with
/// `is` and puts the result back with `os`.
pub open spec fn composes_set<
    S,
    T,
    A,
    B,
    Y,
    G: Fn(&S) -> A,
    Os: Fn(S, B) -> T,
    Is: Fn(A, Y) -> B,
    K: Fn(S, Y) -> T,
>(k: K, og: G, os: Os, is: Is) -> bool {
    forall|s: S, y: Y, t: T|
        call_ensures(k, (s, y), t) ==> exists|a: A, b: B|
            call_ensures(og, (&s,), a) && call_ensures(is, (a, y), b) && call_ensures(os, (s, b), t)
}

/// `t` is what modifying the focus of `s` with `f` gives: the focus got by
/// `g`, mapped by `f`, set back by `st`.
pub open spec fn modifies<S, T, A, B, G: Fn(&S) -> A, St: Fn(S, B) -> T, F: FnOnce(A) -> B>(
    g: G,
    st: St,
    f: F,
    s: S,
    t: T,
) -> bool {
    exists|a: A, b: B|
        call_ensures(g, (&s,), a) && call_ensures(f, (a,), b) && call_ensures(st, (s, b), t)
}

/// Whether `f` gives one result per argument.
pub open spec fn fn_deterministic<A, B, F: FnOnce(A) -> B>(f: F) -> bool {
    forall|a: A, b1: B, b2: B| call_ensures(f, (a,), b1) && call_ensures(f, (a,), b2) ==> b1 == b2
}

/// Whether `st` gives one result per source and replacement.
pub open spec fn put_deterministic<S, T, B, St: Fn(S, B) -> T>(st: St) -> bool {
    forall|s: S, b: B, t1: T, t2: T|
        call_ensures(st, (s, b), t1) && call_ensures(st, (s, b), t2) ==> t1 == t2
}

/// A lens from a getter and a setter.
///
/// `S` — source type, `T` — modified source type, `A` — focus type,
/// `B` — replacement type.
#[verifier::reject_recursive_types(S)]
#[verifier::reject_recursive_types(T)]
#[verifier::reject_recursive_types(A)]
#[verifier::reject_recursive_types(B)]
pub struct Lens<S, T, A, B, G, St> where G: Fn(&S) -> A, St: Fn(S, B) -> T {
    getter: G,
    setter: St,
    marker: PhantomData<(S, T, A, B)>,
}

/// A simple (monomorphic) lens where `S == T` and `A == B`.
pub type SimpleLens<S, A, G, St> = Lens<S, S, A, A, G, St>;

/// A lens made by composition or conversion.
pub type ComposedLens<S, T, X, Y, G, St> = Lens<S, T, X, Y, G, St>;

/// A simple (monomorphic) composed lens.
pub type SimpleComposedLens<S, X, G, St> = Lens<S, S, X, X, G, St>;

impl<S, T, A, B, G, St> Lens<S, T, A, B, G, St> where G: Fn(&S) -> A, St: Fn(S, B) -> T {
    /// The getter.
    pub closed spec fn get_fn(&self) -> G {
        self.getter
    }

    /// The setter.
    pub closed spec fn set_fn(&self) -> St {
        self.setter
    }

    #[verifier::type_invariant]
    closed spec fn total(&self) -> bool {
        total_get(self.getter) && total_put(self.setter)
    }

    /// A lens from a getter and a setter that accept every input.
    pub fn new(getter: G, setter: St) -> (r: Self)
        requires
            total_get(getter),
            total_put(setter),
        ensures
            r.get_fn() == getter,
            r.set_fn() == setter,
    {
        Lens { getter, setter, marker: PhantomData }
    }

    /// A lens from a getter and a setter given as closures.
    pub fn from_fns(getter: G, setter: St) -> (r: Self)
        requires
            total_get(getter),
            total_put(setter),
        ensures
            r.get_fn() == getter,
            r.set_fn() == setter,
    {
        Lens { getter, setter, marker: PhantomData }
    }

    /// The focus of `s`.
    pub fn get(&self, s: &S) -> (a: A)
        ensures
            call_ensures(self.get_fn(), (s,), a),
    {
        proof {
            use_type_invariant(self);
        }
        (self.getter)(s)
    }

    /// `s` with its focus replaced by `b`.
    pub fn set(&self, s: S, b: B) -> (t: T)
        ensures
            call_ensures(self.set_fn(), (s, b), t),
    {
        proof {
            use_type_invariant(self);
        }
        (self.setter)(s, b)
    }

    /// `s` with its focus replaced by `f` of it.
    pub fn over<F: FnOnce(A) -> B>(&self, s: S, f: F) -> (t: T)
        requires
            total_fn(f),
        ensures
            modifies(self.get_fn(), self.set_fn(), f, s, t),
    {
        proof {
            use_type_invariant(self);
        }
        let a = (self.getter)(&s);
        let b = f(a);
        (self.setter)(s, b)
    }
}

impl<S, T, A, B, G, St> Lens<S, T, A, B, G, St> where
    G: Fn(&S) -> A + Copy,
    St: Fn(S, B) -> T + Copy,
 {
    /// Chain another lens to focus deeper: the composed getter gets through
    /// both, the composed setter sets the inner focus inside the outer one.
    pub fn and_then<X, Y, G2, St2>(self, inner: Lens<A, B, X, Y, G2, St2>) -> (r: ComposedLens<
        S,
        T,
        X,
        Y,
        impl Fn(&S) -> X + Copy,
        impl Fn(S, Y) -> T + Copy,
    >) where G2: Fn(&A) -> X + Copy, St2: Fn(A, Y) -> B + Copy
        ensures
            composes_get(r.get_fn(), self.get_fn(), inner.get_fn()),
            composes_set(r.set_fn(), self.get_fn(), self.set_fn(), inner.set_fn()),
    {
        proof {
            use_type_invariant(&self);
            use_type_invariant(&inner);
        }
        let og = self.getter;
        let os = self.setter;
        let ig = inner.getter;
        let is = inner.setter;
        let getter = move |s: &S| -> (x: X)
            requires
                total_get(og),
                total_get(ig),
            ensures
                exists|a: A| call_ensures(og, (s,), a) && call_ensures(ig, (&a,), x),
            {
                let a = og(s);
                ig(&a)
            };
        let setter = move |s: S, y: Y| -> (t: T)
            requires
                total_get(og),
                total_put(is),
                total_put(os),
            ensures
                exists|a: A, b: B|
                    call_ensures(og, (&s,), a) && call_ensures(is, (a, y), b) && call_ensures(
                        os,
                        (s, b),
                        t,
                    ),
            {
                let a = og(&s);
                let b = is(a, y);
                os(s, b)
            };
        proof {
            assert(og == self.get_fn());
            assert(ig == inner.get_fn());
            assert(os == self.set_fn());
            assert(is == inner.set_fn());
        }
        Lens::from_fns(getter, setter)
    }

    /// The profunctor encoding at functions: a function on the focus becomes
    /// the function on the source that modifies the focus with it.
    pub fn transform<F: Fn(A) -> B>(&self, pab: F) -> (r: impl Fn(S) -> T)
        requires
            total_fn(pab),
        ensures
            forall|s: S| call_requires(r, (s,)),
            forall|s: S, t: T|
                call_ensures(r, (s,), t) ==> modifies(self.get_fn(), self.set_fn(), pab, s, t),
    {
        proof {
            use_type_invariant(self);
        }
        let g = self.getter;
        let st = self.setter;
        proof {
            assert(g == self.get_fn());
            assert(st == self.set_fn());
        }
        move |s: S| -> (t: T)
            requires
                total_get(g),
                total_put(st),
                total_fn(pab),
            ensures
                modifies(g, st, pab, s, t),
            {
                let a = g(&s);
                let b = pab(a);
                st(s, b)
            }
    }

    /// The profunctor encoding at forgetful functions: a function from the
    /// focus into `R` becomes the function from the source that reads the
    /// focus and applies it.
    pub fn transform_forget<R, F: Fn(A) -> R>(&self, pab: F) -> (r: impl Fn(S) -> R)
        requires
            forall|a: A| call_requires(pab, (a,)),
        ensures
            forall|s: S| call_requires(r, (s,)),
            forall|s: S, x: R|
                call_ensures(r, (s,), x) ==> exists|a: A|
                    call_ensures(self.get_fn(), (&s,), a) && call_ensures(pab, (a,), x),
    {
        proof {
            use_type_invariant(self);
        }
        let g = self.getter;
        proof {
            assert(g == self.get_fn());
        }
        move |s: S| -> (x: R)
            requires
                total_get(g),
                forall|a: A| call_requires(pab, (a,)),
            ensures
                exists|a: A| call_ensures(g, (&s,), a) && call_ensures(pab, (a,), x),
            {
                let a = g(&s);
                pab(a)
            }
    }

    /// The read-only getter of the focus.
    pub fn to_getter(&self) -> (r: Getter<S, A, G>)
        ensures
            r.get_fn() == self.get_fn(),
    {
        proof {
            use_type_invariant(self);
        }
        Getter::new(self.getter)
    }

    /// The modify-only setter of the focus.
    pub fn to_setter(&self) -> (r: Setter<S, T, A, B, Focus<G, St>>)
        ensures
            r.modifier() == (Focus { getter: self.get_fn(), setter: self.set_fn() }),
    {
        proof {
            use_type_invariant(self);
        }
        let g = self.getter;
        let st = self.setter;
        proof {
            assert(g == self.get_fn());
            assert(st == self.set_fn());
        }
        Setter::new(Focus { getter: g, setter: st })
    }

    /// A copy of the getter.
    pub(crate) fn getter_copy(&self) -> (g: G)
        ensures
            g == self.get_fn(),
            total_get(g),
    {
        proof {
            use_type_invariant(self);
        }
        self.getter
    }

    /// A copy of the setter.
    pub(crate) fn setter_copy(&self) -> (st: St)
        ensures
            st == self.set_fn(),
            total_put(st),
    {
        proof {
            use_type_invariant(self);
        }
        self.setter
    }
}

/// Composing two lawful lenses gives a lawful lens: a getter and a setter
/// that implement the composition of two lawful lenses (as `and_then`'s do)
/// obey GetPut, PutGet and PutPut, and the getter is a function.
pub proof fn lemma_compose_lawful<S, A, X, G, St, G2, St2, K, Ks>(
    og: G,
    os: St,
    ig: G2,
    is: St2,
    k: K,
    ks: Ks,
) where
    G: Fn(&S) -> A,
    St: Fn(S, A) -> S,
    G2: Fn(&A) -> X,
    St2: Fn(A, X) -> A,
    K: Fn(&S) -> X,
    Ks: Fn(S, X) -> S,

    requires
        lawful(og, os),
        lawful(ig, is),
        composes_get(k, og, ig),
        composes_set(ks, og, os, is),
    ensures
        lawful(k, ks),
{
    assert forall|s: S, x1: X, x2: X|
        call_ensures(k, (&s,), x1) && call_ensures(k, (&s,), x2) implies x1 == x2 by {
        let a1 = choose|a: A| call_ensures(og, (&s,), a) && call_ensures(ig, (&a,), x1);
        let a2 = choose|a: A| call_ensures(og, (&s,), a) && call_ensures(ig, (&a,), x2);
        assert(a1 == a2);
    }
    assert forall|s: S, x: X, t: S|
        call_ensures(k, (&s,), x) && call_ensures(ks, (s, x), t) implies t == s by {
        let a = choose|a: A| call_ensures(og, (&s,), a) && call_ensures(ig, (&a,), x);
        let (a2, b) = choose|a2: A, b: A|
            call_ensures(og, (&s,), a2) && call_ensures(is, (a2, x), b) && call_ensures(
                os,
                (s, b),
                t,
            );
        assert(a2 == a);
        assert(b == a);
    }
    assert forall|s: S, y: X, t: S, x: X|
        call_ensures(ks, (s, y), t) && call_ensures(k, (&t,), x) implies x == y by {
        let (a, b) = choose|a: A, b: A|
            call_ensures(og, (&s,), a) && call_ensures(is, (a, y), b) && call_ensures(
                os,
                (s, b),
                t,
            );
        let a2 = choose|a2: A| call_ensures(og, (&t,), a2) && call_ensures(ig, (&a2,), x);
        assert(a2 == b);
    }
    assert forall|s: S, y1: X, y2: X, t1: S, t2: S, t3: S|
        call_ensures(ks, (s, y1), t1) && call_ensures(ks, (t1, y2), t2) && call_ensures(
            ks,
            (s, y2),
            t3,
        ) implies t2 == t3 by {
        let (a1, b1) = choose|a: A, b: A|
            call_ensures(og, (&s,), a) && call_ensures(is, (a, y1), b) && call_ensures(
                os,
                (s, b),
                t1,
            );
        let (a2, b2) = choose|a: A, b: A|
            call_ensures(og, (&t1,), a) && call_ensures(is, (a, y2), b) && call_ensures(
                os,
                (t1, b),
                t2,
            );
        let (a3, b3) = choose|a: A, b: A|
            call_ensures(og, (&s,), a) && call_ensures(is, (a, y2), b) && call_ensures(
                os,
                (s, b),
                t3,
            );
        assert(a3 == a1);
        assert(a2 == b1);
        assert(b2 == b3);
    }
}

/// Transforming through the outer lens a function already transformed
/// through the inner lens modifies as the composed lens does: where every
/// function involved gives one result per argument, both give the same
/// result.
pub proof fn lemma_transform_compose<S, T, A, B, X, Y, G, Os, G2, Is, F, H, K, Ks>(
    og: G,
    os: Os,
    ig: G2,
    is: Is,
    f: F,
    h: H,
    k: K,
    ks: Ks,
) where
    G: Fn(&S) -> A,
    Os: Fn(S, B) -> T,
    G2: Fn(&A) -> X,
    Is: Fn(A, Y) -> B,
    F: Fn(X) -> Y,
    H: Fn(A) -> B,
    K: Fn(&S) -> X,
    Ks: Fn(S, Y) -> T,

    requires
        forall|a: A, b: B| call_ensures(h, (a,), b) ==> modifies(ig, is, f, a, b),
        composes_get(k, og, ig),
        composes_set(ks, og, os, is),
        get_deterministic(og),
        get_deterministic(ig),
        fn_deterministic(f),
        put_deterministic(is),
        put_deterministic(os),
    ensures
        forall|s: S, t1: T, t2: T|
            modifies(og, os, h, s, t1) && modifies(k, ks, f, s, t2) ==> t1 == t2,
{
    assert forall|s: S, t1: T, t2: T|
        modifies(og, os, h, s, t1) && modifies(k, ks, f, s, t2) implies t1 == t2 by {
        let (a, b) = choose|a: A, b: B|
            call_ensures(og, (&s,), a) && call_ensures(h, (a,), b) && call_ensures(os, (s, b), t1);
        assert(modifies(ig, is, f, a, b));
        let (x, y) = choose|x: X, y: Y|
            call_ensures(ig, (&a,), x) && call_ensures(f, (x,), y) && call_ensures(is, (a, y), b);
        let (x2, y2) = choose|x: X, y: Y|
            call_ensures(k, (&s,), x) && call_ensures(f, (x,), y) && call_ensures(ks, (s, y), t2);
        let a2 = choose|a: A| call_ensures(og, (&s,), a) && call_ensures(ig, (&a,), x2);
        let (a3, b3) = choose|a: A, b: B|
            call_ensures(og, (&s,), a) && call_ensures(is, (a, y2), b) && call_ensures(
                os,
                (s, b),
                t2,
            );
        assert(a2 == a);
        assert(x2 == x);
        assert(y2 == y);
        assert(a3 == a);
        assert(b3 == b);
    }
}

impl<S, T, A, B, Fw, Bw> Iso<S, T, A, B, Fw, Bw> where Fw: Fn(&S) -> A + Copy, Bw: Fn(B) -> T + Copy {
    /// The lens whose getter converts forward and whose setter converts the
    /// replacement back, ignoring the old source.
    pub fn to_lens(&self) -> (r: ComposedLens<S, T, A, B, Fw, impl Fn(S, B) -> T + Copy>)
        ensures
            r.get_fn() == self.forward_fn(),
            forall|s: S, b: B, t: T|
                call_ensures(r.set_fn(), (s, b), t) ==> call_ensures(self.backward_fn(), (b,), t),
    {
        let fw = self.forward_copy();
        let bw = self.backward_copy();
        let setter = move |_s: S, b: B| -> (t: T)
            requires
                total_fn(bw),
            ensures
                call_ensures(bw, (b,), t),
            { bw(b) };
        Lens::from_fns(fw, setter)
    }
}

/// The lens of an isomorphism whose directions are inverse is lawful: a
/// setter that only converts the replacement back, with the forward
/// direction as getter, obeys GetPut, PutGet and PutPut.
pub proof fn lemma_iso_lens_lawful<S, A, Fw, Bw, St>(fw: Fw, bw: Bw, st: St) where
    Fw: Fn(&S) -> A,
    Bw: Fn(A) -> S,
    St: Fn(S, A) -> S,

    requires
        round_trip(fw, bw),
        forall|s: S, b: A, t: S| call_ensures(st, (s, b), t) ==> call_ensures(bw, (b,), t),
    ensures
        lawful(fw, st),
{
    assert forall|s: S, b1: A, b2: A, t1: S, t2: S, t3: S|
        call_ensures(st, (s, b1), t1) && call_ensures(st, (t1, b2), t2) && call_ensures(
            st,
            (s, b2),
            t3,
        ) implies t2 == t3 by {
        assert(call_ensures(bw, (b2,), t2));
        assert(call_ensures(bw, (b2,), t3));
    }
}

/// Modifying the focus of a lens that obeys GetPut with a function that
/// returns its argument changes nothing.
pub proof fn lemma_over_identity<S, A, G: Fn(&S) -> A, St: Fn(S, A) -> S, F: FnOnce(A) -> A>(
    g: G,
    st: St,
    f: F,
    s: S,
    t: S,
)
    requires
        get_put(g, st),
        forall|a: A, b: A| call_ensures(f, (a,), b) ==> b == a,
        modifies(g, st, f, s, t),
    ensures
        t == s,
{
    let (a, b) = choose|a: A, b: A|
        call_ensures(g, (&s,), a) && call_ensures(f, (a,), b) && call_ensures(st, (s, b), t);
    assert(b == a);
}

/// Composition of getters is associative: getting through `g1` and `g2`
/// and then `g3`, or through `g1` and then the composite of `g2` and `g3`,
/// gives only foci reached through `g1`, `g2` and `g3` in turn.
pub proof fn lemma_compose_get_associative<S, A, B, X, G1, G2, G3, K12, K23, K1, K2>(
    g1: G1,
    g2: G2,
    g3: G3,
    k12: K12,
    k23: K23,
    k1: K1,
    k2: K2,
) where
    G1: Fn(&S) -> A,
    G2: Fn(&A) -> B,
    G3: Fn(&B) -> X,
    K12: Fn(&S) -> B,
    K23: Fn(&A) -> X,
    K1: Fn(&S) -> X,
    K2: Fn(&S) -> X,

    requires
        composes_get(k12, g1, g2),
        composes_get(k1, k12, g3),
        composes_get(k23, g2, g3),
        composes_get(k2, g1, k23),
    ensures
        forall|s: S, x: X|
            call_ensures(k1, (&s,), x) ==> exists|a: A, b: B|
                call_ensures(g1, (&s,), a) && call_ensures(g2, (&a,), b) && call_ensures(
                    g3,
                    (&b,),
                    x,
                ),
        forall|s: S, x: X|
            call_ensures(k2, (&s,), x) ==> exists|a: A, b: B|
                call_ensures(g1, (&s,), a) && call_ensures(g2, (&a,), b) && call_ensures(
                    g3,
                    (&b,),
                    x,
                ),
{
    assert forall|s: S, x: X| call_ensures(k1, (&s,), x) implies exists|a: A, b: B|
        call_ensures(g1, (&s,), a) && call_ensures(g2, (&a,), b) && call_ensures(g3, (&b,), x) by {
        let b = choose|b: B| call_ensures(k12, (&s,), b) && call_ensures(g3, (&b,), x);
        let a = choose|a: A| call_ensures(g1, (&s,), a) && call_ensures(g2, (&a,), b);
    }
    assert forall|s: S, x: X| call_ensures(k2, (&s,), x) implies exists|a: A, b: B|
        call_ensures(g1, (&s,), a) && call_ensures(g2, (&a,), b) && call_ensures(g3, (&b,), x) by {
        let a = choose|a: A| call_ensures(g1, (&s,), a) && call_ensures(k23, (&a,), x);
        let b = choose|b: B| call_ensures(g2, (&a,), b) && call_ensures(g3, (&b,), x);
    }
}

} // verus!
