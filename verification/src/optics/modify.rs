//! Modifying every focus of a source with a function: the capability shared
//! by setters and traversals, with its implementations for lenses, prisms,
//! isomorphisms and their composition.
use vstd::prelude::*;
use std::marker::PhantomData;
use super::lens::{total_get, total_put, total_fn, get_put, lawful};
use super::iso::round_trip;
use super::prism::lawful_prism;

verus! {

/// The relation of inputs to outputs of a function value.
pub open spec fn rel_of<A, B, F: Fn(A) -> B>(f: F) -> spec_fn(A, B) -> bool {
    |a: A, b: B| call_ensures(f, (a,), b)
}

/// Whether relation `g` relates everything that `f` relates.
pub open spec fn rel_within<A, B>(f: spec_fn(A, B) -> bool, g: spec_fn(A, B) -> bool) -> bool {
    forall|a: A, b: B| #[trigger] f(a, b) ==> g(a, b)
}

/// A way to modify the foci of an `S` with a function from `A` to `B`,
/// giving a `T`.
///
/// The specification functions default to saying nothing; the
/// modifications of this library refine them.
pub trait Modify<S, T, A, B> {
    /// Whether the modification accepts every source.
    open spec fn wf(&self) -> bool {
        true
    }

    /// `t` is a result of modifying `s` where each focus `a` is replaced by
    /// a `b` with `f(a, b)`.
    open spec fn modifies_rel(&self, s: S, f: spec_fn(A, B) -> bool, t: T) -> bool {
        true
    }

    /// Modifies the foci of `s` with `f`.
    fn modify_with<F: Fn(A) -> B>(&self, s: S, f: &F) -> (t: T)
        requires
            self.wf(),
            total_fn(*f),
        ensures
            self.modifies_rel(s, rel_of(*f), t),
    ;
}

/// `t` is a result of modifying `s` with `m` for some relation that `g`
/// contains.
pub open spec fn modifies_within<S, T, A, B, M: Modify<S, T, A, B>>(
    m: M,
    s: S,
    g: spec_fn(A, B) -> bool,
    t: T,
) -> bool {
    exists|f: spec_fn(A, B) -> bool| rel_within(f, g) && #[trigger] m.modifies_rel(s, f, t)
}

/// The modification of a lens: get the focus, map it, set it back.
#[derive(Clone, Copy)]
pub struct Focus<G, St> {
    pub getter: G,
    pub setter: St,
}

impl<S, T, A, B, G: Fn(&S) -> A, St: Fn(S, B) -> T> Modify<S, T, A, B> for Focus<G, St> {
    open spec fn wf(&self) -> bool {
        total_get(self.getter) && total_put(self.setter)
    }

    open spec fn modifies_rel(&self, s: S, f: spec_fn(A, B) -> bool, t: T) -> bool {
        exists|a: A, b: B|
            call_ensures(self.getter, (&s,), a) && f(a, b) && call_ensures(self.setter, (s, b), t)
    }

    fn modify_with<F: Fn(A) -> B>(&self, s: S, f: &F) -> (t: T) {
        let a = (self.getter)(&s);
        let b = f(a);
        let t = (self.setter)(s, b);
        proof {
            assert(rel_of(*f)(a, b));
        }
        t
    }
}

/// The modification of an isomorphism: convert forward, map, convert back.
#[derive(Clone, Copy)]
pub struct Whole<Fw, Bw> {
    pub forward: Fw,
    pub backward: Bw,
}

impl<S, T, A, B, Fw: Fn(&S) -> A, Bw: Fn(B) -> T> Modify<S, T, A, B> for Whole<Fw, Bw> {
    open spec fn wf(&self) -> bool {
        total_get(self.forward) && total_fn(self.backward)
    }

    open spec fn modifies_rel(&self, s: S, f: spec_fn(A, B) -> bool, t: T) -> bool {
        exists|a: A, b: B|
            call_ensures(self.forward, (&s,), a) && f(a, b) && call_ensures(self.backward, (b,), t)
    }

    fn modify_with<F: Fn(A) -> B>(&self, s: S, f: &F) -> (t: T) {
        let a = (self.forward)(&s);
        let b = f(a);
        let t = (self.backward)(b);
        proof {
            assert(rel_of(*f)(a, b));
        }
        t
    }
}

/// The modification of a prism: where the variant matches, map its content
/// and rebuild; otherwise pass the source through.
pub struct Variant<M, Bd> {
    pub matcher: M,
    pub build: Bd,
}

impl<S, T, A, B, M: Fn(S) -> Result<A, T>, Bd: Fn(B) -> T> Modify<S, T, A, B> for Variant<M, Bd> {
    open spec fn wf(&self) -> bool {
        total_fn(self.matcher) && total_fn(self.build)
    }

    open spec fn modifies_rel(&self, s: S, f: spec_fn(A, B) -> bool, t: T) -> bool {
        exists|m: Result<A, T>|
            call_ensures(self.matcher, (s,), m) && match m {
                Ok(a) => exists|b: B| f(a, b) && call_ensures(self.build, (b,), t),
                Err(t0) => t == t0,
            }
    }

    fn modify_with<F: Fn(A) -> B>(&self, s: S, f: &F) -> (t: T) {
        let m = (self.matcher)(s);
        let ghost gm = m;
        match m {
            Ok(a) => {
                let b = f(a);
                let t = (self.build)(b);
                proof {
                    assert(rel_of(*f)(a, b));
                    assert(call_ensures(self.matcher, (s,), gm));
                }
                t
            },
            Err(t) => {
                proof {
                    assert(call_ensures(self.matcher, (s,), gm));
                }
                t
            },
        }
    }
}

/// Two modifications in sequence: the outer one modifies each outer focus
/// with the inner one.
#[verifier::reject_recursive_types(A)]
#[verifier::reject_recursive_types(B)]
pub struct Nested<M1, M2, A, B> {
    pub outer: M1,
    pub inner: M2,
    pub marker: PhantomData<(A, B)>,
}

impl<S, T, A, B, X, Y, M1: Modify<S, T, A, B>, M2: Modify<A, B, X, Y>> Modify<S, T, X, Y> for Nested<
    M1,
    M2,
    A,
    B,
> {
    open spec fn wf(&self) -> bool {
        self.outer.wf() && self.inner.wf()
    }

    open spec fn modifies_rel(&self, s: S, f: spec_fn(X, Y) -> bool, t: T) -> bool {
        modifies_within(self.outer, s, |a: A, b: B| modifies_within(self.inner, a, f, b), t)
    }

    fn modify_with<F: Fn(X) -> Y>(&self, s: S, f: &F) -> (t: T) {
        let inner = &self.inner;
        let h = |a: A| -> (b: B)
            requires
                inner.wf(),
                total_fn(f),
            ensures
                inner.modifies_rel(a, rel_of(f), b),
            { inner.modify_with(a, f) };
        let t = self.outer.modify_with(s, &h);
        proof {
            let r = |a: A, b: B| modifies_within(self.inner, a, rel_of(*f), b);
            assert forall|a: A, b: B| #[trigger] rel_of(&h)(a, b) implies r(a, b) by {
                assert(self.inner.modifies_rel(a, rel_of(f), b));
                assert forall|x: X, y: Y| #[trigger] rel_of(f)(x, y) implies rel_of(*f)(x, y) by {}
                assert(rel_within(rel_of(f), rel_of(*f)));
            }
            assert(rel_within(rel_of(&h), r));
            assert(self.outer.modifies_rel(s, rel_of(&h), t));
        }
        t
    }
}

/// The identity relation.
pub open spec fn id_rel<A>() -> spec_fn(A, A) -> bool {
    |a: A, b: A| a == b
}

/// The relation `f` followed by `h`.
pub open spec fn then_rel<A, B, C>(f: spec_fn(A, B) -> bool, h: spec_fn(B, C) -> bool) -> spec_fn(
    A,
    C,
) -> bool {
    |a: A, c: C| exists|b: B| #[trigger] f(a, b) && #[trigger] h(b, c)
}

/// Whether a relation relates each input to at most one output.
pub open spec fn rel_deterministic<A, B>(f: spec_fn(A, B) -> bool) -> bool {
    forall|a: A, b1: B, b2: B| #[trigger] f(a, b1) && #[trigger] f(a, b2) ==> b1 == b2
}

/// Whether modifying with any relation that only relates values to
/// themselves leaves the source unchanged.
pub open spec fn keeps_identity<S, A, M: Modify<S, S, A, A>>(m: M) -> bool {
    forall|s: S, f: spec_fn(A, A) -> bool, t: S|
        rel_within(f, id_rel()) && #[trigger] m.modifies_rel(s, f, t) ==> t == s
}

/// The modification of a lens that obeys GetPut keeps the identity.
pub proof fn lemma_focus_identity<S, A, G: Fn(&S) -> A, St: Fn(S, A) -> S>(m: Focus<G, St>)
    requires
        get_put(m.getter, m.setter),
    ensures
        keeps_identity(m),
{
    assert forall|s: S, f: spec_fn(A, A) -> bool, t: S|
        rel_within(f, id_rel()) && #[trigger] m.modifies_rel(s, f, t) implies t == s by {
        let (a, b) = choose|a: A, b: A|
            call_ensures(m.getter, (&s,), a) && f(a, b) && call_ensures(m.setter, (s, b), t);
        assert(id_rel()(a, b));
    }
}

/// The modification of a lawful prism keeps the identity.
pub proof fn lemma_variant_identity<S, A, M: Fn(S) -> Result<A, S>, Bd: Fn(A) -> S>(m: Variant<M, Bd>)
    requires
        lawful_prism(m.matcher, m.build),
    ensures
        keeps_identity(m),
{
    assert forall|s: S, f: spec_fn(A, A) -> bool, t: S|
        rel_within(f, id_rel()) && #[trigger] m.modifies_rel(s, f, t) implies t == s by {
        let r = choose|r: Result<A, S>|
            call_ensures(m.matcher, (s,), r) && match r {
                Ok(a) => exists|b: A| f(a, b) && call_ensures(m.build, (b,), t),
                Err(t0) => t == t0,
            };
        match r {
            Ok(a) => {
                let b = choose|b: A| f(a, b) && call_ensures(m.build, (b,), t);
                assert(id_rel()(a, b));
            },
            Err(t0) => {},
        }
    }
}

/// The modification of an isomorphism whose directions are inverse keeps
/// the identity.
pub proof fn lemma_whole_identity<S, A, Fw: Fn(&S) -> A, Bw: Fn(A) -> S>(m: Whole<Fw, Bw>)
    requires
        round_trip(m.forward, m.backward),
    ensures
        keeps_identity(m),
{
    assert forall|s: S, f: spec_fn(A, A) -> bool, t: S|
        rel_within(f, id_rel()) && #[trigger] m.modifies_rel(s, f, t) implies t == s by {
        let (a, b) = choose|a: A, b: A|
            call_ensures(m.forward, (&s,), a) && f(a, b) && call_ensures(m.backward, (b,), t);
        assert(id_rel()(a, b));
    }
}

/// Nesting two modifications that keep the identity keeps the identity:
/// composing identity-preserving traversals preserves the identity.
pub proof fn lemma_nested_identity<S, A, X, M1: Modify<S, S, A, A>, M2: Modify<A, A, X, X>>(
    m: Nested<M1, M2, A, A>,
)
    requires
        keeps_identity(m.outer),
        keeps_identity(m.inner),
    ensures
        keeps_identity(m),
{
    assert forall|s: S, f: spec_fn(X, X) -> bool, t: S|
        rel_within(f, id_rel()) && #[trigger] m.modifies_rel(s, f, t) implies t == s by {
        let r = |a: A, b: A| modifies_within(m.inner, a, f, b);
        let f0 = choose|f0: spec_fn(A, A) -> bool|
            rel_within(f0, r) && #[trigger] m.outer.modifies_rel(s, f0, t);
        assert forall|a: A, b: A| #[trigger] f0(a, b) implies id_rel()(a, b) by {
            assert(r(a, b));
            let f1 = choose|f1: spec_fn(X, X) -> bool|
                rel_within(f1, f) && #[trigger] m.inner.modifies_rel(a, f1, b);
            assert forall|x: X, y: X| #[trigger] f1(x, y) implies id_rel()(x, y) by {
                assert(f(x, y));
            }
            assert(rel_within(f1, id_rel()));
        }
        assert(rel_within(f0, id_rel()));
    }
}

/// Modifying through a lawful lens twice, first with `f` and then with
/// `h`, gives what modifying once with `f` followed by `h` gives, where the
/// setter and both relations give one result per input.
pub proof fn lemma_focus_fusion<S, A, G: Fn(&S) -> A, St: Fn(S, A) -> S>(
    m: Focus<G, St>,
    f: spec_fn(A, A) -> bool,
    h: spec_fn(A, A) -> bool,
    s: S,
    t1: S,
    t2: S,
    t3: S,
)
    requires
        lawful(m.getter, m.setter),
        rel_deterministic(f),
        rel_deterministic(h),
        m.modifies_rel(s, f, t1),
        m.modifies_rel(t1, h, t2),
        m.modifies_rel(s, then_rel(f, h), t3),
    ensures
        t2 == t3,
{
    let (a1, b1) = choose|a: A, b: A|
        call_ensures(m.getter, (&s,), a) && f(a, b) && call_ensures(m.setter, (s, b), t1);
    let (a2, b2) = choose|a: A, b: A|
        call_ensures(m.getter, (&t1,), a) && h(a, b) && call_ensures(m.setter, (t1, b), t2);
    let (a3, b3) = choose|a: A, b: A|
        call_ensures(m.getter, (&s,), a) && then_rel(f, h)(a, b) && call_ensures(
            m.setter,
            (s, b),
            t3,
        );
    assert(a3 == a1);
    assert(a2 == b1);
    let c = choose|c: A| #[trigger] f(a3, c) && #[trigger] h(c, b3);
    assert(c == b1);
    assert(b3 == b2);
}

/// Modifying through an isomorphism whose directions are inverse twice,
/// first with `f` and then with `h`, gives what modifying once with `f`
/// followed by `h` gives, where both relations give one result per input.
pub proof fn lemma_whole_fusion<S, A, Fw: Fn(&S) -> A, Bw: Fn(A) -> S>(
    m: Whole<Fw, Bw>,
    f: spec_fn(A, A) -> bool,
    h: spec_fn(A, A) -> bool,
    s: S,
    t1: S,
    t2: S,
    t3: S,
)
    requires
        round_trip(m.forward, m.backward),
        rel_deterministic(f),
        rel_deterministic(h),
        m.modifies_rel(s, f, t1),
        m.modifies_rel(t1, h, t2),
        m.modifies_rel(s, then_rel(f, h), t3),
    ensures
        t2 == t3,
{
    let (a1, b1) = choose|a: A, b: A|
        call_ensures(m.forward, (&s,), a) && f(a, b) && call_ensures(m.backward, (b,), t1);
    let (a2, b2) = choose|a: A, b: A|
        call_ensures(m.forward, (&t1,), a) && h(a, b) && call_ensures(m.backward, (b,), t2);
    let (a3, b3) = choose|a: A, b: A|
        call_ensures(m.forward, (&s,), a) && then_rel(f, h)(a, b) && call_ensures(
            m.backward,
            (b,),
            t3,
        );
    assert(a3 == a1);
    assert(a2 == b1);
    let c = choose|c: A| #[trigger] f(a3, c) && #[trigger] h(c, b3);
    assert(c == b1);
    assert(b3 == b2);
}

/// Modifying through a lawful prism whose matcher gives one result per
/// source twice, first with `f` and then with `h`, gives what modifying once
/// with `f` followed by `h` gives, where both relations give one result per
/// input.
pub proof fn lemma_variant_fusion<S, A, M: Fn(S) -> Result<A, S>, Bd: Fn(A) -> S>(
    m: Variant<M, Bd>,
    f: spec_fn(A, A) -> bool,
    h: spec_fn(A, A) -> bool,
    s: S,
    t1: S,
    t2: S,
    t3: S,
)
    requires
        lawful_prism(m.matcher, m.build),
        forall|x: S, r1: Result<A, S>, r2: Result<A, S>|
            call_ensures(m.matcher, (x,), r1) && call_ensures(m.matcher, (x,), r2) ==> r1 == r2,
        forall|b: A, x1: S, x2: S|
            call_ensures(m.build, (b,), x1) && call_ensures(m.build, (b,), x2) ==> x1 == x2,
        rel_deterministic(f),
        rel_deterministic(h),
        m.modifies_rel(s, f, t1),
        m.modifies_rel(t1, h, t2),
        m.modifies_rel(s, then_rel(f, h), t3),
    ensures
        t2 == t3,
{
    let r1 = choose|r: Result<A, S>|
        call_ensures(m.matcher, (s,), r) && match r {
            Ok(a) => exists|b: A| f(a, b) && call_ensures(m.build, (b,), t1),
            Err(t0) => t1 == t0,
        };
    let r2 = choose|r: Result<A, S>|
        call_ensures(m.matcher, (t1,), r) && match r {
            Ok(a) => exists|b: A| h(a, b) && call_ensures(m.build, (b,), t2),
            Err(t0) => t2 == t0,
        };
    let r3 = choose|r: Result<A, S>|
        call_ensures(m.matcher, (s,), r) && match r {
            Ok(a) => exists|b: A| then_rel(f, h)(a, b) && call_ensures(m.build, (b,), t3),
            Err(t0) => t3 == t0,
        };
    assert(r3 == r1);
    match r1 {
        Ok(a) => {
            let b1 = choose|b: A| f(a, b) && call_ensures(m.build, (b,), t1);
            assert(r2 == Ok::<A, S>(b1));
            let b2 = choose|b: A| h(b1, b) && call_ensures(m.build, (b,), t2);
            let b3 = choose|b: A| then_rel(f, h)(a, b) && call_ensures(m.build, (b,), t3);
            let c = choose|c: A| #[trigger] f(a, c) && #[trigger] h(c, b3);
            assert(c == b1);
            assert(b3 == b2);
        },
        Err(t0) => {
            assert(t0 == s);
            assert(r2 == r1);
        },
    }
}

} // verus!
