//! Isomorphisms: optics between two types that carry the same information.
use vstd::prelude::*;
use std::marker::PhantomData;
use super::getter::Getter;
use super::lens::{total_get, total_fn};
use super::modify::Whole;
use super::review::Review;
use super::setter::Setter;

verus! {

/// `t` is what converting `s` forward, mapping with `f` and converting back
/// gives.
pub open spec fn maps_through<S, T, A, B, Fw: Fn(&S) -> A, Bw: Fn(B) -> T, F: FnOnce(A) -> B>(
    fw: Fw,
    bw: Bw,
    f: F,
    s: S,
    t: T,
) -> bool {
    exists|a: A, b: B|
        call_ensures(fw, (&s,), a) && call_ensures(f, (a,), b) && call_ensures(bw, (b,), t)
}

/// Whether the two directions are inverse functions of each other.
pub open spec fn round_trip<S, A, Fw: Fn(&S) -> A, Bw: Fn(A) -> S>(fw: Fw, bw: Bw) -> bool {
    &&& forall|s: S, a1: A, a2: A|
        call_ensures(fw, (&s,), a1) && call_ensures(fw, (&s,), a2) ==> a1 == a2
    &&& forall|a: A, t1: S, t2: S| call_ensures(bw, (a,), t1) && call_ensures(bw, (a,), t2) ==> t1 == t2
    &&& forall|s: S, a: A, t: S| call_ensures(fw, (&s,), a) && call_ensures(bw, (a,), t) ==> t == s
    &&& forall|a: A, t: S, a2: A| call_ensures(bw, (a,), t) && call_ensures(fw, (&t,), a2) ==> a2 == a
}

/// An isomorphism between `S` and `A` (and back from `B` to `T`).
///
/// `S` — source, `T` — modified source, `A` — focus, `B` — replacement.
#[verifier::reject_recursive_types(S)]
#[verifier::reject_recursive_types(T)]
#[verifier::reject_recursive_types(A)]
#[verifier::reject_recursive_types(B)]
pub struct Iso<S, T, A, B, Fw, Bw> where Fw: Fn(&S) -> A, Bw: Fn(B) -> T {
    forward: Fw,
    backward: Bw,
    marker: PhantomData<(S, T, A, B)>,
}

/// A simple (monomorphic) iso where `S == T` and `A == B`.
pub type SimpleIso<S, A, Fw, Bw> = Iso<S, S, A, A, Fw, Bw>;

impl<S, T, A, B, Fw, Bw> Iso<S, T, A, B, Fw, Bw> where Fw: Fn(&S) -> A, Bw: Fn(B) -> T {
    /// The forward direction.
    pub closed spec fn forward_fn(&self) -> Fw {
        self.forward
    }

    /// The backward direction.
    pub closed spec fn backward_fn(&self) -> Bw {
        self.backward
    }

    #[verifier::type_invariant]
    closed spec fn total(&self) -> bool {
        total_get(self.forward) && total_fn(self.backward)
    }

    /// An iso from its two directions, each accepting every input.
    pub fn new(forward: Fw, backward: Bw) -> (r: Self)
        requires
            total_get(forward),
            total_fn(backward),
        ensures
            r.forward_fn() == forward,
            r.backward_fn() == backward,
    {
        Iso { forward, backward, marker: PhantomData }
    }

    /// Extract the focus from a source.
    pub fn get(&self, s: &S) -> (a: A)
        ensures
            call_ensures(self.forward_fn(), (s,), a),
    {
        proof {
            use_type_invariant(self);
        }
        (self.forward)(s)
    }

    /// Construct a source from a focus value (the reverse direction).
    pub fn review(&self, b: B) -> (t: T)
        ensures
            call_ensures(self.backward_fn(), (b,), t),
    {
        proof {
            use_type_invariant(self);
        }
        (self.backward)(b)
    }

    /// Set the focus, discarding the old source.
    pub fn set(&self, _s: S, b: B) -> (t: T)
        ensures
            call_ensures(self.backward_fn(), (b,), t),
    {
        proof {
            use_type_invariant(self);
        }
        (self.backward)(b)
    }

    /// Modify the focus.
    pub fn over<F: FnOnce(A) -> B>(&self, s: S, f: F) -> (t: T)
        requires
            total_fn(f),
        ensures
            maps_through(self.forward_fn(), self.backward_fn(), f, s, t),
    {
        proof {
            use_type_invariant(self);
        }
        let a = (self.forward)(&s);
        let b = f(a);
        (self.backward)(b)
    }
}

impl<S, T, A, B, Fw, Bw> Iso<S, T, A, B, Fw, Bw> where Fw: Fn(&S) -> A + Copy, Bw: Fn(B) -> T + Copy {
    /// A copy of the forward direction.
    pub(crate) fn forward_copy(&self) -> (fw: Fw)
        ensures
            fw == self.forward_fn(),
            total_get(fw),
    {
        proof {
            use_type_invariant(self);
        }
        self.forward
    }

    /// A copy of the backward direction.
    pub(crate) fn backward_copy(&self) -> (bw: Bw)
        ensures
            bw == self.backward_fn(),
            total_fn(bw),
    {
        proof {
            use_type_invariant(self);
        }
        self.backward
    }

    /// The profunctor encoding at functions: a function on the focus becomes
    /// the function on the source that converts, maps and converts back.
    pub fn transform<F: Fn(A) -> B>(&self, pab: F) -> (r: impl Fn(S) -> T)
        requires
            total_fn(pab),
        ensures
            forall|s: S| call_requires(r, (s,)),
            forall|s: S, t: T|
                call_ensures(r, (s,), t) ==> maps_through(
                    self.forward_fn(),
                    self.backward_fn(),
                    pab,
                    s,
                    t,
                ),
    {
        let fw = self.forward_copy();
        let bw = self.backward_copy();
        move |s: S| -> (t: T)
            requires
                total_get(fw),
                total_fn(bw),
                total_fn(pab),
            ensures
                maps_through(fw, bw, pab, s, t),
            {
                let a = fw(&s);
                let b = pab(a);
                bw(b)
            }
    }

    /// The profunctor encoding at forgetful functions: a function from the
    /// focus into `R` becomes the function from the source that converts
    /// forward and applies it.
    pub fn transform_forget<R, F: Fn(A) -> R>(&self, pab: F) -> (r: impl Fn(S) -> R)
        requires
            forall|a: A| call_requires(pab, (a,)),
        ensures
            forall|s: S| call_requires(r, (s,)),
            forall|s: S, x: R|
                call_ensures(r, (s,), x) ==> exists|a: A|
                    call_ensures(self.forward_fn(), (&s,), a) && call_ensures(pab, (a,), x),
    {
        let fw = self.forward_copy();
        move |s: S| -> (x: R)
            requires
                total_get(fw),
                forall|a: A| call_requires(pab, (a,)),
            ensures
                exists|a: A| call_ensures(fw, (&s,), a) && call_ensures(pab, (a,), x),
            {
                let a = fw(&s);
                pab(a)
            }
    }

    /// The profunctor encoding at tagged values: a replacement becomes the
    /// target built from it.
    pub fn transform_tagged(&self, pab: B) -> (t: T)
        ensures
            call_ensures(self.backward_fn(), (pab,), t),
    {
        let bw = self.backward_copy();
        bw(pab)
    }

    /// The read-only getter of the forward direction.
    pub fn to_getter(&self) -> (r: Getter<S, A, Fw>)
        ensures
            r.get_fn() == self.forward_fn(),
    {
        Getter::new(self.forward_copy())
    }

    /// The constructing review of the backward direction.
    pub fn to_review(&self) -> (r: Review<T, B, Bw>)
        ensures
            r.build_fn() == self.backward_fn(),
    {
        Review::new(self.backward_copy())
    }

    /// The setter that converts, maps and converts back.
    pub fn to_setter(&self) -> (r: Setter<S, T, A, B, Whole<Fw, Bw>>)
        ensures
            r.modifier() == (Whole { forward: self.forward_fn(), backward: self.backward_fn() }),
    {
        Setter::new(Whole { forward: self.forward_copy(), backward: self.backward_copy() })
    }
}

/// Modifying through an isomorphism whose directions are inverse with a
/// function that returns its argument changes nothing.
pub proof fn lemma_iso_over_identity<S, A, Fw: Fn(&S) -> A, Bw: Fn(A) -> S, F: FnOnce(A) -> A>(
    fw: Fw,
    bw: Bw,
    f: F,
    s: S,
    t: S,
)
    requires
        round_trip(fw, bw),
        forall|a: A, b: A| call_ensures(f, (a,), b) ==> b == a,
        maps_through(fw, bw, f, s, t),
    ensures
        t == s,
{
    let (a, b) = choose|a: A, b: A|
        call_ensures(fw, (&s,), a) && call_ensures(f, (a,), b) && call_ensures(bw, (b,), t);
    assert(b == a);
}

} // verus!
