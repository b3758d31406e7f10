//! Folds: read-only optics over zero or more foci.
use vstd::prelude::*;
use std::marker::PhantomData;
use crate::algebra::Monoid;
use super::iso::Iso;
use super::prism::Prism;
use super::lens::{Lens, total_get};

verus! {

/// The concatenation of the parts.
pub open spec fn flatten<X>(parts: Seq<Vec<X>>) -> Seq<X>
    decreases parts.len(),
{
    if parts.len() == 0 {
        Seq::empty()
    } else {
        flatten(parts.drop_last()) + parts.last()@
    }
}

/// `k` gets the foci of every focus got by `g`, as `h` gets them, in order.
pub open spec fn composes_all<S, A, X, G: Fn(&S) -> Vec<A>, H: Fn(&A) -> Vec<X>, K: Fn(&S) -> Vec<X>>(
    k: K,
    g: G,
    h: H,
) -> bool {
    forall|s: S, r: Vec<X>|
        call_ensures(k, (&s,), r) ==> exists|v: Vec<A>, parts: Seq<Vec<X>>|
            call_ensures(g, (&s,), v) && parts.len() == v@.len() && (forall|i: int|
                0 <= i < v@.len() ==> call_ensures(h, (&v@[i],), #[trigger] parts[i])) && r@
                == flatten(parts)
}

/// The getter of all foci that goes through `g` and then `h`.
pub fn compose_all<S, A, X, G, H>(g: G, h: H) -> (k: impl Fn(&S) -> Vec<X>) where
    G: Fn(&S) -> Vec<A>,
    H: Fn(&A) -> Vec<X>,

    requires
        total_get(g),
        total_get(h),
    ensures
        total_get(k),
        composes_all(k, g, h),
{
    let k = move |s: &S| -> (r: Vec<X>)
        requires
            total_get(&g),
            total_get(&h),
        ensures
            exists|v: Vec<A>, parts: Seq<Vec<X>>|
                call_ensures(&g, (s,), v) && parts.len() == v@.len() && (forall|i: int|
                    0 <= i < v@.len() ==> call_ensures(&h, (&v@[i],), #[trigger] parts[i]))
                    && r@ == flatten(parts),
        {
            let v = g(s);
            let mut r: Vec<X> = Vec::new();
            let ghost mut parts: Seq<Vec<X>> = Seq::empty();
            let mut i: usize = 0;
            while i < v.len()
                invariant
                    0 <= i <= v@.len(),
                    total_get(&h),
                    parts.len() == i,
                    forall|j: int| 0 <= j < i ==> call_ensures(&h, (&v@[j],), #[trigger] parts[j]),
                    r@ == flatten(parts),
                decreases v.len() - i,
            {
                let mut w = h(&v[i]);
                let ghost gw = w;
                let ghost before = r@;
                r.append(&mut w);
                proof {
                    let old_parts = parts;
                    parts = parts.push(gw);
                    assert(parts.drop_last() =~= old_parts);
                    assert(r@ =~= before + gw@);
                }
                i = i + 1;
            }
            r
        };
    proof {
        assert forall|s: S| call_requires(k, (&s,)) by {}
    }
    k
}

/// The left fold of the views of `rs` under the monoid's operation.
pub open spec fn fold_views<R: Monoid>(rs: Seq<R>) -> R::V
    decreases rs.len(),
{
    if rs.len() == 0 {
        R::empty_spec()
    } else {
        R::combine_spec(fold_views(rs.drop_last()), rs.last()@)
    }
}

/// `k` lists exactly the one focus that `g` gets.
pub open spec fn single_focus<S, A, G: Fn(&S) -> A, K: Fn(&S) -> Vec<A>>(k: K, g: G) -> bool {
    forall|s: S, v: Vec<A>|
        call_ensures(k, (&s,), v) ==> exists|a: A| call_ensures(g, (&s,), a) && v@ == seq![a]
}

/// The fold over the one focus that `g` gets.
pub fn single_fold<S, A, G: Fn(&S) -> A>(g: G) -> (r: Fold<S, A, impl Fn(&S) -> Vec<A>>)
    requires
        total_get(g),
    ensures
        single_focus(r.fold_fn(), g),
{
        let k = move |s: &S| -> (v: Vec<A>)
            requires
                total_get(&g),
            ensures
                exists|a: A| call_ensures(&g, (s,), a) && v@ == seq![a],
            {
                let a = g(s);
                let mut v = Vec::new();
                v.push(a);
                proof {
                    assert(v@ =~= seq![a]);
                }
                v
            };
    Fold::new(k)
}

/// `k` lists the focus of a clone of the source when `matcher` matches it,
/// and nothing otherwise.
pub open spec fn variant_focus<S: Clone, A, T, M: Fn(S) -> Result<A, T>, K: Fn(&S) -> Vec<A>>(
    k: K,
    matcher: M,
) -> bool {
    forall|s: S, v: Vec<A>|
        call_ensures(k, (&s,), v) ==> exists|c: S, m: Result<A, T>|
            call_ensures(S::clone, (&s,), c) && call_ensures(matcher, (c,), m) && v@ == match m {
                Ok(a) => seq![a],
                Err(_) => Seq::<A>::empty(),
            }
}

/// The function listing the focus of a clone of the source when `matcher`
/// matches it.
pub fn variant_list<S: Clone, A, T, M: Fn(S) -> Result<A, T>>(matcher: M) -> (k: impl Fn(&S) -> Vec<A>)
    requires
        forall|s: S| call_requires(matcher, (s,)),
    ensures
        total_get(k),
        variant_focus(k, matcher),
{
    let k = move |s: &S| -> (v: Vec<A>)
        requires
            forall|s: S| call_requires(&matcher, (s,)),
        ensures
            exists|c: S, m: Result<A, T>|
                call_ensures(S::clone, (s,), c) && call_ensures(&matcher, (c,), m) && v@ == match m {
                    Ok(a) => seq![a],
                    Err(_) => Seq::<A>::empty(),
                },
        {
            let c = s.clone();
            let ghost gc = c;
            let m = matcher(c);
            let ghost gm = m;
            let mut v = Vec::new();
            match m {
                Ok(a) => {
                    v.push(a);
                },
                Err(_) => {},
            }
            proof {
                assert(call_ensures(S::clone, (s,), gc));
                assert(call_ensures(&matcher, (gc,), gm));
                match gm {
                    Ok(a) => {
                        assert(v@ =~= seq![a]);
                    },
                    Err(_) => {
                        assert(v@ =~= Seq::<A>::empty());
                    },
                }
            }
            v
        };
    proof {
        assert forall|s: S| call_requires(k, (&s,)) by {}
    }
    k
}

/// A read-only optic over zero or more foci.
#[verifier::reject_recursive_types(S)]
#[verifier::reject_recursive_types(A)]
pub struct Fold<S, A, G> where G: Fn(&S) -> Vec<A> {
    fold_fn: G,
    marker: PhantomData<(S, A)>,
}

/// A fold made by composition or conversion.
pub type ComposedFold<S, A, G> = Fold<S, A, G>;

impl<S, A, G> Fold<S, A, G> where G: Fn(&S) -> Vec<A> {
    /// The function that lists the foci.
    pub closed spec fn fold_fn(&self) -> G {
        self.fold_fn
    }

    #[verifier::type_invariant]
    closed spec fn total(&self) -> bool {
        total_get(self.fold_fn)
    }

    /// A fold from a function, accepting every source, that lists the foci.
    pub fn new(fold_fn: G) -> (r: Self)
        requires
            total_get(fold_fn),
        ensures
            r.fold_fn() == fold_fn,
    {
        Fold { fold_fn, marker: PhantomData }
    }

    /// The foci of `s`.
    pub fn get_all(&self, s: &S) -> (r: Vec<A>)
        ensures
            call_ensures(self.fold_fn(), (s,), r),
    {
        proof {
            use_type_invariant(self);
        }
        (self.fold_fn)(s)
    }

    /// Maps each focus to a monoid value and combines them, left to right,
    /// starting from the identity.
    pub fn fold_map<R: Monoid, F: Fn(A) -> R>(&self, s: &S, f: F) -> (r: R)
        requires
            forall|a: A| call_requires(f, (a,)),
        ensures
            exists|v: Vec<A>, rs: Seq<R>|
                call_ensures(self.fold_fn(), (s,), v) && rs.len() == v@.len() && (forall|i: int|
                    0 <= i < v@.len() ==> call_ensures(f, (v@[i],), #[trigger] rs[i])) && r@
                    == fold_views(rs),
    {
        proof {
            use_type_invariant(self);
        }
        let mut v = (self.fold_fn)(s);
        let ghost gv = v;
        let n = v.len();
        let mut acc = R::empty();
        let ghost mut rs: Seq<R> = Seq::empty();
        let mut i: usize = 0;
        while v.len() > 0
            invariant
                forall|a: A| call_requires(f, (a,)),
                call_ensures(self.fold_fn(), (s,), gv),
                i + v@.len() == gv@.len(),
                gv@.len() == n,
                v@ == gv@.subrange(i as int, gv@.len() as int),
                rs.len() == i,
                forall|j: int| 0 <= j < i ==> call_ensures(f, (gv@[j],), #[trigger] rs[j]),
                acc@ == fold_views(rs),
            decreases v.len(),
        {
            let a = v.remove(0);
            let x = f(a);
            proof {
                assert(a == gv@[i as int]);
                let old_rs = rs;
                rs = rs.push(x);
                assert(rs.drop_last() =~= old_rs);
            }
            acc = acc.combine(x);
            i = i + 1;
            proof {
                assert(v@ =~= gv@.subrange(i as int, gv@.len() as int));
            }
        }
        acc
    }

    /// Whether some focus satisfies `f`.
    pub fn any<F: Fn(&A) -> bool>(&self, s: &S, f: F) -> (r: bool)
        requires
            forall|a: A| call_requires(f, (&a,)),
        ensures
            exists|v: Vec<A>|
                call_ensures(self.fold_fn(), (s,), v) && (r ==> exists|i: int|
                    0 <= i < v@.len() && call_ensures(f, (&v@[i],), true)) && (!r ==> forall|i: int|
                    0 <= i < v@.len() ==> call_ensures(f, (&v@[i],), false)),
    {
        proof {
            use_type_invariant(self);
        }
        let v = (self.fold_fn)(s);
        let mut i: usize = 0;
        while i < v.len()
            invariant
                forall|a: A| call_requires(f, (&a,)),
                call_ensures(self.fold_fn(), (s,), v),
                0 <= i <= v@.len(),
                forall|j: int| 0 <= j < i ==> call_ensures(f, (&v@[j],), false),
            decreases v.len() - i,
        {
            if f(&v[i]) {
                proof {
                    assert(call_ensures(f, (&v@[i as int],), true));
                }
                return true;
            }
            i = i + 1;
        }
        false
    }

    /// Whether every focus satisfies `f`.
    pub fn all<F: Fn(&A) -> bool>(&self, s: &S, f: F) -> (r: bool)
        requires
            forall|a: A| call_requires(f, (&a,)),
        ensures
            exists|v: Vec<A>|
                call_ensures(self.fold_fn(), (s,), v) && (r ==> forall|i: int|
                    0 <= i < v@.len() ==> call_ensures(f, (&v@[i],), true)) && (!r ==> exists|i: int|
                    0 <= i < v@.len() && call_ensures(f, (&v@[i],), false)),
    {
        proof {
            use_type_invariant(self);
        }
        let v = (self.fold_fn)(s);
        let mut i: usize = 0;
        while i < v.len()
            invariant
                forall|a: A| call_requires(f, (&a,)),
                call_ensures(self.fold_fn(), (s,), v),
                0 <= i <= v@.len(),
                forall|j: int| 0 <= j < i ==> call_ensures(f, (&v@[j],), true),
            decreases v.len() - i,
        {
            if !f(&v[i]) {
                proof {
                    assert(call_ensures(f, (&v@[i as int],), false));
                }
                return false;
            }
            i = i + 1;
        }
        true
    }

    /// The first focus that satisfies `f`.
    pub fn find<F: Fn(&A) -> bool>(&self, s: &S, f: F) -> (r: Option<A>)
        requires
            forall|a: A| call_requires(f, (&a,)),
        ensures
            exists|v: Vec<A>|
                call_ensures(self.fold_fn(), (s,), v) && match r {
                    Some(a) => exists|i: int|
                        0 <= i < v@.len() && v@[i] == a && call_ensures(f, (&v@[i],), true) && (
                        forall|j: int| 0 <= j < i ==> call_ensures(f, (&v@[j],), false)),
                    None => forall|i: int|
                        0 <= i < v@.len() ==> call_ensures(f, (&v@[i],), false),
                },
    {
        proof {
            use_type_invariant(self);
        }
        let mut v = (self.fold_fn)(s);
        let ghost gv = v;
        let mut i: usize = 0;
        while i < v.len()
            invariant
                forall|a: A| call_requires(f, (&a,)),
                call_ensures(self.fold_fn(), (s,), gv),
                v@ == gv@,
                0 <= i <= v@.len(),
                forall|j: int| 0 <= j < i ==> call_ensures(f, (&v@[j],), false),
            decreases v.len() - i,
        {
            if f(&v[i]) {
                proof {
                    assert(call_ensures(f, (&v@[i as int],), true));
                }
                let a = v.remove(i);
                return Some(a);
            }
            i = i + 1;
        }
        None
    }

    /// The number of foci of `s`.
    pub fn length(&self, s: &S) -> (r: usize)
        ensures
            exists|v: Vec<A>| call_ensures(self.fold_fn(), (s,), v) && r == v@.len(),
    {
        proof {
            use_type_invariant(self);
        }
        (self.fold_fn)(s).len()
    }

    /// Compose with another fold for deeper read-only access.
    pub fn and_then<B, G2>(self, inner: Fold<A, B, G2>) -> (r: ComposedFold<S, B, impl Fn(&S) -> Vec<B>>) where
        G2: Fn(&A) -> Vec<B>,

        ensures
            composes_all(r.fold_fn(), self.fold_fn(), inner.fold_fn()),
    {
        proof {
            use_type_invariant(&self);
            use_type_invariant(&inner);
        }
        let k = compose_all(self.fold_fn, inner.fold_fn);
        Fold::new(k)
    }
}

impl<S, T, A, B, G, St> Lens<S, T, A, B, G, St> where
    G: Fn(&S) -> A + Copy,
    St: Fn(S, B) -> T + Copy,
 {
    /// The fold over the one focus.
    pub fn to_fold(&self) -> (r: Fold<S, A, impl Fn(&S) -> Vec<A>>)
        ensures
            single_focus(r.fold_fn(), self.get_fn()),
    {
        single_fold(self.getter_copy())
    }
}

impl<S, T, A, B, Fw, Bw> Iso<S, T, A, B, Fw, Bw> where Fw: Fn(&S) -> A + Copy, Bw: Fn(B) -> T + Copy {
    /// The fold over the one converted focus.
    pub fn to_fold(&self) -> (r: Fold<S, A, impl Fn(&S) -> Vec<A>>)
        ensures
            single_focus(r.fold_fn(), self.forward_fn()),
    {
        single_fold(self.forward_copy())
    }
}

impl<S: Clone, T, A, B, M, Bd> Prism<S, T, A, B, M, Bd> where
    M: Fn(S) -> Result<A, T> + Copy,
    Bd: Fn(B) -> T + Copy,
 {
    /// The fold over the focus, present when the variant matches.
    pub fn to_fold(&self) -> (r: Fold<S, A, impl Fn(&S) -> Vec<A>>)
        ensures
            variant_focus(r.fold_fn(), self.match_fn()),
    {
        let k = variant_list(self.matcher_copy());
        Fold::new(k)
    }
}

} // verus!
