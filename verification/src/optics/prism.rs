//! Prisms: optics focusing on one variant of a sum type.
use vstd::prelude::*;
use std::marker::PhantomData;
use super::lens::total_fn;
use crate::algebra::Monoid;
use super::modify::Variant;
use super::review::Review;
use super::setter::Setter;

verus! {

/// `t` is what `s` becomes when its matched focus is mapped by `f` and
/// rebuilt, or `s` passed through when it does not match.
pub open spec fn rebuilds<S, T, A, B, M: Fn(S) -> Result<A, T>, Bd: Fn(B) -> T, F: FnOnce(A) -> B>(
    matcher: M,
    build: Bd,
    f: F,
    s: S,
    t: T,
) -> bool {
    exists|m: Result<A, T>|
        call_ensures(matcher, (s,), m) && match m {
            Ok(a) => exists|b: B| call_ensures(f, (a,), b) && call_ensures(build, (b,), t),
            Err(t0) => t == t0,
        }
}

/// The prism laws: building and matching give back the value, a matched
/// focus rebuilds the source, and a source that does not match passes
/// through unchanged.
pub open spec fn lawful_prism<S, A, M: Fn(S) -> Result<A, S>, Bd: Fn(A) -> S>(matcher: M, build: Bd) -> bool {
    &&& forall|b: A, t: S, m: Result<A, S>|
        call_ensures(build, (b,), t) && call_ensures(matcher, (t,), m) ==> m == Ok::<A, S>(b)
    &&& forall|s: S, a: A, t: S|
        call_ensures(matcher, (s,), Ok::<A, S>(a)) && call_ensures(build, (a,), t) ==> t == s
    &&& forall|s: S, t: S| call_ensures(matcher, (s,), Err::<A, S>(t)) ==> t == s
}

/// A prism from a matcher and a constructor.
///
/// `S` — source type, `T` — modified source type, `A` — focus type (the
/// variant's content), `B` — replacement type.
#[verifier::reject_recursive_types(S)]
#[verifier::reject_recursive_types(T)]
#[verifier::reject_recursive_types(A)]
#[verifier::reject_recursive_types(B)]
pub struct Prism<S, T, A, B, M, Bd> where M: Fn(S) -> Result<A, T>, Bd: Fn(B) -> T {
    matcher: M,
    build: Bd,
    marker: PhantomData<(S, T, A, B)>,
}

/// A simple (monomorphic) prism where `S == T` and `A == B`.
pub type SimplePrism<S, A, M, Bd> = Prism<S, S, A, A, M, Bd>;

impl<S, T, A, B, M, Bd> Prism<S, T, A, B, M, Bd> where M: Fn(S) -> Result<A, T>, Bd: Fn(B) -> T {
    /// The matcher: `Ok` with the focus, or `Err` with the source passed
    /// through.
    pub closed spec fn match_fn(&self) -> M {
        self.matcher
    }

    /// The constructor.
    pub closed spec fn build_fn(&self) -> Bd {
        self.build
    }

    #[verifier::type_invariant]
    closed spec fn total(&self) -> bool {
        total_fn(self.matcher) && total_fn(self.build)
    }

    /// A prism from a matcher and a constructor that accept every input.
    pub fn new(matcher: M, build: Bd) -> (r: Self)
        requires
            total_fn(matcher),
            total_fn(build),
        ensures
            r.match_fn() == matcher,
            r.build_fn() == build,
    {
        Prism { matcher, build, marker: PhantomData }
    }

    /// The focus of a clone of `s`, if the variant matches.
    pub fn preview(&self, s: &S) -> (r: Option<A>) where S: Clone
        ensures
            exists|c: S, m: Result<A, T>|
                call_ensures(S::clone, (s,), c) && call_ensures(self.match_fn(), (c,), m) && r
                    == match m {
                    Ok(a) => Some(a),
                    Err(_) => None,
                },
    {
        proof {
            use_type_invariant(self);
        }
        let c = s.clone();
        let ghost gc = c;
        proof {
            assert(call_ensures(S::clone, (s,), gc));
        }
        let m = (self.matcher)(c);
        let ghost gm = m;
        proof {
            assert(call_ensures(self.match_fn(), (gc,), gm));
        }
        match m {
            Ok(a) => Some(a),
            Err(_) => None,
        }
    }

    /// Construct a `T` from a replacement value.
    pub fn review(&self, b: B) -> (t: T)
        ensures
            call_ensures(self.build_fn(), (b,), t),
    {
        proof {
            use_type_invariant(self);
        }
        (self.build)(b)
    }

    /// Replace the focus if the variant matches; otherwise pass through.
    pub fn set(&self, s: S, b: B) -> (t: T)
        ensures
            exists|m: Result<A, T>|
                call_ensures(self.match_fn(), (s,), m) && match m {
                    Ok(_) => call_ensures(self.build_fn(), (b,), t),
                    Err(t0) => t == t0,
                },
    {
        proof {
            use_type_invariant(self);
        }
        let m = (self.matcher)(s);
        let ghost gm = m;
        proof {
            assert(call_ensures(self.match_fn(), (s,), gm));
        }
        match m {
            Ok(_) => (self.build)(b),
            Err(t) => t,
        }
    }

    /// Modify the focus if the variant matches; otherwise pass through.
    pub fn over<F: FnOnce(A) -> B>(&self, s: S, f: F) -> (t: T)
        requires
            total_fn(f),
        ensures
            rebuilds(self.match_fn(), self.build_fn(), f, s, t),
    {
        proof {
            use_type_invariant(self);
        }
        let m = (self.matcher)(s);
        let ghost gm = m;
        match m {
            Ok(a) => {
                let b = f(a);
                (self.build)(b)
            },
            Err(t) => t,
        }
    }
}

impl<S, T, A, B, M, Bd> Prism<S, T, A, B, M, Bd> where
    M: Fn(S) -> Result<A, T> + Copy,
    Bd: Fn(B) -> T + Copy,
 {
    /// A copy of the matcher.
    pub(crate) fn matcher_copy(&self) -> (m: M)
        ensures
            m == self.match_fn(),
            total_fn(m),
    {
        proof {
            use_type_invariant(self);
        }
        self.matcher
    }

    /// A copy of the constructor.
    pub(crate) fn build_copy(&self) -> (bd: Bd)
        ensures
            bd == self.build_fn(),
            total_fn(bd),
    {
        proof {
            use_type_invariant(self);
        }
        self.build
    }

    /// The profunctor encoding at forgetful functions into a monoid: a
    /// matched focus is read by `pab`, a source that does not match gives
    /// the identity.
    pub fn transform_forget<R: Monoid, F: Fn(A) -> R>(&self, pab: F) -> (r: impl Fn(S) -> R)
        requires
            forall|a: A| call_requires(pab, (a,)),
        ensures
            forall|s: S| call_requires(r, (s,)),
            forall|s: S, x: R|
                call_ensures(r, (s,), x) ==> exists|m: Result<A, T>|
                    call_ensures(self.match_fn(), (s,), m) && match m {
                        Ok(a) => call_ensures(pab, (a,), x),
                        Err(_) => x@ == R::empty_spec(),
                    },
    {
        let m = self.matcher_copy();
        move |s: S| -> (x: R)
            requires
                total_fn(m),
                forall|a: A| call_requires(pab, (a,)),
            ensures
                exists|r: Result<A, T>|
                    call_ensures(m, (s,), r) && match r {
                        Ok(a) => call_ensures(pab, (a,), x),
                        Err(_) => x@ == R::empty_spec(),
                    },
            {
                let r = m(s);
                let ghost gr = r;
                match r {
                    Ok(a) => pab(a),
                    Err(_) => R::empty(),
                }
            }
    }

    /// The profunctor encoding at tagged values: a replacement becomes the
    /// target built from it.
    pub fn transform_tagged(&self, pab: B) -> (t: T)
        ensures
            call_ensures(self.build_fn(), (pab,), t),
    {
        let bd = self.build_copy();
        bd(pab)
    }

    /// Convert to a `Review` (write-only, construction).
    pub fn to_review(&self) -> (r: Review<T, B, Bd>)
        ensures
            r.build_fn() == self.build_fn(),
    {
        Review::new(self.build_copy())
    }

    /// Convert to a `Setter` (modify-only).
    pub fn to_setter(&self) -> (r: Setter<S, T, A, B, Variant<M, Bd>>)
        ensures
            r.modifier() == (Variant { matcher: self.match_fn(), build: self.build_fn() }),
    {
        Setter::new(Variant { matcher: self.matcher_copy(), build: self.build_copy() })
    }

    /// The profunctor encoding at functions: a function on the focus becomes
    /// the function on the source that maps a matched focus and rebuilds,
    /// and passes other sources through.
    pub fn transform<F: Fn(A) -> B>(&self, pab: F) -> (r: impl Fn(S) -> T)
        requires
            total_fn(pab),
        ensures
            forall|s: S| call_requires(r, (s,)),
            forall|s: S, t: T|
                call_ensures(r, (s,), t) ==> rebuilds(
                    self.match_fn(),
                    self.build_fn(),
                    pab,
                    s,
                    t,
                ),
    {
        let m = self.matcher_copy();
        let bd = self.build_copy();
        move |s: S| -> (t: T)
            requires
                total_fn(m),
                total_fn(bd),
                total_fn(pab),
            ensures
                rebuilds(m, bd, pab, s, t),
            {
                let r = m(s);
                let ghost gr = r;
                match r {
                    Ok(a) => {
                        let b = pab(a);
                        bd(b)
                    },
                    Err(t) => t,
                }
            }
    }
}

/// `r` is what previewing `s` gives: the match of a clone of `s`, as an
/// option.
pub open spec fn previews<S: Clone, A, T, M: Fn(S) -> Result<A, T>>(matcher: M, s: S, r: Option<A>) -> bool {
    exists|c: S, m: Result<A, T>|
        call_ensures(S::clone, (&s,), c) && call_ensures(matcher, (c,), m) && r == match m {
            Ok(a) => Some(a),
            Err(_) => None,
        }
}

/// ReviewPreview and PreviewReview for a lawful prism whose source type
/// clones faithfully: previewing a built value gives back the value, and
/// building a previewed focus gives back the source.
pub proof fn lemma_review_preview<S: Clone, A, M: Fn(S) -> Result<A, S>, Bd: Fn(A) -> S>(
    matcher: M,
    build: Bd,
    b: A,
    t: S,
    r: Option<A>,
)
    requires
        lawful_prism(matcher, build),
        forall|x: S, c: S| call_ensures(S::clone, (&x,), c) ==> c == x,
        call_ensures(build, (b,), t),
        previews(matcher, t, r),
    ensures
        r == Some(b),
{
    let (c, m) = choose|c: S, m: Result<A, S>|
        call_ensures(S::clone, (&t,), c) && call_ensures(matcher, (c,), m) && r == match m {
            Ok(a) => Some(a),
            Err(_) => None,
        };
    assert(c == t);
    assert(call_ensures(matcher, (t,), m));
    assert(m == Ok::<A, S>(b));
}

/// PreviewReview: for a lawful prism whose source type clones faithfully,
/// building the previewed focus of `s` gives back `s`.
pub proof fn lemma_preview_review<S: Clone, A, M: Fn(S) -> Result<A, S>, Bd: Fn(A) -> S>(
    matcher: M,
    build: Bd,
    s: S,
    a: A,
    t: S,
)
    requires
        lawful_prism(matcher, build),
        forall|x: S, c: S| call_ensures(S::clone, (&x,), c) ==> c == x,
        previews(matcher, s, Some(a)),
        call_ensures(build, (a,), t),
    ensures
        t == s,
{
    let (c, m) = choose|c: S, m: Result<A, S>|
        call_ensures(S::clone, (&s,), c) && call_ensures(matcher, (c,), m) && Some(a) == match m {
            Ok(a) => Some(a),
            Err(_) => None,
        };
    assert(c == s);
    match m {
        Ok(a2) => {
            assert(a2 == a);
        },
        Err(_) => {},
    }
}

/// OverIdentity: modifying through a lawful prism with a function that
/// returns its argument changes nothing.
pub proof fn lemma_prism_over_identity<S, A, M: Fn(S) -> Result<A, S>, Bd: Fn(A) -> S, F: FnOnce(A) -> A>(
    matcher: M,
    build: Bd,
    f: F,
    s: S,
    t: S,
)
    requires
        lawful_prism(matcher, build),
        forall|a: A, b: A| call_ensures(f, (a,), b) ==> b == a,
        rebuilds(matcher, build, f, s, t),
    ensures
        t == s,
{
    let m = choose|m: Result<A, S>|
        call_ensures(matcher, (s,), m) && match m {
            Ok(a) => exists|b: A| call_ensures(f, (a,), b) && call_ensures(build, (b,), t),
            Err(t0) => t == t0,
        };
    match m {
        Ok(a) => {
            let b = choose|b: A| call_ensures(f, (a,), b) && call_ensures(build, (b,), t);
            assert(b == a);
        },
        Err(_) => {},
    }
}

} // verus!
