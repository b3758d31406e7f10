//! Refinement types: values that carry a checked invariant.
use vstd::prelude::*;
use crate::algebra::Semigroup;

verus! {

/// A container whose size can be stated.
pub trait Container {
    /// The number of elements.
    spec fn size(&self) -> nat;
}

impl<T> Container for Vec<T> {
    open spec fn size(&self) -> nat {
        self@.len()
    }
}

/// A container that holds at least one element.
#[derive(Debug, PartialEq, Eq, PartialOrd, Ord, Hash)]
pub struct NonEmpty<C: Container> {
    inner: C,
}

impl<C: Container> NonEmpty<C> {
    /// Whether the container holds at least one element, as every
    /// constructor ensures.
    pub closed spec fn wf(&self) -> bool {
        self.inner.size() > 0
    }
}

impl<T> View for NonEmpty<Vec<T>> {
    type V = Seq<T>;

    closed spec fn view(&self) -> Seq<T> {
        self.inner@
    }
}

impl<T> NonEmpty<Vec<T>> {
    /// A vector is well formed exactly when it holds at least one element.
    pub proof fn lemma_wf(&self)
        ensures
            self.wf() <==> self@.len() > 0,
    {
    }

    /// The vector as a non-empty one, or `None` when it is empty.
    pub fn try_new(v: Vec<T>) -> (r: Option<Self>)
        ensures
            r is Some <==> v@.len() > 0,
            r matches Some(ne) ==> ne@ == v@ && ne.wf(),
    {
        if v.len() == 0 {
            None
        } else {
            Some(NonEmpty { inner: v })
        }
    }

    /// The vector `head` followed by `tail`.
    pub fn from_parts(head: T, tail: Vec<T>) -> (r: Self)
        ensures
            r@ == seq![head] + tail@,
            r.wf(),
    {
        let mut v = tail;
        let ghost t = v@;
        v.insert(0, head);
        proof {
            assert(v@ =~= seq![head] + t);
        }
        NonEmpty { inner: v }
    }

    /// The vector holding just `value`.
    pub fn singleton(value: T) -> (r: Self)
        ensures
            r@ == seq![value],
            r.wf(),
    {
        let mut v = Vec::new();
        v.push(value);
        proof {
            assert(v@ =~= seq![value]);
        }
        NonEmpty { inner: v }
    }

    /// The first element.
    pub fn head(&self) -> (r: &T)
        requires
            self.wf(),
        ensures
            *r == self@[0],
    {
        &self.inner[0]
    }

    /// The number of elements, at least one.
    pub fn len(&self) -> (r: usize)
        requires
            self.wf(),
        ensures
            r == self@.len(),
            r > 0,
    {
        self.inner.len()
    }

    /// Never empty.
    pub fn is_empty(&self) -> (r: bool)
        requires
            self.wf(),
        ensures
            r == (self@.len() == 0),
            !r,
    {
        false
    }

    /// Appends `value` at the end.
    pub fn push(&mut self, value: T)
        ensures
            final(self)@ == old(self)@.push(value),
            final(self).wf(),
    {
        self.inner.push(value);
    }

    /// The elements as a slice.
    pub fn as_slice(&self) -> (r: &[T])
        ensures
            r@ == self@,
    {
        self.inner.as_slice()
    }

    /// The elements as a vector.
    pub fn into_vec(self) -> (r: Vec<T>)
        ensures
            r@ == self@,
    {
        self.inner
    }

    /// An iterator over the elements, in order.
    pub fn iter(&self) -> (r: core::slice::Iter<'_, T>)
        ensures
            vstd::std_specs::slice::into_iter_elts(r) == self@,
    {
        let s = self.inner.as_slice();
        let r = s.iter();
        proof {
            broadcast use vstd::std_specs::slice::axiom_spec_slice_iter;

            assert(vstd::std_specs::iter::IteratorSpec::remaining(&r) == s@.as_ref());
            assert(s@.as_ref().unref() =~= s@);
        }
        r
    }

    /// The elements mapped by `f`, in order.
    pub fn map<U, F: Fn(T) -> U>(self, f: F) -> (r: NonEmpty<Vec<U>>)
        requires
            self.wf(),
            forall|t: T| call_requires(f, (t,)),
        ensures
            r.wf(),
            r@.len() == self@.len(),
            forall|i: int| 0 <= i < self@.len() ==> call_ensures(f, (self@[i],), #[trigger] r@[i]),
    {
        let ghost orig = self@;
        let mut v = self.inner;
        let mut out: Vec<U> = Vec::new();
        let mut i: usize = 0;
        let n = v.len();
        while v.len() > 0
            invariant
                forall|t: T| call_requires(f, (t,)),
                orig.len() == n,
                i + v@.len() == n,
                v@ == orig.subrange(i as int, n as int),
                out@.len() == i,
                forall|j: int| 0 <= j < i ==> call_ensures(f, (orig[j],), #[trigger] out@[j]),
            decreases v.len(),
        {
            let x = v.remove(0);
            proof {
                assert(x == orig[i as int]);
            }
            out.push(f(x));
            i = i + 1;
            proof {
                assert(v@ =~= orig.subrange(i as int, n as int));
            }
        }
        NonEmpty { inner: out }
    }
}

/// A copy holds a clone of each element, in order, and is non-empty when the
/// original is.
impl<T: Clone> Clone for NonEmpty<Vec<T>> {
    fn clone(&self) -> (r: Self)
        ensures
            r@.len() == self@.len(),
            forall|i: int| 0 <= i < self@.len() ==> cloned(self@[i], #[trigger] r@[i]),
            self.wf() ==> r.wf(),
    {
        NonEmpty { inner: self.inner.clone() }
    }
}

/// Non-empty vectors under concatenation.
impl<T> Semigroup for NonEmpty<Vec<T>> {
    open spec fn combine_spec(a: Seq<T>, b: Seq<T>) -> Seq<T> {
        a + b
    }

    proof fn lemma_associative(a: Seq<T>, b: Seq<T>, c: Seq<T>) {
        assert((a + b) + c =~= a + (b + c));
    }

    fn combine(self, other: Self) -> (r: Self) {
        let mut v = self.inner;
        let mut w = other.inner;
        v.append(&mut w);
        NonEmpty { inner: v }
    }
}

/// A number type whose positivity can be stated.
pub trait Positivity {
    /// Whether the value is greater than zero.
    spec fn positive(&self) -> bool;
}

/// A number known to be greater than zero.
#[derive(Debug, PartialEq, PartialOrd)]
pub struct Positive<T: Positivity> {
    value: T,
}

impl<T: Positivity> Positive<T> {
    #[verifier::type_invariant]
    closed spec fn is_positive(&self) -> bool {
        self.value.positive()
    }

    /// The number held.
    pub closed spec fn value(&self) -> T {
        self.value
    }
}

/// A copy is the same number.
impl<T: Positivity + Copy> Clone for Positive<T> {
    fn clone(&self) -> (r: Self)
        ensures
            r == *self,
    {
        *self
    }
}

impl<T: Positivity + Copy> Copy for Positive<T> {

}

impl Positivity for i8 {
    open spec fn positive(&self) -> bool {
        *self > 0
    }
}

impl Positive<i8> {
    /// `v` as a positive number, or `None` when it is not greater than zero.
    pub fn try_new(v: i8) -> (r: Option<Self>)
        ensures
            r is Some <==> v > 0,
            r matches Some(p) ==> p.value() == v,
    {
        if v > 0 {
            Some(Positive { value: v })
        } else {
            None
        }
    }

    /// The number, greater than zero.
    pub fn get(self) -> (r: i8)
        ensures
            r == self.value(),
            r > 0,
    {
        proof {
            use_type_invariant(&self);
        }
        self.value
    }
}

impl Positivity for i16 {
    open spec fn positive(&self) -> bool {
        *self > 0
    }
}

impl Positive<i16> {
    /// `v` as a positive number, or `None` when it is not greater than zero.
    pub fn try_new(v: i16) -> (r: Option<Self>)
        ensures
            r is Some <==> v > 0,
            r matches Some(p) ==> p.value() == v,
    {
        if v > 0 {
            Some(Positive { value: v })
        } else {
            None
        }
    }

    /// The number, greater than zero.
    pub fn get(self) -> (r: i16)
        ensures
            r == self.value(),
            r > 0,
    {
        proof {
            use_type_invariant(&self);
        }
        self.value
    }
}

impl Positivity for i32 {
    open spec fn positive(&self) -> bool {
        *self > 0
    }
}

impl Positive<i32> {
    /// `v` as a positive number, or `None` when it is not greater than zero.
    pub fn try_new(v: i32) -> (r: Option<Self>)
        ensures
            r is Some <==> v > 0,
            r matches Some(p) ==> p.value() == v,
    {
        if v > 0 {
            Some(Positive { value: v })
        } else {
            None
        }
    }

    /// The number, greater than zero.
    pub fn get(self) -> (r: i32)
        ensures
            r == self.value(),
            r > 0,
    {
        proof {
            use_type_invariant(&self);
        }
        self.value
    }
}

impl Positivity for i64 {
    open spec fn positive(&self) -> bool {
        *self > 0
    }
}

impl Positive<i64> {
    /// `v` as a positive number, or `None` when it is not greater than zero.
    pub fn try_new(v: i64) -> (r: Option<Self>)
        ensures
            r is Some <==> v > 0,
            r matches Some(p) ==> p.value() == v,
    {
        if v > 0 {
            Some(Positive { value: v })
        } else {
            None
        }
    }

    /// The number, greater than zero.
    pub fn get(self) -> (r: i64)
        ensures
            r == self.value(),
            r > 0,
    {
        proof {
            use_type_invariant(&self);
        }
        self.value
    }
}

impl Positivity for i128 {
    open spec fn positive(&self) -> bool {
        *self > 0
    }
}

impl Positive<i128> {
    /// `v` as a positive number, or `None` when it is not greater than zero.
    pub fn try_new(v: i128) -> (r: Option<Self>)
        ensures
            r is Some <==> v > 0,
            r matches Some(p) ==> p.value() == v,
    {
        if v > 0 {
            Some(Positive { value: v })
        } else {
            None
        }
    }

    /// The number, greater than zero.
    pub fn get(self) -> (r: i128)
        ensures
            r == self.value(),
            r > 0,
    {
        proof {
            use_type_invariant(&self);
        }
        self.value
    }
}

impl Positivity for u8 {
    open spec fn positive(&self) -> bool {
        *self > 0
    }
}

impl Positive<u8> {
    /// `v` as a positive number, or `None` when it is not greater than zero.
    pub fn try_new(v: u8) -> (r: Option<Self>)
        ensures
            r is Some <==> v > 0,
            r matches Some(p) ==> p.value() == v,
    {
        if v > 0 {
            Some(Positive { value: v })
        } else {
            None
        }
    }

    /// The number, greater than zero.
    pub fn get(self) -> (r: u8)
        ensures
            r == self.value(),
            r > 0,
    {
        proof {
            use_type_invariant(&self);
        }
        self.value
    }

    /// `v` as a positive number when it is nonzero, else `None`.
    pub fn from_nonzero(v: u8) -> (r: Option<Self>)
        ensures
            r is Some <==> v != 0,
            r matches Some(p) ==> p.value() == v,
    {
        if v > 0 {
            Some(Positive { value: v })
        } else {
            None
        }
    }
}

impl Positivity for u16 {
    open spec fn positive(&self) -> bool {
        *self > 0
    }
}

impl Positive<u16> {
    /// `v` as a positive number, or `None` when it is not greater than zero.
    pub fn try_new(v: u16) -> (r: Option<Self>)
        ensures
            r is Some <==> v > 0,
            r matches Some(p) ==> p.value() == v,
    {
        if v > 0 {
            Some(Positive { value: v })
        } else {
            None
        }
    }

    /// The number, greater than zero.
    pub fn get(self) -> (r: u16)
        ensures
            r == self.value(),
            r > 0,
    {
        proof {
            use_type_invariant(&self);
        }
        self.value
    }

    /// `v` as a positive number when it is nonzero, else `None`.
    pub fn from_nonzero(v: u16) -> (r: Option<Self>)
        ensures
            r is Some <==> v != 0,
            r matches Some(p) ==> p.value() == v,
    {
        if v > 0 {
            Some(Positive { value: v })
        } else {
            None
        }
    }
}

impl Positivity for u32 {
    open spec fn positive(&self) -> bool {
        *self > 0
    }
}

impl Positive<u32> {
    /// `v` as a positive number, or `None` when it is not greater than zero.
    pub fn try_new(v: u32) -> (r: Option<Self>)
        ensures
            r is Some <==> v > 0,
            r matches Some(p) ==> p.value() == v,
    {
        if v > 0 {
            Some(Positive { value: v })
        } else {
            None
        }
    }

    /// The number, greater than zero.
    pub fn get(self) -> (r: u32)
        ensures
            r == self.value(),
            r > 0,
    {
        proof {
            use_type_invariant(&self);
        }
        self.value
    }

    /// `v` as a positive number when it is nonzero, else `None`.
    pub fn from_nonzero(v: u32) -> (r: Option<Self>)
        ensures
            r is Some <==> v != 0,
            r matches Some(p) ==> p.value() == v,
    {
        if v > 0 {
            Some(Positive { value: v })
        } else {
            None
        }
    }
}

impl Positivity for u64 {
    open spec fn positive(&self) -> bool {
        *self > 0
    }
}

impl Positive<u64> {
    /// `v` as a positive number, or `None` when it is not greater than zero.
    pub fn try_new(v: u64) -> (r: Option<Self>)
        ensures
            r is Some <==> v > 0,
            r matches Some(p) ==> p.value() == v,
    {
        if v > 0 {
            Some(Positive { value: v })
        } else {
            None
        }
    }

    /// The number, greater than zero.
    pub fn get(self) -> (r: u64)
        ensures
            r == self.value(),
            r > 0,
    {
        proof {
            use_type_invariant(&self);
        }
        self.value
    }

    /// `v` as a positive number when it is nonzero, else `None`.
    pub fn from_nonzero(v: u64) -> (r: Option<Self>)
        ensures
            r is Some <==> v != 0,
            r matches Some(p) ==> p.value() == v,
    {
        if v > 0 {
            Some(Positive { value: v })
        } else {
            None
        }
    }
}

impl Positivity for u128 {
    open spec fn positive(&self) -> bool {
        *self > 0
    }
}

impl Positive<u128> {
    /// `v` as a positive number, or `None` when it is not greater than zero.
    pub fn try_new(v: u128) -> (r: Option<Self>)
        ensures
            r is Some <==> v > 0,
            r matches Some(p) ==> p.value() == v,
    {
        if v > 0 {
            Some(Positive { value: v })
        } else {
            None
        }
    }

    /// The number, greater than zero.
    pub fn get(self) -> (r: u128)
        ensures
            r == self.value(),
            r > 0,
    {
        proof {
            use_type_invariant(&self);
        }
        self.value
    }

    /// `v` as a positive number when it is nonzero, else `None`.
    pub fn from_nonzero(v: u128) -> (r: Option<Self>)
        ensures
            r is Some <==> v != 0,
            r matches Some(p) ==> p.value() == v,
    {
        if v > 0 {
            Some(Positive { value: v })
        } else {
            None
        }
    }
}

} // verus!
