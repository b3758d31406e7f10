//! Values paired with a type-level witness that a property holds of their
//! type.
use vstd::prelude::*;
use core::marker::PhantomData;
use core::cmp::Ordering;
use vstd::std_specs::cmp::{PartialEqSpec, PartialEqSpecImpl, PartialOrdSpec, PartialOrdSpecImpl};
use crate::algebra::{
    AbelianGroup, BoundedLattice, Field, Group, Lattice, Monoid, Ring, Semigroup, Semiring,
};
use super::property::{
    And, Implies, IsAbelianGroup, IsAssociative, IsBoundedLattice, IsField, IsGroup, IsLattice,
    IsMonoid, IsRing, IsSemiring,
};

verus! {

/// A value of type `T` accompanied by a compile-time witness that property
/// `P` holds for `T`.
///
/// Construction is restricted: each constructor requires the trait whose
/// laws establish the property (e.g. `from_semigroup` requires
/// `T: Semigroup`), and the trait's proof functions are the proof.
#[derive(Debug)]
#[verifier::reject_recursive_types(P)]
pub struct Proven<P, T> {
    value: T,
    property: PhantomData<P>,
}

impl<P, T> Proven<P, T> {
    /// The value held.
    pub closed spec fn content(&self) -> T {
        self.value
    }

    /// Access the inner value by reference.
    pub fn value(&self) -> (r: &T)
        ensures
            *r == self.content(),
    {
        &self.value
    }

    /// Unwrap the witness, discarding the proof.
    pub fn into_inner(self) -> (r: T)
        ensures
            r == self.content(),
    {
        self.value
    }

    /// If property `P` implies property `Q`, derive a new witness.
    pub fn derive<Q>(self) -> (r: Proven<Q, T>) where P: Implies<Q>
        ensures
            r.content() == self.content(),
    {
        Proven { value: self.value, property: PhantomData }
    }

    /// Combine two independent proofs into a conjunction.
    pub fn and<Q>(self, _other: Proven<Q, T>) -> (r: Proven<And<P, Q>, T>)
        ensures
            r.content() == self.content(),
    {
        Proven { value: self.value, property: PhantomData }
    }
}

impl<P, Q, T> Proven<And<P, Q>, T> {
    /// Extract the second component from a conjunction proof (the first is
    /// available through `derive`, since `And<P, Q>: Implies<P>`).
    pub fn derive_second(self) -> (r: Proven<Q, T>)
        ensures
            r.content() == self.content(),
    {
        Proven { value: self.value, property: PhantomData }
    }
}

impl<T: Semigroup> Proven<IsAssociative, T> {
    /// Witness associativity, from a `Semigroup` implementation.
    pub fn from_semigroup(value: T) -> (r: Self)
        ensures
            r.content() == value,
    {
        Proven { value, property: PhantomData }
    }
}

impl<T: Monoid> Proven<IsMonoid, T> {
    /// Witness the monoid laws, from a `Monoid` implementation.
    pub fn from_monoid(value: T) -> (r: Self)
        ensures
            r.content() == value,
    {
        Proven { value, property: PhantomData }
    }
}

impl<T: Group> Proven<IsGroup, T> {
    /// Witness the group laws, from a `Group` implementation.
    pub fn from_group(value: T) -> (r: Self)
        ensures
            r.content() == value,
    {
        Proven { value, property: PhantomData }
    }
}

impl<T: AbelianGroup> Proven<IsAbelianGroup, T> {
    /// Witness an abelian group, from an `AbelianGroup` implementation.
    pub fn from_abelian(value: T) -> (r: Self)
        ensures
            r.content() == value,
    {
        Proven { value, property: PhantomData }
    }
}

impl<T: Semiring> Proven<IsSemiring, T> {
    /// Witness the semiring laws, from a `Semiring` implementation.
    pub fn from_semiring(value: T) -> (r: Self)
        ensures
            r.content() == value,
    {
        Proven { value, property: PhantomData }
    }
}

impl<T: Ring> Proven<IsRing, T> {
    /// Witness the ring laws, from a `Ring` implementation.
    pub fn from_ring(value: T) -> (r: Self)
        ensures
            r.content() == value,
    {
        Proven { value, property: PhantomData }
    }
}

impl<T: Field> Proven<IsField, T> {
    /// Witness the field laws, from a `Field` implementation.
    pub fn from_field(value: T) -> (r: Self)
        ensures
            r.content() == value,
    {
        Proven { value, property: PhantomData }
    }
}

impl<T: Lattice> Proven<IsLattice, T> {
    /// Witness the lattice laws, from a `Lattice` implementation.
    pub fn from_lattice(value: T) -> (r: Self)
        ensures
            r.content() == value,
    {
        Proven { value, property: PhantomData }
    }
}

impl<T: BoundedLattice> Proven<IsBoundedLattice, T> {
    /// Witness a bounded lattice, from a `BoundedLattice` implementation.
    pub fn from_bounded_lattice(value: T) -> (r: Self)
        ensures
            r.content() == value,
    {
        Proven { value, property: PhantomData }
    }
}

impl<P, T: View> View for Proven<P, T> {
    type V = T::V;

    closed spec fn view(&self) -> T::V {
        self.value@
    }
}

/// A witness combines as its value does.
impl<P, T: Semigroup> Semigroup for Proven<P, T> {
    open spec fn combine_spec(a: T::V, b: T::V) -> T::V {
        T::combine_spec(a, b)
    }

    proof fn lemma_associative(a: T::V, b: T::V, c: T::V) {
        T::lemma_associative(a, b, c);
    }

    fn combine(self, other: Self) -> (r: Self) {
        Proven { value: self.value.combine(other.value), property: PhantomData }
    }
}

impl<P, T: Monoid> Monoid for Proven<P, T> {
    open spec fn empty_spec() -> T::V {
        T::empty_spec()
    }

    proof fn lemma_identity(a: T::V) {
        T::lemma_identity(a);
    }

    fn empty() -> (r: Self) {
        Proven { value: T::empty(), property: PhantomData }
    }
}

impl<P, T: Group> Group for Proven<P, T> {
    open spec fn invert_spec(a: T::V) -> T::V {
        T::invert_spec(a)
    }

    proof fn lemma_inverse(a: T::V) {
        T::lemma_inverse(a);
    }

    fn invert(self) -> (r: Self) {
        Proven { value: self.value.invert(), property: PhantomData }
    }
}

impl<P, T: AbelianGroup> AbelianGroup for Proven<P, T> {
    proof fn lemma_commutative(a: T::V, b: T::V) {
        T::lemma_commutative(a, b);
    }
}

/// A witness adds and multiplies as its value does.
impl<P, T: Semiring> Semiring for Proven<P, T> {
    open spec fn add_spec(a: T::V, b: T::V) -> T::V {
        T::add_spec(a, b)
    }

    open spec fn mul_spec(a: T::V, b: T::V) -> T::V {
        T::mul_spec(a, b)
    }

    open spec fn zero_spec() -> T::V {
        T::zero_spec()
    }

    open spec fn one_spec() -> T::V {
        T::one_spec()
    }

    proof fn lemma_semiring(a: T::V, b: T::V, c: T::V) {
        T::lemma_semiring(a, b, c);
    }

    fn add(self, other: Self) -> (r: Self) {
        Proven { value: self.value.add(other.value), property: PhantomData }
    }

    fn mul(self, other: Self) -> (r: Self) {
        Proven { value: self.value.mul(other.value), property: PhantomData }
    }

    fn zero() -> (r: Self) {
        Proven { value: T::zero(), property: PhantomData }
    }

    fn one() -> (r: Self) {
        Proven { value: T::one(), property: PhantomData }
    }
}

impl<P, T: Ring> Ring for Proven<P, T> {
    open spec fn negate_spec(a: T::V) -> T::V {
        T::negate_spec(a)
    }

    proof fn lemma_negate(a: T::V) {
        T::lemma_negate(a);
    }

    fn negate(self) -> (r: Self) {
        Proven { value: self.value.negate(), property: PhantomData }
    }
}

impl<P, T: Field> Field for Proven<P, T> {
    open spec fn reciprocal_spec(a: T::V) -> T::V {
        T::reciprocal_spec(a)
    }

    proof fn lemma_field(a: T::V, b: T::V) {
        T::lemma_field(a, b);
    }

    fn reciprocal(self) -> (r: Self) {
        Proven { value: self.value.reciprocal(), property: PhantomData }
    }
}

/// A witness meets and joins as its value does.
impl<P, T: Lattice> Lattice for Proven<P, T> {
    open spec fn meet_spec(a: T::V, b: T::V) -> T::V {
        T::meet_spec(a, b)
    }

    open spec fn join_spec(a: T::V, b: T::V) -> T::V {
        T::join_spec(a, b)
    }

    proof fn lemma_lattice(a: T::V, b: T::V, c: T::V) {
        T::lemma_lattice(a, b, c);
    }

    fn meet(self, other: Self) -> (r: Self) {
        Proven { value: self.value.meet(other.value), property: PhantomData }
    }

    fn join(self, other: Self) -> (r: Self) {
        Proven { value: self.value.join(other.value), property: PhantomData }
    }
}

impl<P, T: BoundedLattice> BoundedLattice for Proven<P, T> {
    open spec fn top_spec() -> T::V {
        T::top_spec()
    }

    open spec fn bottom_spec() -> T::V {
        T::bottom_spec()
    }

    proof fn lemma_bounds(a: T::V) {
        T::lemma_bounds(a);
    }

    fn top() -> (r: Self) {
        Proven { value: T::top(), property: PhantomData }
    }

    fn bottom() -> (r: Self) {
        Proven { value: T::bottom(), property: PhantomData }
    }
}

/// Witnesses compare as their values do.
impl<P, T: PartialEq> PartialEq for Proven<P, T> {
    fn eq(&self, other: &Self) -> (r: bool) {
        self.value == other.value
    }
}

impl<P, T: PartialEq> PartialEqSpecImpl for Proven<P, T> {
    open spec fn obeys_eq_spec() -> bool {
        T::obeys_eq_spec()
    }

    open spec fn eq_spec(&self, other: &Self) -> bool {
        self.content().eq_spec(&other.content())
    }
}

/// Witnesses are ordered as their values are.
impl<P, T: PartialOrd> PartialOrd for Proven<P, T> {
    fn partial_cmp(&self, other: &Self) -> (r: Option<Ordering>) {
        self.value.partial_cmp(&other.value)
    }
}

impl<P, T: PartialOrd> PartialOrdSpecImpl for Proven<P, T> {
    open spec fn obeys_partial_cmp_spec() -> bool {
        T::obeys_partial_cmp_spec()
    }

    open spec fn partial_cmp_spec(&self, other: &Self) -> Option<Ordering> {
        self.content().partial_cmp_spec(&other.content())
    }
}

} // verus!
