use karpal::algebra::{Group, Lattice, Monoid, Ring, Semigroup, Semiring};
use karpal::witness::property::{
    IsAbelianGroup, IsAssociative, IsBoundedLattice, IsCommutative, IsGroup, IsLattice, IsMonoid,
    IsRing, IsSemiring,
};
use karpal::witness::proven::Proven;

#[test]
fn from_semigroup_and_access() {
    let p = Proven::<IsAssociative, i32>::from_semigroup(42);
    assert_eq!(*p.value(), 42);
    assert_eq!(p.into_inner(), 42);
}

#[test]
fn from_monoid() {
    let p = Proven::<IsMonoid, i32>::from_monoid(10);
    assert_eq!(*p.value(), 10);
}

#[test]
fn from_group() {
    let p = Proven::<IsGroup, i32>::from_group(-5);
    assert_eq!(*p.value(), -5);
}

#[test]
fn from_abelian() {
    let p = Proven::<IsAbelianGroup, i32>::from_abelian(7);
    assert_eq!(*p.value(), 7);
}

#[test]
fn derive_weaker_property() {
    let group_proof = Proven::<IsGroup, i32>::from_group(3);
    let monoid_proof: Proven<IsMonoid, i32> = group_proof.derive();
    assert_eq!(*monoid_proof.value(), 3);

    let assoc_proof: Proven<IsAssociative, i32> = monoid_proof.derive();
    assert_eq!(*assoc_proof.value(), 3);
}

#[test]
fn derive_abelian_chain() {
    let abelian = Proven::<IsAbelianGroup, i32>::from_abelian(5);
    let _commutative: Proven<IsCommutative, i32> = abelian.derive();
}

#[test]
fn and_conjunction() {
    let assoc = Proven::<IsAssociative, i32>::from_semigroup(1);
    // i32 addition is commutative: the abelian group witness entails it
    let comm: Proven<IsCommutative, i32> = Proven::<IsAbelianGroup, i32>::from_abelian(1).derive();
    let both = assoc.and(comm);
    let _: Proven<IsAssociative, i32> = both.derive();
}

#[test]
fn semigroup_forwarding() {
    let a = Proven::<IsAssociative, i32>::from_semigroup(3);
    let b = Proven::<IsAssociative, i32>::from_semigroup(4);
    let c = a.combine(b);
    assert_eq!(*c.value(), 7);
}

#[test]
fn monoid_forwarding() {
    let e = Proven::<IsMonoid, i32>::empty();
    assert_eq!(*e.value(), 0);
}

#[test]
fn group_forwarding() {
    let p = Proven::<IsGroup, i32>::from_group(5);
    let inv = p.invert();
    assert_eq!(*inv.value(), -5);
}

#[test]
fn lattice_forwarding() {
    let a = Proven::<IsLattice, bool>::from_lattice(true);
    let b = Proven::<IsLattice, bool>::from_lattice(false);
    assert_eq!(*a.meet(b).value(), false);
}

#[test]
fn semiring_forwarding() {
    let a = Proven::<IsSemiring, i32>::from_semiring(3);
    let b = Proven::<IsSemiring, i32>::from_semiring(4);
    assert_eq!(*a.add(b).value(), 7);
}

#[test]
fn ring_forwarding() {
    let a = Proven::<IsRing, i32>::from_ring(5);
    assert_eq!(*a.negate().value(), -5);
}

#[test]
fn from_semiring() {
    let p = Proven::<IsSemiring, i32>::from_semiring(10);
    assert_eq!(*p.value(), 10);
}

#[test]
fn from_ring() {
    let p = Proven::<IsRing, i32>::from_ring(10);
    assert_eq!(*p.value(), 10);
}

#[test]
fn from_lattice() {
    let p = Proven::<IsLattice, bool>::from_lattice(true);
    assert_eq!(*p.value(), true);
}

#[test]
fn from_bounded_lattice() {
    let p = Proven::<IsBoundedLattice, bool>::from_bounded_lattice(false);
    assert_eq!(*p.value(), false);
}

#[test]
fn derive_second_from_and() {
    let assoc = Proven::<IsAssociative, i32>::from_semigroup(10);
    let comm: Proven<IsCommutative, i32> = Proven::<IsAbelianGroup, i32>::from_abelian(10).derive();
    let both = assoc.and(comm);
    let extracted: Proven<IsCommutative, i32> = both.derive_second();
    assert_eq!(*extracted.value(), 10);
}

#[test]
fn proven_preserves_equality() {
    let a = Proven::<IsMonoid, i32>::from_monoid(5);
    let b = Proven::<IsMonoid, i32>::from_monoid(5);
    let c = Proven::<IsMonoid, i32>::from_monoid(6);
    assert_eq!(a, b);
    assert_ne!(a, c);
}

#[test]
fn proven_preserves_ordering() {
    let a = Proven::<IsMonoid, i32>::from_monoid(3);
    let b = Proven::<IsMonoid, i32>::from_monoid(5);
    assert!(a < b);
}

#[test]
fn wrapping_integer_structures() {
    assert_eq!(i32::MAX.combine(1), i32::MIN);
    assert_eq!(<i32 as Semiring>::mul(65536, 65536), 0);
    assert_eq!(i32::MIN.invert(), i32::MIN);
    assert_eq!(<i32 as Monoid>::empty(), 0);
    assert_eq!(<i32 as Semiring>::one(), 1);
    assert_eq!(7i32.negate(), -7);
}
