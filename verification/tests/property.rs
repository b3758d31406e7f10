use karpal::witness::property::{
    And, HasLeftIdentity, Implies, IsAbelianGroup, IsAssociative, IsBoundedLattice,
    IsCommutative, IsField, IsGroup, IsLattice, IsLawfulFunctor, IsLawfulMonad, IsMonoid, IsRing,
    IsSemiring, Property,
};

#[test]
fn property_names() {
    assert_eq!(IsAssociative::NAME, "associativity");
    assert_eq!(IsMonoid::NAME, "monoid");
    assert_eq!(IsGroup::NAME, "group");
    assert_eq!(IsAbelianGroup::NAME, "abelian group");
    assert_eq!(IsSemiring::NAME, "semiring");
    assert_eq!(IsRing::NAME, "ring");
    assert_eq!(IsField::NAME, "field");
    assert_eq!(IsLattice::NAME, "lattice");
    assert_eq!(IsBoundedLattice::NAME, "bounded lattice");
    assert_eq!(IsLawfulFunctor::NAME, "lawful functor");
    assert_eq!(IsLawfulMonad::NAME, "lawful monad");
}

fn assert_implies<P: Implies<Q>, Q>() {}

#[test]
fn implication_lattice_compiles() {
    assert_implies::<IsMonoid, IsAssociative>();
    assert_implies::<IsMonoid, HasLeftIdentity>();
    assert_implies::<IsGroup, IsMonoid>();
    assert_implies::<IsGroup, IsAssociative>();
    assert_implies::<IsAbelianGroup, IsGroup>();
    assert_implies::<IsAbelianGroup, IsCommutative>();
    assert_implies::<IsField, IsRing>();
    assert_implies::<IsRing, IsSemiring>();
    assert_implies::<IsBoundedLattice, IsLattice>();
    assert_implies::<IsLawfulMonad, IsLawfulFunctor>();
    assert_implies::<And<IsAssociative, IsCommutative>, IsAssociative>();
}
