use karpal::algebra::{BoundedLattice, Field, Group, Lattice, Monoid, Ring, Semigroup, Semiring};
use karpal::witness::property::{And, IsAssociative, IsField, IsMonoid};
use karpal::witness::proven::Proven;

#[test]
fn string_monoid_concatenates() {
    let s = String::from("ab").combine(String::from("cd"));
    assert_eq!(s, "abcd");
    assert_eq!(<String as Monoid>::empty(), "");
}

#[test]
fn bool_structures() {
    assert!(true.combine(false));
    assert!(!true.combine(true));
    assert!(true.invert());
    assert!(!<bool as Semiring>::add(true, true));
    assert!(<bool as Semiring>::mul(true, true));
    assert!(!<bool as Semiring>::zero());
    assert!(<bool as Semiring>::one());
    assert!(true.negate());
    assert!(true.reciprocal());
    assert!(!true.meet(false));
    assert!(true.join(false));
    assert!(<bool as BoundedLattice>::top());
    assert!(!<bool as BoundedLattice>::bottom());
}

#[test]
fn proven_witnesses_carry_their_value() {
    let p: Proven<IsMonoid, String> = Proven::from_monoid(String::from("x"));
    assert_eq!(p.value(), "x");
    let q: Proven<IsAssociative, String> = p.derive();
    let both: Proven<And<IsAssociative, IsMonoid>, String> =
        q.and(Proven::from_monoid(String::from("y")));
    let second: Proven<IsMonoid, String> = both.derive_second();
    assert_eq!(second.into_inner(), "x");
    let f: Proven<IsField, bool> = Proven::from_field(true);
    assert!(*f.value());
    let c = Proven::<IsMonoid, String>::from_monoid("a".to_string())
        .combine(Proven::from_monoid("b".to_string()));
    assert_eq!(c.into_inner(), "ab");
}
