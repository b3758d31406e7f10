use karpal::higher::bicategory::Bicategory;
use karpal::higher::coherence::{
    BicategoryPentagonIdentity, BicategoryTriangleIdentity, InterchangeIdentity,
    verify_bicategory_pentagon, verify_bicategory_triangle, verify_interchange,
};
use karpal::higher::enriched::{MonoidCategory, SetCategory};
use karpal::higher::ffunctor::IdentityFFunctor;
use karpal::higher::rich_cat::{RichCat, TwoCell};
use karpal::higher::two_category::{Cat, TwoCategory};
use karpal::witness::rewrite::Rewrite;

#[test]
fn cat_associator_exists() {
    <Cat as Bicategory>::associator::<i32, &str, bool, f64>();
}

#[test]
fn cat_unit_existence() {
    <Cat as Bicategory>::left_unitor::<i32, &str>();
    <Cat as Bicategory>::right_unitor::<i32, &str>();
}

#[test]
fn interchange_witness_compiles() {
    let _: Rewrite<(), (), InterchangeIdentity> = verify_interchange();
}

#[test]
fn bicategory_pentagon_witness_compiles() {
    let _: Rewrite<(), (), BicategoryPentagonIdentity> = verify_bicategory_pentagon();
}

#[test]
fn bicategory_triangle_witness_compiles() {
    let _: Rewrite<(), (), BicategoryTriangleIdentity> = verify_bicategory_triangle();
}

#[test]
fn set_enriched_compose_chains_functions() {
    let gf = SetCategory::compose(|x: i32| x + 1, |x: i32| x * 2);
    assert_eq!(gf(5), 12); // (5+1)*2
}

#[test]
fn set_enriched_id_is_identity() {
    let id = SetCategory::id::<i32>();
    assert_eq!(id(42), 42);
}

#[test]
fn monoid_category_is_trivial() {
    MonoidCategory::compose(MonoidCategory::id(), MonoidCategory::id());
}

struct Marker;

#[test]
fn identity_ffunctor_preserves_morphism() {
    let _unit: () = IdentityFFunctor::<Marker>::map_morphism(());
}

#[test]
fn id_ffunctor_preserves_two_morphism() {
    let _unit: () = IdentityFFunctor::<Marker>::map_two_morphism(());
}

#[test]
fn rich_cat_id1_is_identity_function() {
    let id = RichCat::id1::<i32>();
    assert_eq!(id(42), 42);
}

#[test]
fn rich_cat_compose1_chains_functions() {
    let gf = RichCat::compose1(|x: i32| x + 1, |x: i32| x * 2);
    assert_eq!(gf(5), 12);
}

#[test]
fn rich_cat_id2_is_named() {
    let id = RichCat::id2();
    assert_eq!(id.label(), "id");
}

#[test]
fn rich_cat_compose2_concatenates_labels() {
    let alpha = TwoCell::new("naturality");
    let beta = TwoCell::new("associativity");
    let gamma = RichCat::compose2_vertical(alpha, beta);
    assert_eq!(gamma.label(), "naturality;associativity");
}

#[test]
fn rich_cat_associator_is_named() {
    let a = RichCat::associator::<i32, &str, bool, f64>();
    assert_eq!(a.label(), "associator");
}

#[test]
fn rich_cat_unitors_are_named() {
    let l = RichCat::left_unitor::<i32, &str>();
    let r = RichCat::right_unitor::<i32, &str>();
    assert_eq!(l.label(), "left_unitor");
    assert_eq!(r.label(), "right_unitor");
}

#[test]
fn two_cell_equality() {
    assert_eq!(TwoCell::new("foo"), TwoCell::new("foo"));
    assert_ne!(TwoCell::new("foo"), TwoCell::new("bar"));
}

#[test]
fn two_cell_clone_keeps_label() {
    let a = RichCat::compose2_vertical(TwoCell::new("x"), TwoCell::new("y"));
    let b = a.clone();
    assert_eq!(b.label(), "x;y");
    assert_eq!(a, b);
}

#[test]
fn rich_cat_vertical_composition_preserves_history() {
    let a = RichCat::id2();
    let b = TwoCell::new("naturality");
    let c = RichCat::compose2_vertical(a, b);
    assert_eq!(c.label(), "id;naturality");

    let d = RichCat::associator::<i32, i32, i32, i32>();
    let e = RichCat::compose2_vertical(c, d);
    assert_eq!(e.label(), "id;naturality;associator");
}

#[test]
fn cat_id1_is_identity_function() {
    let id = Cat::id1::<i32>();
    assert_eq!(id(42), 42);
}

#[test]
fn cat_compose1_chains_functions() {
    let gf = Cat::compose1(|x: i32| x + 1, |x: i32| x * 2);
    assert_eq!(gf(5), 12); // (5+1)*2
}

#[test]
fn cat_compose2_vertical_is_total() {
    let alpha = <Cat as TwoCategory>::id2();
    let beta = <Cat as TwoCategory>::id2();
    let _gamma = <Cat as TwoCategory>::compose2_vertical(alpha, beta);
}

#[test]
fn rich_cat_trait_view_matches_inherent() {
    let c = <RichCat as TwoCategory>::compose2_vertical(
        <RichCat as TwoCategory>::id2(),
        <RichCat as Bicategory>::left_unitor::<u8, u8>(),
    );
    assert_eq!(c.label(), "id;left_unitor");
}

#[test]
fn composition_is_associative_and_unital_on_values() {
    let left = Cat::compose1(Cat::compose1(|x: i32| x + 1, |x: i32| x * 2), |x: i32| x - 3);
    let right = Cat::compose1(|x: i32| x + 1, Cat::compose1(|x: i32| x * 2, |x: i32| x - 3));
    assert_eq!(left(4), right(4));
    let with_id = Cat::compose1(Cat::id1::<i32>(), |x: i32| x * 5);
    assert_eq!(with_id(3), 15);
    let l = RichCat::compose2_vertical(
        RichCat::compose2_vertical(TwoCell::new("a"), TwoCell::new("b")),
        TwoCell::new("c"),
    );
    let r = RichCat::compose2_vertical(
        TwoCell::new("a"),
        RichCat::compose2_vertical(TwoCell::new("b"), TwoCell::new("c")),
    );
    assert_eq!(l, r);
}
