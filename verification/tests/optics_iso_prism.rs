use karpal::optics::iso::{Iso, SimpleIso};
use karpal::optics::prism::{Prism, SimplePrism};

fn celsius_fahrenheit_iso() -> SimpleIso<f64, f64, impl Fn(&f64) -> f64 + Copy, impl Fn(f64) -> f64 + Copy> {
    Iso::new(|c: &f64| c * 9.0 / 5.0 + 32.0, |f: f64| (f - 32.0) * 5.0 / 9.0)
}

fn string_bytes_iso() -> SimpleIso<
    String,
    Vec<u8>,
    impl Fn(&String) -> Vec<u8> + Copy,
    impl Fn(Vec<u8>) -> String + Copy,
> {
    Iso::new(|s: &String| s.clone().into_bytes(), |b: Vec<u8>| String::from_utf8(b).unwrap())
}

#[test]
fn iso_get() {
    let iso = celsius_fahrenheit_iso();
    let result = iso.get(&100.0);
    assert!((result - 212.0).abs() < 1e-10);
}

#[test]
fn iso_review() {
    let iso = celsius_fahrenheit_iso();
    let result = iso.review(212.0);
    assert!((result - 100.0).abs() < 1e-10);
}

#[test]
fn iso_over() {
    let iso = celsius_fahrenheit_iso();
    // Convert 0°C to F, add 18 to F, convert back
    let result = iso.over(0.0, |f| f + 18.0);
    assert!((result - 10.0).abs() < 1e-10);
}

#[test]
fn iso_set() {
    let iso = celsius_fahrenheit_iso();
    let result = iso.set(999.0, 32.0); // set F to 32 → 0°C
    assert!((result - 0.0).abs() < 1e-10);
}

#[test]
fn iso_transform_fnp() {
    let iso = string_bytes_iso();
    let f = iso.transform(|bytes: Vec<u8>| bytes.into_iter().map(|b| b.to_ascii_uppercase()).collect::<Vec<u8>>());
    assert_eq!(f("hello".to_string()), "HELLO");
}

#[test]
fn iso_to_lens() {
    let iso = string_bytes_iso();
    let lens = iso.to_lens();
    assert_eq!(lens.get(&"hi".to_string()), vec![b'h', b'i']);
    assert_eq!(lens.set("x".to_string(), vec![b'a', b'b']), "ab");
}

#[test]
fn iso_to_getter() {
    let iso = string_bytes_iso();
    let getter = iso.to_getter();
    assert_eq!(getter.get(&"hi".to_string()), vec![b'h', b'i']);
}

#[test]
fn iso_to_review() {
    let iso = string_bytes_iso();
    let review = iso.to_review();
    assert_eq!(review.review(vec![b'a', b'b']), "ab");
}

#[derive(Debug, Clone, PartialEq)]
enum Shape {
    Circle(f64),
    Rectangle(f64, f64),
}

fn circle_prism() -> SimplePrism<
    Shape,
    f64,
    impl Fn(Shape) -> Result<f64, Shape> + Copy,
    impl Fn(f64) -> Shape + Copy,
> {
    Prism::new(
        |s: Shape| match s {
            Shape::Circle(r) => Ok(r),
            Shape::Rectangle(w, h) => Err(Shape::Rectangle(w, h)),
        },
        Shape::Circle,
    )
}

fn sample_circle() -> Shape {
    Shape::Circle(5.0)
}

fn sample_rect() -> Shape {
    Shape::Rectangle(3.0, 4.0)
}

#[test]
fn preview_match() {
    let prism = circle_prism();
    assert_eq!(prism.preview(&sample_circle()), Some(5.0));
}

#[test]
fn preview_no_match() {
    let prism = circle_prism();
    assert_eq!(prism.preview(&sample_rect()), None);
}

#[test]
fn review() {
    let prism = circle_prism();
    assert_eq!(prism.review(10.0), Shape::Circle(10.0));
}

#[test]
fn set_match() {
    let prism = circle_prism();
    assert_eq!(prism.set(sample_circle(), 10.0), Shape::Circle(10.0));
}

#[test]
fn set_no_match() {
    let prism = circle_prism();
    assert_eq!(prism.set(sample_rect(), 10.0), sample_rect());
}

#[test]
fn over_match() {
    let prism = circle_prism();
    assert_eq!(prism.over(sample_circle(), |r| r * 2.0), Shape::Circle(10.0));
}

#[test]
fn over_no_match() {
    let prism = circle_prism();
    assert_eq!(prism.over(sample_rect(), |r| r * 2.0), sample_rect());
}

#[test]
fn transform_fnp_match() {
    let prism = circle_prism();
    let transform_fn = prism.transform(|r: f64| r * 2.0);
    assert_eq!(transform_fn(sample_circle()), Shape::Circle(10.0));
}

#[test]
fn transform_fnp_no_match() {
    let prism = circle_prism();
    let transform_fn = prism.transform(|r: f64| r * 2.0);
    assert_eq!(transform_fn(sample_rect()), sample_rect());
}
