use karpal::optics::fold::Fold;
use karpal::optics::getter::Getter;
use karpal::optics::iso::Iso;
use karpal::optics::lens::Lens;
use karpal::optics::modify::Modify;
use karpal::optics::prism::Prism;
use karpal::optics::review::Review;
use karpal::optics::setter::Setter;
use karpal::optics::traversal::Traversal;

/// Modifies every element of a vector.
#[derive(Clone, Copy)]
struct Each;

impl<T> Modify<Vec<T>, Vec<T>, T, T> for Each {
    fn modify_with<F: Fn(T) -> T>(&self, s: Vec<T>, f: &F) -> Vec<T> {
        s.into_iter().map(f).collect()
    }
}

fn vec_fold() -> Fold<Vec<i32>, i32, impl Fn(&Vec<i32>) -> Vec<i32>> {
    Fold::new(|v: &Vec<i32>| v.clone())
}

#[test]
fn fold_get_all() {
    let fold = vec_fold();
    assert_eq!(fold.get_all(&vec![1, 2, 3]), vec![1, 2, 3]);
}

#[test]
fn fold_map_sum() {
    let fold = vec_fold();
    let sum: i32 = fold.fold_map(&vec![1, 2, 3], |x: i32| x);
    assert_eq!(sum, 6);
}

#[test]
fn fold_map_string() {
    let fold = vec_fold();
    let result: String = fold.fold_map(&vec![1, 2, 3], |x: i32| x.to_string());
    assert_eq!(result, "123");
}

#[test]
fn fold_any() {
    let fold = vec_fold();
    assert!(fold.any(&vec![1, 2, 3], |x: &i32| *x > 2));
    assert!(!fold.any(&vec![1, 2, 3], |x: &i32| *x > 5));
}

#[test]
fn fold_all() {
    let fold = vec_fold();
    assert!(fold.all(&vec![1, 2, 3], |x: &i32| *x > 0));
    assert!(!fold.all(&vec![1, 2, 3], |x: &i32| *x > 1));
}

#[test]
fn fold_find() {
    let fold = vec_fold();
    assert_eq!(fold.find(&vec![1, 2, 3], |x: &i32| *x > 1), Some(2));
    assert_eq!(fold.find(&vec![1, 2, 3], |x: &i32| *x > 5), None);
}

#[test]
fn fold_length() {
    let fold = vec_fold();
    assert_eq!(fold.length(&vec![1, 2, 3]), 3);
    assert_eq!(fold.length(&Vec::<i32>::new()), 0);
}

#[test]
fn fold_from_traversal() {
    let trav = Traversal::new(|v: &Vec<i32>| v.clone(), Each);
    let fold = trav.to_fold();
    assert_eq!(fold.get_all(&vec![1, 2, 3]), vec![1, 2, 3]);
}

#[test]
fn fold_from_lens() {
    #[derive(Clone)]
    struct Point {
        x: i32,
    }
    let lens = Lens::new(|p: &Point| p.x, |_p: Point, x: i32| Point { x });
    let fold = lens.to_fold();
    assert_eq!(fold.get_all(&Point { x: 42 }), vec![42]);
}

#[test]
fn fold_composition_flattens_in_order() {
    let outer = Fold::new(|v: &Vec<Vec<i32>>| v.clone());
    let inner = Fold::new(|v: &Vec<i32>| v.clone());
    let composed = outer.and_then(inner);
    assert_eq!(composed.get_all(&vec![vec![1, 2], vec![], vec![3]]), vec![1, 2, 3]);
    assert_eq!(composed.length(&vec![vec![4], vec![5, 6]]), 3);
}

#[derive(Clone)]
struct Point {
    x: f64,
    y: f64,
}

#[test]
fn getter_get() {
    let getter = Getter::new(|p: &Point| p.x);
    let p = Point { x: 1.0, y: 2.0 };
    assert!((getter.get(&p) - 1.0).abs() < f64::EPSILON);
    assert!((p.y - 2.0).abs() < f64::EPSILON);
}

#[test]
fn getter_composition() {
    #[derive(Clone)]
    struct Line {
        start: Point,
    }
    let line_start = Getter::new(|l: &Line| l.start.clone());
    let point_x = Getter::new(|p: &Point| p.x);
    let composed = line_start.and_then(point_x);
    let line = Line { start: Point { x: 3.0, y: 4.0 } };
    assert!((composed.get(&line) - 3.0).abs() < f64::EPSILON);
}

#[test]
fn getter_from_lens() {
    let lens = Lens::new(|p: &Point| p.x, |p: Point, x: f64| Point { x, ..p });
    let getter = lens.to_getter();
    let p = Point { x: 5.0, y: 6.0 };
    assert!((getter.get(&p) - 5.0).abs() < f64::EPSILON);
}

#[test]
fn getter_from_iso() {
    let iso = Iso::new(|n: &i32| *n as f64, |f: f64| f as i32);
    let getter = iso.to_getter();
    assert!((getter.get(&42) - 42.0).abs() < f64::EPSILON);
}

#[derive(Debug, PartialEq)]
enum Shape {
    Circle(f64),
}

#[test]
fn review_build() {
    let review = Review::new(Shape::Circle);
    assert_eq!(review.review(5.0), Shape::Circle(5.0));
}

#[test]
fn review_from_prism() {
    let prism = Prism::new(
        |s: Shape| match s {
            Shape::Circle(r) => Ok(r),
        },
        Shape::Circle,
    );
    let review = prism.to_review();
    assert_eq!(review.review(10.0), Shape::Circle(10.0));
}

#[test]
fn review_from_iso() {
    let iso = Iso::new(|n: &i32| *n as f64, |f: f64| f as i32);
    let review = iso.to_review();
    assert_eq!(review.review(3.14), 3);
}

#[derive(Debug, Clone, PartialEq)]
struct IntPoint {
    x: i32,
    y: i32,
}

/// Modifies the `x` coordinate of a point.
#[derive(Clone, Copy)]
struct PointX;

impl Modify<IntPoint, IntPoint, i32, i32> for PointX {
    fn modify_with<F: Fn(i32) -> i32>(&self, p: IntPoint, f: &F) -> IntPoint {
        IntPoint { x: f(p.x), ..p }
    }
}

fn point_x_setter() -> Setter<IntPoint, IntPoint, i32, i32, PointX> {
    Setter::new(PointX)
}

#[test]
fn setter_over() {
    let setter = point_x_setter();
    let p = IntPoint { x: 1, y: 2 };
    let result = setter.over(p, |x| x + 10);
    assert_eq!(result, IntPoint { x: 11, y: 2 });
}

#[test]
fn setter_set() {
    let setter = point_x_setter();
    let p = IntPoint { x: 1, y: 2 };
    let result = setter.set(p, 99);
    assert_eq!(result, IntPoint { x: 99, y: 2 });
}

#[test]
fn setter_identity_law() {
    // over(s, id) == s
    let setter = point_x_setter();
    let p = IntPoint { x: 5, y: 10 };
    let result = setter.over(p.clone(), |x| x);
    assert_eq!(result, p);
}

#[test]
fn setter_from_lens() {
    let lens = Lens::new(|p: &IntPoint| p.x, |p: IntPoint, x: i32| IntPoint { x, ..p });
    let setter = lens.to_setter();
    let p = IntPoint { x: 1, y: 2 };
    let result = setter.over(p, |x| x + 10);
    assert_eq!(result, IntPoint { x: 11, y: 2 });
}

#[derive(Debug, Clone, PartialEq)]
enum Val {
    Int(i32),
    Str(String),
}

fn val_match(v: Val) -> Result<i32, Val> {
    match v {
        Val::Int(n) => Ok(n),
        Val::Str(s) => Err(Val::Str(s)),
    }
}

#[test]
fn setter_from_prism() {
    let prism = Prism::new(val_match, Val::Int);
    let setter = prism.to_setter();
    assert_eq!(setter.over(Val::Int(5), |x| x * 2), Val::Int(10));
    assert_eq!(setter.over(Val::Str("hi".into()), |x| x * 2), Val::Str("hi".into()));
}

fn vec_each_traversal() -> Traversal<Vec<i32>, Vec<i32>, i32, i32, impl Fn(&Vec<i32>) -> Vec<i32> + Copy, Each> {
    Traversal::new(|v: &Vec<i32>| v.clone(), Each)
}

#[test]
fn traversal_get_all() {
    let trav = vec_each_traversal();
    assert_eq!(trav.get_all(&vec![1, 2, 3]), vec![1, 2, 3]);
}

#[test]
fn traversal_over() {
    let trav = vec_each_traversal();
    assert_eq!(trav.over(vec![1, 2, 3], |x| x * 10), vec![10, 20, 30]);
}

#[test]
fn traversal_set() {
    let trav = vec_each_traversal();
    assert_eq!(trav.set(vec![1, 2, 3], 0), vec![0, 0, 0]);
}

#[test]
fn traversal_transform_fnp() {
    let trav = vec_each_traversal();
    let f = trav.transform(|x: i32| x * 2);
    assert_eq!(f(vec![1, 2, 3]), vec![2, 4, 6]);
}

#[test]
fn traversal_transform_forget() {
    let trav = vec_each_traversal();
    let f = trav.transform_forget(|x: i32| x.to_string());
    // The String monoid concatenates.
    assert_eq!(f(vec![1, 2, 3]), "123");
}

#[test]
fn traversal_identity_law() {
    let trav = vec_each_traversal();
    let v = vec![1, 2, 3];
    assert_eq!(trav.over(v.clone(), |x| x), v);
}

#[test]
fn traversal_composition() {
    let outer = Traversal::new(|v: &Vec<Vec<i32>>| v.clone(), Each);
    let inner = vec_each_traversal();
    let composed = outer.and_then(inner);
    assert_eq!(composed.get_all(&vec![vec![1, 2], vec![3]]), vec![1, 2, 3]);
    assert_eq!(composed.over(vec![vec![1, 2], vec![3]], |x| x * 10), vec![vec![10, 20], vec![30]]);
}

#[test]
fn traversal_from_lens() {
    let lens = Lens::new(|p: &IntPoint| p.x, |p: IntPoint, x: i32| IntPoint { x, ..p });
    let trav = lens.to_traversal();
    let p = IntPoint { x: 1, y: 2 };
    assert_eq!(trav.get_all(&p), vec![1]);
    assert_eq!(trav.over(p, |x| x + 10), IntPoint { x: 11, y: 2 });
}

#[test]
fn traversal_from_prism() {
    let prism = Prism::new(val_match, Val::Int);
    let trav = prism.to_traversal();
    assert_eq!(trav.get_all(&Val::Int(5)), vec![5]);
    assert_eq!(trav.get_all(&Val::Str("hi".into())), Vec::<i32>::new());
    assert_eq!(trav.over(Val::Int(5), |x| x * 2), Val::Int(10));
    assert_eq!(trav.over(Val::Str("hi".into()), |x| x * 2), Val::Str("hi".into()));
}

#[test]
fn traversal_composition_law() {
    // over(over(s, f), g) == over(s, g . f)
    let trav = vec_each_traversal();
    let v = vec![1, 2, 3];
    let left = trav.over(trav.over(v.clone(), |x| x + 1), |x| x * 2);
    let right = trav.over(v, |x| (x + 1) * 2);
    assert_eq!(left, right);
}

#[test]
fn prism_preview_set_and_over() {
    let prism = Prism::new(val_match, Val::Int);
    assert_eq!(prism.preview(&Val::Int(4)), Some(4));
    assert_eq!(prism.preview(&Val::Str("a".into())), None);
    assert_eq!(prism.set(Val::Int(4), 9), Val::Int(9));
    assert_eq!(prism.set(Val::Str("a".into()), 9), Val::Str("a".into()));
    assert_eq!(prism.over(Val::Int(4), |x| x + 1), Val::Int(5));
    assert_eq!(prism.review(3), Val::Int(3));
    let t = prism.transform(|x: i32| x - 1);
    assert_eq!(t(Val::Int(4)), Val::Int(3));
    assert_eq!(t(Val::Str("b".into())), Val::Str("b".into()));
    assert_eq!(prism.to_fold().get_all(&Val::Int(8)), vec![8]);
}

#[test]
fn iso_round_trip_operations() {
    let iso = Iso::new(|n: &i32| i64::from(*n) * 2, |m: i64| (m / 2) as i32);
    assert_eq!(iso.get(&21), 42);
    assert_eq!(iso.review(10), 5);
    assert_eq!(iso.set(100, 8), 4);
    assert_eq!(iso.over(3, |m| m + 2), 4);
    let t = iso.transform(|m: i64| m * 10);
    assert_eq!(t(1), 10);
    assert_eq!(iso.to_fold().get_all(&7), vec![14]);
    let trav = iso.to_traversal();
    assert_eq!(trav.over(5, |m| m + 4), 7);
    assert_eq!(iso.to_setter().over(6, |m| m - 2), 5);
}

#[test]
fn prism_laws_on_values() {
    let prism = Prism::new(val_match, Val::Int);
    // ReviewPreview
    assert_eq!(prism.preview(&prism.review(12)), Some(12));
    // PreviewReview
    let s = Val::Int(3);
    let a = prism.preview(&s).unwrap();
    assert_eq!(prism.review(a), s);
    // OverIdentity, on both variants
    assert_eq!(prism.over(Val::Int(6), |x| x), Val::Int(6));
    assert_eq!(prism.over(Val::Str("z".into()), |x| x), Val::Str("z".into()));
    assert_eq!(prism.to_setter().over(Val::Int(6), |x| x), Val::Int(6));
}

#[test]
fn iso_lens_laws_on_values() {
    let iso = Iso::new(|n: &i32| i64::from(*n), |m: i64| m as i32);
    let lens = iso.to_lens();
    // GetPut, PutGet, PutPut
    assert_eq!(lens.set(5, lens.get(&5)), 5);
    assert_eq!(lens.get(&lens.set(5, 9)), 9);
    assert_eq!(lens.set(lens.set(5, 1), 2), lens.set(5, 2));
    assert_eq!(iso.over(8, |m| m), 8);
}

#[test]
fn nested_traversal_keeps_identity_and_fuses() {
    let outer = Traversal::new(|v: &Vec<Vec<i32>>| v.clone(), Each);
    let composed = outer.and_then(vec_each_traversal());
    let v = vec![vec![1, 2], vec![], vec![3]];
    assert_eq!(composed.over(v.clone(), |x| x), v);
    let twice = composed.over(composed.over(v.clone(), |x| x + 1), |x| x * 3);
    let once = composed.over(v, |x| (x + 1) * 3);
    assert_eq!(twice, once);
}

#[test]
fn lens_setter_fuses_modifications() {
    let lens = Lens::new(|p: &IntPoint| p.x, |p: IntPoint, x: i32| IntPoint { x, ..p });
    let setter = lens.to_setter();
    let p = IntPoint { x: 2, y: 7 };
    let twice = setter.over(setter.over(p.clone(), |x| x - 1), |x| x * 5);
    assert_eq!(twice, setter.over(p, |x| (x - 1) * 5));
    assert_eq!(twice, IntPoint { x: 5, y: 7 });
}

#[test]
fn forgetful_and_tagged_encodings() {
    let lens = Lens::new(|p: &IntPoint| p.x, |p: IntPoint, x: i32| IntPoint { x, ..p });
    let read = lens.transform_forget(|x: i32| x.to_string());
    assert_eq!(read(IntPoint { x: 4, y: 0 }), "4");
    let prism = Prism::new(val_match, Val::Int);
    let read = prism.transform_forget(|x: i32| x.to_string());
    assert_eq!(read(Val::Int(3)), "3");
    assert_eq!(read(Val::Str("q".into())), "");
    assert_eq!(prism.transform_tagged(5), Val::Int(5));
    let iso = Iso::new(|n: &i32| i64::from(*n) + 1, |m: i64| (m - 1) as i32);
    let read = iso.transform_forget(|m: i64| m * 2);
    assert_eq!(read(4), 10);
    assert_eq!(iso.transform_tagged(11), 10);
}
