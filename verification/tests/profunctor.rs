use karpal::profunctor::fn_p::FnP;
use karpal::profunctor::forget::ForgetF;
use karpal::profunctor::tagged::TaggedF;

#[test]
fn fnp_dimap_composes_around() {
    let h = FnP::dimap(|s: &str| s.len(), |n: usize| n * 10, |n: usize| n + 1);
    assert_eq!(h("abc"), 40);
}

#[test]
fn fnp_strong_and_choice() {
    let first = FnP::first::<i32, i32, &str, _>(|x: i32| x * 2);
    assert_eq!(first((3, "keep")), (6, "keep"));
    let second = FnP::second::<i32, i32, char, _>(|x: i32| x - 1);
    assert_eq!(second(('c', 10)), ('c', 9));
    let left = FnP::left::<i32, i32, String, _>(|x: i32| x + 1);
    assert_eq!(left(Ok(1)), Ok(2));
    assert_eq!(left(Err("no".to_string())), Err("no".to_string()));
    let right = FnP::right::<i32, i32, bool, _>(|x: i32| x + 1);
    assert_eq!(right(Ok(true)), Ok(true));
    assert_eq!(right(Err(4)), Err(5));
}

#[test]
fn forget_reads_and_ignores() {
    let d = ForgetF::<String>::dimap(|n: i32| n * 2, |b: bool| !b, |n: i32| n.to_string());
    assert_eq!(d(21), "42");
    let f = ForgetF::<String>::first::<i32, u8, _>(|n: i32| n.to_string());
    assert_eq!(f((7, 1)), "7");
    let s = ForgetF::<String>::second::<i32, u8, _>(|n: i32| n.to_string());
    assert_eq!(s((1, 8)), "8");
    let l = ForgetF::<String>::left::<i32, bool, _>(|n: i32| n.to_string());
    assert_eq!(l(Ok(3)), "3");
    assert_eq!(l(Err(true)), "");
    let r = ForgetF::<String>::right::<i32, bool, _>(|n: i32| n.to_string());
    assert_eq!(r(Ok(false)), "");
    assert_eq!(r(Err(9)), "9");
    let w = ForgetF::<String>::wander(|v: &Vec<i32>| v.clone(), |n: i32| n.to_string());
    assert_eq!(w(vec![1, 2, 3]), "123");
}

#[test]
fn tagged_maps_the_tag() {
    assert_eq!(TaggedF::dimap::<i32, u8, i32, u16, _, _>(|x: i32| x, |b: u8| u16::from(b) + 1, 4), 5);
    assert_eq!(TaggedF::left::<(), i32, bool>(3), Ok(3));
    assert_eq!(TaggedF::right::<(), i32, bool>(3), Err(3));
}

#[test]
fn fnp_dimap() {
    let f = FnP::dimap(|s: &str| s.len() as i32, |n: i32| n.to_string(), |x: i32| x * 2);
    assert_eq!(f("hello"), "10");
}

#[test]
fn fnp_first() {
    let f = FnP::first::<i32, i32, &str, _>(|x: i32| x * 2);
    assert_eq!(f((5, "hi")), (10, "hi"));
}

#[test]
fn fnp_second() {
    let f = FnP::second::<i32, i32, &str, _>(|x: i32| x * 2);
    assert_eq!(f(("hi", 5)), ("hi", 10));
}

#[test]
fn fnp_left() {
    let f = FnP::left::<i32, i32, &str, _>(|x: i32| x * 2);
    assert_eq!(f(Ok(5)), Ok(10));
    assert_eq!(f(Err("nope")), Err("nope"));
}

#[test]
fn fnp_right() {
    let f = FnP::right::<i32, i32, &str, _>(|x: i32| x * 2);
    assert_eq!(f(Err(5)), Err(10));
    assert_eq!(f(Ok("yep")), Ok("yep"));
}

#[test]
fn forget_dimap_ignores_g() {
    // g is never applied
    let result = ForgetF::<String>::dimap(|x: i32| x + 1, |_: String| 999i32, |x: i32| x.to_string());
    assert_eq!(result(4), "5"); // f(4) = 5, then extract(5) = "5"
}

#[test]
fn forget_strong_first() {
    let f = ForgetF::<i32>::first::<i32, &str, _>(|x: i32| x * 10);
    assert_eq!(f((3, "hi")), 30);
}

#[test]
fn forget_strong_second() {
    let f = ForgetF::<i32>::second::<i32, &str, _>(|x: i32| x * 10);
    assert_eq!(f(("hi", 3)), 30);
}

#[test]
fn forget_choice_left_match() {
    let f = ForgetF::<i32>::left::<i32, &str, _>(|x: i32| x * 10);
    assert_eq!(f(Ok(3)), 30);
}

#[test]
fn forget_choice_left_miss() {
    let f = ForgetF::<i32>::left::<i32, &str, _>(|x: i32| x * 10);
    assert_eq!(f(Err("nope")), 0); // the monoid identity of i32
}

#[test]
fn forget_choice_right_match() {
    let f = ForgetF::<i32>::right::<i32, &str, _>(|x: i32| x * 10);
    assert_eq!(f(Err(3)), 30);
}

#[test]
fn forget_phantom_b_verification() {
    // B is never used: g produces a Vec that is ignored
    let result = ForgetF::<String>::dimap(|x: i32| x, |_: String| vec![1, 2, 3], |x: i32| format!("got {x}"));
    assert_eq!(result(42), "got 42");
}

#[test]
fn tagged_dimap_ignores_f() {
    // f is never applied
    let result = TaggedF::dimap::<i32, i32, &str, i32, _, _>(|_: &str| 42i32, |b: i32| b * 2, 10i32);
    assert_eq!(result, 20);
}

#[test]
fn tagged_choice_left() {
    let result = TaggedF::left::<(), i32, &str>(42);
    assert_eq!(result, Ok(42));
}

#[test]
fn tagged_choice_right() {
    let result = TaggedF::right::<(), i32, &str>(42);
    assert_eq!(result, Err(42));
}

#[test]
fn lmap_and_rmap() {
    let l = FnP::lmap(|s: &str| s.len(), |n: usize| n * 2);
    assert_eq!(l("abcd"), 8);
    let r = FnP::rmap(|n: usize| n + 1, |s: &str| s.len());
    assert_eq!(r("ab"), 3);
    let fl = ForgetF::<String>::lmap(|n: i32| n - 1, |n: i32| n.to_string());
    assert_eq!(fl(10), "9");
    let fr = ForgetF::<String>::rmap::<i32, u8, u16, _, _>(|b: u8| u16::from(b), |n: i32| n.to_string());
    assert_eq!(fr(3), "3");
    assert_eq!(TaggedF::lmap::<i32, i32, &str, _>(|_: &str| 0, 6), 6);
    assert_eq!(TaggedF::rmap::<(), i32, i64, _>(|b: i32| i64::from(b) * 2, 6), 12);
}
