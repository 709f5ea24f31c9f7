use rancher_cli::numbers::{largest, plus_one};
use rancher_cli::point::Point;
use rancher_cli::user::build_user;

#[test]
fn plus_one_adds_one() {
    assert_eq!(plus_one(5), 6);
    assert_eq!(plus_one(-1), 0);
    assert_eq!(plus_one(i32::MIN), i32::MIN + 1);
    assert_eq!(plus_one(i32::MAX - 1), i32::MAX);
}

#[test]
fn largest_of_numbers() {
    assert_eq!(*largest(&[34, 50, 25, 100, 65]), 100);
    assert_eq!(*largest(&[102, 34, 6000, 89, 54, 2, 43, 8]), 6000);
    assert_eq!(*largest(&[7]), 7);
    assert_eq!(*largest(&[-3, -1, -2]), -1);
}

#[test]
fn largest_of_chars() {
    assert_eq!(*largest(&['b', 'x', '3', 'e']), 'x');
}

#[test]
fn largest_is_the_first_of_equal_maxima() {
    let items = [(1, 'a'), (3, 'b'), (2, 'c'), (3, 'b')];
    let found = largest(&items);
    assert!(std::ptr::eq(found, &items[1]));
}

#[test]
fn largest_skips_what_does_not_compare() {
    assert_eq!(*largest(&[1.0, f64::NAN, 3.0, 2.0]), 3.0);
    assert!(largest(&[f64::NAN, 1.0]).is_nan());
}

#[test]
fn point_x_and_mixup() {
    let integer = Point { x: 5, y: 10 };
    assert_eq!(*integer.x(), 5);
    let p1 = Point { x: 5, y: 10 };
    let p2 = Point { x: "Hello", y: 'c' };
    let p = p1.mixup(p2);
    assert_eq!(p.x, 5);
    assert_eq!(p.y, 'c');
}

#[test]
fn build_user_fills_the_defaults() {
    let user = build_user(String::from("email@example.com"), String::from("fakeUser"));
    assert!(user.active);
    assert_eq!(user.username, "fakeUser");
    assert_eq!(user.email, "email@example.com");
    assert_eq!(user.sign_in_count, 1);
}
