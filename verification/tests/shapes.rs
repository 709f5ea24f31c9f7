use rancher_cli::shapes::{area, Rectangle};

#[test]
fn larger_can_hold_smaller() {
    let larger = Rectangle {
        width: 8,
        height: 7,
    };
    let smaller = Rectangle {
        width: 5,
        height: 4,
    };

    assert!(larger.can_hold(&smaller));
}

#[test]
fn smaller_cant_hold_larger() {
    let smaller = Rectangle {
        width: 8,
        height: 7,
    };
    let larger = Rectangle {
        width: 10,
        height: 8,
    };

    assert!(!smaller.can_hold(&larger));
}

#[test]
fn equal_side_does_not_fit() {
    let outer = Rectangle { width: 8, height: 7 };
    assert!(!outer.can_hold(&Rectangle { width: 8, height: 1 }));
    assert!(!outer.can_hold(&Rectangle { width: 1, height: 7 }));
    assert!(!outer.can_hold(&Rectangle { width: 8, height: 7 }));
    assert!(outer.can_hold(&Rectangle { width: 7, height: 6 }));
}

#[test]
fn area_is_width_times_height() {
    let rect = Rectangle { width: 60, height: 50 };
    assert_eq!(rect.area(), 3000);
    assert_eq!(area(&rect), 3000);
    assert_eq!(Rectangle { width: 0, height: 9 }.area(), 0);
    assert_eq!(Rectangle { width: 65535, height: 65537 }.area(), u32::MAX);
}

#[test]
fn square_has_equal_sides() {
    let square = Rectangle::square(20);
    assert_eq!(square.width, 20);
    assert_eq!(square.height, 20);
    assert_eq!(square.area(), 400);
}
