use minigrep::guess::subtract;
use minigrep::guess::Guess;
use minigrep::rect::area;
use minigrep::rect::Rectangle;

#[test]
fn test_add() {
    assert_eq!(subtract(5, 4), 1);
}

#[test]
fn test_can_hold() {
    let r1 = Rectangle {
        width: 10,
        height: 10,
    };
    let r2 = Rectangle {
        width: 1,
        height: 2,
    };

    assert!(r1.can_hold(&r2));
    assert!(!r2.can_hold(&r1));
}

#[test]
fn test_eq() {
    let left = Rectangle {
        width: 1,
        height: 1,
    };
    let right = Rectangle {
        width: 1,
        height: 1,
    };
    assert_eq!(left, right);
}

#[test]
fn it_works() -> Result<(), String> {
    let result = subtract(2, 2);

    if result == 0 {
        Ok(())
    } else {
        Err(String::from("two plus two does not equal four"))
    }
}

#[test]
fn test_subtract() {
    let result = subtract(10, 10);
    assert!(result == 0);
}

#[test]
fn guess_accepts_the_range_ends() {
    let _ = Guess::new(1);
    let _ = Guess::new(100);
}

#[test]
fn rectangle_area_and_square() {
    let rect = Rectangle {
        width: 30,
        height: 50,
    };
    assert_eq!(1500, rect.area());
    assert_eq!(1500, area(&rect));

    let sq = Rectangle::square(10);
    assert_eq!(
        Rectangle {
            width: 10,
            height: 10
        },
        sq
    );
}

#[test]
fn rectangle_set_width_and_max() {
    let mut rect = Rectangle {
        width: 10,
        height: 40,
    };
    rect.set_width(7);
    assert_eq!(7, rect.width);
    assert_eq!(40, rect.height);

    let other = Rectangle {
        width: 60,
        height: 45,
    };
    let bigger = rect.max(other);
    assert_eq!(
        Rectangle {
            width: 60,
            height: 45
        },
        bigger
    );
}
