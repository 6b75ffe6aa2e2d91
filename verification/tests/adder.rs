use ownership::adder::add;
use ownership::adder::add_two;
use ownership::adder::greeting;
use ownership::adder::internal_adder;
use ownership::adder::Guess;
use ownership::geometry::Rectangle;

#[test]
fn add_2_w_2() {
    let result = add(2, 2);
    assert_eq!(result, 4);
}

#[test]
fn larger_can_hold_smaller() {
    let larger = Rectangle {
        width: 8,
        height: 7,
    };
    let smaller = Rectangle {
        width: 5,
        height: 1,
    };
    assert!(larger.can_hold(&smaller));
}

#[test]
fn smaller_cannot_hold_larger() {
    let larger = Rectangle {
        width: 8,
        height: 7,
    };
    let smaller = Rectangle {
        width: 5,
        height: 1,
    };
    assert!(!smaller.can_hold(&larger));
}

#[test]
fn it_adds_two() {
    assert_eq!(4, add_two(2));
}

#[test]
fn greeting_contains_name() {
    let result = greeting("Carol");
    assert!(
        result.contains("Carol"),
        "Greeting did not contain name, value was `{}`",
        result
    );
}

#[test]
fn greeting_exact() {
    assert_eq!(greeting("Carol"), "Hello Carol!");
}

#[test]
fn it_works() -> Result<(), String> {
    if 2 + 2 == 4 {
        Ok(())
    } else {
        Err(String::from("two plus two does not equal four"))
    }
}

#[test]
fn internal() {
    assert_eq!(4, internal_adder(2, 2));
}

#[test]
fn it_adds_two_integration() {
    assert_eq!(4, add_two(2));
}

#[test]
fn guess_keeps_its_value() {
    let guess = Guess::new(1);
    assert_eq!(guess.value(), 1);
    let guess = Guess::new(100);
    assert_eq!(guess.value(), 100);
}
