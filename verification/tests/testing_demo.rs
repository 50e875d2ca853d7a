//! The test suite of the testing demonstration, exercised against the
//! library from outside.

use mylib::exercises::{add_two, greeting, internal_adder, Guess, Rectangle};

#[test]
fn internal() {
    assert_eq!(4, internal_adder(2, 2));
}

#[test]
fn exploration() {
    assert_eq!(2 + 2, 4);
}

#[test]
fn experimentation() {
    assert_ne!(3, 4);
}

#[test]
fn evaluation() {
    assert!(1 > 0);
}

#[test]
fn larger_can_hold_smaller() {
    let larger = Rectangle { length: 8, width: 7 };
    let smaller = Rectangle { length: 5, width: 1 };

    assert!(larger.can_hold(&smaller));
}

#[test]
fn smaller_cannot_hold_larger() {
    let larger = Rectangle { length: 8, width: 7 };
    let smaller = Rectangle { length: 5, width: 1 };

    assert!(!smaller.can_hold(&larger));
}

#[test]
fn greeting_contains_name() {
    let result = greeting("Carol");
    assert!(
        result.contains("Carol"),
        "Greeting did not contain name, value was `{}`",
        result
    );
}

#[test]
fn result_t_e_wins() -> Result<(), String> {
    if 2 + 2 == 4 {
        Ok(())
    } else {
        Err(String::from("two plus two does not equal four"))
    }
}

#[test]
fn integration_experiment() {
    assert_eq!(4, add_two(2));
}

#[test]
fn guess_accepts_the_range_ends() {
    assert_eq!(Guess::new(1).value, 1);
    assert_eq!(Guess::new(100).value, 100);
    assert_eq!(Guess::new(50).value, 50);
}
