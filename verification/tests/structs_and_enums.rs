//! Tests for the struct and enum demonstrations: users, rectangles,
//! colours, coins and messages.

use mylib::coins::{is_california, value_in_cents, Coin, UsState};
use mylib::messages::Message;
use mylib::shapes::{Color, Rectangle};
use mylib::users::build_user;

#[test]
fn built_users_start_active() {
    let u = build_user(String::from("foo@bar.com"), String::from("Bob"));
    assert_eq!(u.email, "foo@bar.com");
    assert_eq!(u.username, "Bob");
    assert!(u.active);
    assert_eq!(u.sign_in_count, 1);
}

#[test]
fn rectangle_area() {
    let rect1 = Rectangle { width: 30, height: 50 };
    assert_eq!(rect1.area(), 1500);
}

#[test]
fn rectangle_containment() {
    let rect1 = Rectangle { width: 30, height: 50 };
    let rect2 = Rectangle { width: 10, height: 40 };
    let rect3 = Rectangle { width: 60, height: 45 };
    assert!(rect1.can_hold(&rect2));
    assert!(!rect1.can_hold(&rect3));
}

#[test]
fn squares_are_square() {
    let s = Rectangle::square(12);
    assert_eq!(s.width, 12);
    assert_eq!(s.height, 12);
}

#[test]
fn colors_render_each_channel() {
    let black = Color(0, 0, 0);
    assert_eq!(black.rgb_str(), "(red: 0, green: 0, blue: 0)");
    let white = Color(255, 255, 255);
    assert_eq!(white.rgb_str(), "(red: 255, green: 255, blue: 255)");
}

#[test]
fn coin_values() {
    assert_eq!(value_in_cents(Coin::Penny), 1);
    assert_eq!(value_in_cents(Coin::Nickel), 5);
    assert_eq!(value_in_cents(Coin::Dime), 10);
    assert_eq!(value_in_cents(Coin::Quarter(UsState::California)), 25);
}

#[test]
fn only_california_is_california() {
    assert!(is_california(&UsState::California));
    assert!(!is_california(&UsState::Colorado));
    assert!(!is_california(&UsState::Alabama));
    assert!(!is_california(&UsState::Alaska));
}

#[test]
fn messages_announce_themselves() {
    assert_eq!(Message::Quit.describe(), "I am a Quit");
    assert_eq!(Message::Move { x: 5, y: 7 }.describe(), "I am a Move: 5, 7");
    assert_eq!(
        Message::Write(String::from("hello")).describe(),
        "I am a Write: hello"
    );
    assert_eq!(
        Message::Color(255, 200, 100).describe(),
        "I am a Color: 255, 200, 100"
    );
    assert_eq!(
        Message::Move { x: -3, y: 0 }.describe(),
        "I am a Move: -3, 0"
    );
}
