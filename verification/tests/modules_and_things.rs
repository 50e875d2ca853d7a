//! Tests for the module-tree message builders and for the assortment of
//! randomly identified things.

use mylib::foo::{blort_line, qux, zug_line};
use mylib::sound::instrument::clarinet_line;
use mylib::spam::{beans_line, ham, toast_line};
use mylib::things::animal::Animal;
use mylib::things::mineral::Mineral;
use mylib::things::vegetable::Vegetable;
use mylib::things::{assortment, Thing};

#[test]
fn zug_names_its_path() {
    assert_eq!(
        zug_line("absolute"),
        "I am Zug; hear me roar (via a absolute path!)"
    );
    assert_eq!(
        zug_line("relative"),
        "I am Zug; hear me roar (via a relative path!)"
    );
}

#[test]
fn blort_relays_messages() {
    assert_eq!(blort_line("message from main"), "Blort says: message from main");
}

#[test]
fn qux_speaks_through_blort() {
    assert_eq!(qux(), "Blort says: message from qux");
}

#[test]
fn toast_names_its_path() {
    assert_eq!(
        toast_line("absolute"),
        "I am Toast; hear me roar (via a absolute path!)"
    );
}

#[test]
fn the_clarinet_names_its_path() {
    assert_eq!(
        clarinet_line("absolute"),
        "A clarinet goes tweet tweet! (via absolute path)"
    );
}

#[test]
fn beans_relays_messages() {
    assert_eq!(beans_line("message from main"), "Beans says: message from main");
}

#[test]
fn ham_speaks_through_beans() {
    assert_eq!(ham(), "Beans says: message from ham");
}

#[test]
fn animals_get_fresh_identifiers() {
    let dog = Animal::new("Rover");
    assert_eq!(dog.name, "Rover");
    let shown = format!("{:?}", dog);
    assert!(shown.contains("Rover"));
}

#[test]
fn assortment_identifiers_are_eight_alphanumerics() {
    let stuff = assortment();
    for thing in stuff.iter() {
        let shown = format!("{:?}", thing);
        let id = shown
            .rsplit("id: \"")
            .next()
            .and_then(|tail| tail.split('\"').next())
            .expect("the debug form shows the id");
        assert_eq!(id.len(), 8);
        assert!(id.chars().all(|c| c.is_ascii_alphanumeric()));
    }
}

#[test]
fn minerals_and_vegetables_keep_their_names() {
    let coal = Mineral::new("Coal, ick!");
    assert_eq!(coal.name, "Coal, ick!");
    let oak = Vegetable::new("oak");
    assert_eq!(oak.name, "oak");
}

#[test]
fn the_assortment_holds_one_of_each() {
    let stuff = assortment();
    match &stuff[0] {
        Thing::Ani(a) => assert_eq!(a.name, "Cat"),
        _ => panic!("expected an animal first"),
    }
    match &stuff[1] {
        Thing::Min(m) => assert_eq!(m.name, "Topaz"),
        _ => panic!("expected a mineral second"),
    }
    match &stuff[2] {
        Thing::Veg(v) => assert_eq!(v.name, "Rose"),
        _ => panic!("expected a vegetable third"),
    }
}
