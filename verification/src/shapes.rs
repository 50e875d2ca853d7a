//! Rectangles with an area and a containment test, and an RGB colour
//! that renders itself as text.

use crate::decimal::{dec_rep, u32_decimal};
use vstd::prelude::*;
use vstd::string::*;

verus! {

/// A rectangle given by width and height.
#[derive(Debug)]
pub struct Rectangle {
    pub width: u32,
    pub height: u32,
}

impl Rectangle {
    /// The area of the rectangle.
    pub fn area(&self) -> (a: u32)
        requires
            self.width * self.height <= u32::MAX,
        ensures
            a == self.width * self.height,
    {
        self.width * self.height
    }

    /// A rectangle holds another exactly when it is strictly larger in
    /// both directions.
    pub fn can_hold(&self, other: &Rectangle) -> (r: bool)
        ensures
            r == (self.width > other.width && self.height > other.height),
    {
        self.width > other.width && self.height > other.height
    }

    /// The square with the given side length.
    pub fn square(size: u32) -> (r: Rectangle)
        ensures
            r.width == size,
            r.height == size,
    {
        Rectangle { width: size, height: size }
    }
}

/// An RGB colour: red, green and blue channels.
#[derive(Debug)]
pub struct Color(pub u8, pub u8, pub u8);

/// What [`Color::rgb_str`] renders: each channel in decimal, labelled.
pub open spec fn rgb_rep(r: u8, g: u8, b: u8) -> Seq<char> {
    "(red: "@ + dec_rep(r as nat) + ", green: "@ + dec_rep(g as nat) + ", blue: "@ + dec_rep(
        b as nat,
    ) + ")"@
}

impl Color {
    /// Renders the colour as `(red: r, green: g, blue: b)`.
    pub fn rgb_str(&self) -> (s: String)
        ensures
            s@ == rgb_rep(self.0, self.1, self.2),
    {
        let mut s: String = "(red: ".to_owned();
        s.append(u32_decimal(self.0 as u32).as_str());
        s.append(", green: ");
        s.append(u32_decimal(self.1 as u32).as_str());
        s.append(", blue: ");
        s.append(u32_decimal(self.2 as u32).as_str());
        s.append(")");
        assert(s@ =~= rgb_rep(self.0, self.1, self.2));
        s
    }
}

} // verus!
