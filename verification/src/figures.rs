//! Plane figures over integer coordinates.
//!
//! Area and perimeter are floating-point measures and live with the
//! unverified layer around this crate; only the shapes themselves are
//! defined here.
use vstd::prelude::*;

verus! {

pub struct Point {
    pub x: i32,
    pub y: i32,
}

pub struct Circle {
    pub radius: u32,
}

pub struct Rectangle {
    pub a: Point,
    pub b: Point,
}

pub struct Triangle {
    pub a: Point,
    pub b: Point,
    pub c: Point,
}

pub enum Shape {
    Point(Point),
    Circle(Circle),
    Triangle(Triangle),
    Rectangle(Rectangle),
}

} // verus!
