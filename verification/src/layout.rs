//! Where a node sits on the canvas, and the colour it is drawn in.

use crate::value::Scalar;
use vstd::prelude::*;

verus! {

/// A point on the canvas.
#[derive(Clone, Copy, Debug, PartialEq, Eq, Structural)]
pub struct Pos2 {
    pub x: Scalar,
    pub y: Scalar,
}

impl Pos2 {
    /// The point with the given coordinates.
    pub fn new(x: Scalar, y: Scalar) -> (point: Pos2)
        ensures
            point.x == x,
            point.y == y,
    {
        Pos2 { x, y }
    }
}

/// A colour of four 8-bit channels.
#[derive(Clone, Copy, Debug, PartialEq, Eq, Structural)]
pub struct Color32 {
    pub r: u8,
    pub g: u8,
    pub b: u8,
    pub a: u8,
}

impl Color32 {
    /// The opaque colour with the given red, green and blue.
    pub fn from_rgb(r: u8, g: u8, b: u8) -> (color: Color32)
        ensures
            color == (Color32 { r, g, b, a: 255 }),
    {
        Color32 { r, g, b, a: 255 }
    }
}

} // verus!
