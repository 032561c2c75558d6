//! The rectangle record that the graphics device draws, one per instance.

use vstd::prelude::*;
use crate::scalar::Scalar;

verus! {

/// A point in logical pixels, measured from the top-left corner.
#[derive(Clone, Copy, Debug, PartialEq, Eq, Structural)]
pub struct Point {
    pub x: Scalar,
    pub y: Scalar,
}

/// A width and a height in logical pixels.
#[derive(Clone, Copy, Debug, PartialEq, Eq, Structural)]
pub struct Size {
    pub width: Scalar,
    pub height: Scalar,
}

/// An RGBA colour. The alpha channel doubles as opacity.
#[derive(Clone, Copy, Debug, PartialEq, Eq, Structural)]
pub struct Color {
    pub red: Scalar,
    pub green: Scalar,
    pub blue: Scalar,
    pub alpha: Scalar,
}

/// One rectangle to draw: where, how large, and in which colour.
#[derive(Clone, Copy, Debug, PartialEq, Eq, Structural)]
pub struct RectangleInstance {
    pub position: Point,
    pub size: Size,
    pub color: Color,
}

} // verus!
