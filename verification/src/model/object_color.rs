//! Flat RGB colors for world surfaces.

use vstd::prelude::*;

verus! {

/// An RGB color with 8-bit channels.
#[derive(Clone, Copy, Debug, PartialEq, Eq, Structural)]
pub struct Color {
    pub r: u8,
    pub g: u8,
    pub b: u8,
}

impl Color {
    pub fn rgb(r: u8, g: u8, b: u8) -> (c: Color)
        ensures
            c.r == r,
            c.g == g,
            c.b == b,
    {
        Color { r, g, b }
    }

    pub fn black() -> (c: Color)
        ensures
            c == (Color { r: 0, g: 0, b: 0 }),
    {
        Color { r: 0, g: 0, b: 0 }
    }

    pub fn white() -> (c: Color)
        ensures
            c == (Color { r: 255, g: 255, b: 255 }),
    {
        Color { r: 255, g: 255, b: 255 }
    }

    pub fn gray() -> (c: Color)
        ensures
            c == (Color { r: 128, g: 128, b: 128 }),
    {
        Color { r: 128, g: 128, b: 128 }
    }

    pub fn red() -> (c: Color)
        ensures
            c == (Color { r: 255, g: 0, b: 0 }),
    {
        Color { r: 255, g: 0, b: 0 }
    }

    pub fn green() -> (c: Color)
        ensures
            c == (Color { r: 0, g: 255, b: 0 }),
    {
        Color { r: 0, g: 255, b: 0 }
    }

    pub fn blue() -> (c: Color)
        ensures
            c == (Color { r: 0, g: 0, b: 255 }),
    {
        Color { r: 0, g: 0, b: 255 }
    }

    pub fn yellow() -> (c: Color)
        ensures
            c == (Color { r: 255, g: 255, b: 0 }),
    {
        Color { r: 255, g: 255, b: 0 }
    }

    pub fn magenta() -> (c: Color)
        ensures
            c == (Color { r: 255, g: 0, b: 255 }),
    {
        Color { r: 255, g: 0, b: 255 }
    }

    pub fn cyan() -> (c: Color)
        ensures
            c == (Color { r: 0, g: 255, b: 255 }),
    {
        Color { r: 0, g: 255, b: 255 }
    }
}

/// How a world surface is painted: a flat color, or a texture placeholder.
#[derive(Clone, Copy, Debug, PartialEq, Eq, Structural)]
pub enum ObjectColor {
    Colored { color: Color },
    Textured,
}

impl ObjectColor {
    /// The flat color drawn for this appearance; textures fall back to black.
    pub fn resolve(&self) -> (c: Color)
        ensures
            c == resolve_object_color(*self),
    {
        match self {
            ObjectColor::Colored { color } => *color,
            ObjectColor::Textured => Color::black(),
        }
    }
}

/// The flat color drawn for an appearance; textures fall back to black.
pub open spec fn resolve_object_color(oc: ObjectColor) -> Color {
    match oc {
        ObjectColor::Colored { color } => color,
        ObjectColor::Textured => Color { r: 0, g: 0, b: 0 },
    }
}

} // verus!
