//! RGBA colors with 8-bit channels.

use vstd::prelude::*;

verus! {

/// An RGBA color; each channel ranges over the full `0..=255`.
///
/// Channels are kept as they were given; conversion to the normalized
/// floating-point form the GPU consumes happens outside the verified core.
#[derive(Clone, Copy, Debug, PartialEq, Eq, Structural)]
pub struct Color(pub u8, pub u8, pub u8, pub u8);

impl Color {
    /// Builds a color from all four channels.
    pub fn rgba(r: u8, g: u8, b: u8, a: u8) -> (c: Color)
        ensures
            c == Color(r, g, b, a),
    {
        Color(r, g, b, a)
    }

    /// Builds an opaque color: alpha is fixed at 255.
    pub fn rgb(r: u8, g: u8, b: u8) -> (c: Color)
        ensures
            c == Color(r, g, b, 255u8),
    {
        Color(r, g, b, 255)
    }

    /// Opaque white.
    pub fn white() -> (c: Color)
        ensures
            c == Color(255u8, 255u8, 255u8, 255u8),
    {
        Color(255, 255, 255, 255)
    }

    /// Opaque black.
    pub fn black() -> (c: Color)
        ensures
            c == Color(0u8, 0u8, 0u8, 255u8),
    {
        Color(0, 0, 0, 255)
    }

    /// Opaque red.
    pub fn red() -> (c: Color)
        ensures
            c == Color(255u8, 0u8, 0u8, 255u8),
    {
        Color(255, 0, 0, 255)
    }

    /// Opaque green.
    pub fn green() -> (c: Color)
        ensures
            c == Color(0u8, 255u8, 0u8, 255u8),
    {
        Color(0, 255, 0, 255)
    }

    /// Opaque blue.
    pub fn blue() -> (c: Color)
        ensures
            c == Color(0u8, 0u8, 255u8, 255u8),
    {
        Color(0, 0, 255, 255)
    }
}

} // verus!
