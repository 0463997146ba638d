//! What the renderer keeps of a loaded image or font.

use crate::geometry::Point;
use vstd::prelude::*;

verus! {

/// The size in points at which fonts are loaded.
pub const FONT_SIZE: usize = 32;

/// Half of a texture's width or height, as the offset from its corner to its
/// centre.
///
/// The extent is read as a signed 32-bit number before it is halved, so an
/// extent of more than `i32::MAX` pixels counts as negative; halving rounds
/// towards zero.
pub open spec fn half_extent(extent: u32) -> int {
    if extent <= i32::MAX {
        extent as int / 2
    } else {
        -((0x1_0000_0000 - extent) / 2)
    }
}

/// A loaded image.
#[derive(Clone, Copy, Debug, PartialEq, Eq)]
pub struct Image {
    /// Where the backend keeps the texture.
    pub index: usize,
    /// The offset from the corner of the texture to its centre.
    pub center: Point,
}

impl Image {
    /// The image of the texture at `index`, which is `width` pixels wide and
    /// `height` pixels high.
    pub fn new(index: usize, width: u32, height: u32) -> (image: Image)
        ensures
            image.index == index,
            image.center == Point::clamped(half_extent(width), half_extent(height)),
            image.center@ == (half_extent(width), half_extent(height)),
    {
        Image { index, center: Point::new(Self::half(width), Self::half(height)) }
    }

    fn half(extent: u32) -> (half: i32)
        ensures
            half == half_extent(extent),
            crate::geometry::MIN_COORDINATE <= half <= crate::geometry::MAX_COORDINATE,
    {
        if extent <= 0x7fff_ffff {
            (extent / 2) as i32
        } else {
            let beyond: u32 = (u32::MAX - extent + 1) / 2;
            0 - (beyond as i32)
        }
    }
}

/// A loaded font.
#[derive(Clone, Copy, Debug, PartialEq, Eq)]
pub struct Font {
    /// Where the backend keeps the font.
    pub index: usize,
    /// The size in points at which the font was loaded.
    pub size: usize,
}

impl Font {
    /// The font at `index`, loaded at [`FONT_SIZE`].
    pub fn new(index: usize) -> (font: Font)
        ensures
            font == (Font { index, size: FONT_SIZE }),
    {
        Font { index, size: FONT_SIZE }
    }
}

} // verus!
