//! Framebuffer drawing arithmetic.
//!
//! The framebuffer itself is hardware handed over by the bootloader; the
//! embedder owns the byte buffer and writes pixels into it.  The offset and
//! colour-channel computations that decide what lands where are verified
//! here.

use vstd::prelude::*;

verus! {

/// A pixel position on the screen.
#[derive(Clone, Copy, PartialEq, Eq, Structural, Debug)]
pub struct Position {
    pub x: usize,
    pub y: usize,
}

/// A true colour with one byte per channel.
#[derive(Clone, Copy, PartialEq, Eq, Structural, Debug)]
pub struct Color {
    pub red: u8,
    pub green: u8,
    pub blue: u8,
}

/// The pixel formats the bootloader can report for the framebuffer.
#[derive(Clone, Copy, PartialEq, Eq, Structural, Debug)]
pub enum PixelFormat {
    /// One byte each of red, green, blue, in that order.
    Rgb,
    /// One byte each of blue, green, red, in that order.
    Bgr,
    /// A single grayscale byte.
    U8,
}

/// The byte offset of a pixel inside the framebuffer: the line offset from
/// the stride, plus the column, scaled by the pixel size.
pub open spec fn spec_pixel_byte_offset(
    position: Position,
    stride: usize,
    bytes_per_pixel: usize,
) -> int {
    (position.y * stride + position.x) * bytes_per_pixel
}

/// The byte offset of a pixel inside the framebuffer.
pub fn pixel_byte_offset(position: Position, stride: usize, bytes_per_pixel: usize) -> (r: usize)
    requires
        position.y * stride + position.x <= usize::MAX,
        spec_pixel_byte_offset(position, stride, bytes_per_pixel) <= usize::MAX,
    ensures
        r == spec_pixel_byte_offset(position, stride, bytes_per_pixel),
{
    (position.y * stride + position.x) * bytes_per_pixel
}

/// The grayscale value of a colour: a simple average-based transform.
pub open spec fn spec_gray_of(color: Color) -> int {
    color.red / 3 + color.green / 3 + color.blue / 3
}

/// The bytes a colour writes at a pixel's offset, in buffer order, and how
/// many of them the format uses.
pub fn pixel_bytes(color: Color, format: PixelFormat) -> (r: ([u8; 3], usize))
    ensures
        format == PixelFormat::Rgb ==> r.0@ == seq![color.red, color.green, color.blue] && r.1
            == 3,
        format == PixelFormat::Bgr ==> r.0@ == seq![color.blue, color.green, color.red] && r.1
            == 3,
        format == PixelFormat::U8 ==> r.0@[0] == spec_gray_of(color) && r.1 == 1,
{
    match format {
        PixelFormat::Rgb => ([color.red, color.green, color.blue], 3),
        PixelFormat::Bgr => ([color.blue, color.green, color.red], 3),
        PixelFormat::U8 => {
            let gray: u8 = color.red / 3 + color.green / 3 + color.blue / 3;
            ([gray, 0, 0], 1)
        },
    }
}

} // verus!
