//! Draw tags and the fixed-size little-endian payloads that follow them
//! in the draw-data stream.

use crate::bytes::{push_u32_le, spec_u32_le};
use vstd::prelude::*;

verus! {

/// Draw tag value of a solid color.
pub const DRAW_TAG_COLOR: u32 = 0x44;

/// Draw tag value of a linear gradient.
pub const DRAW_TAG_LINEAR_GRADIENT: u32 = 0x114;

/// Draw tag value of a radial gradient.
pub const DRAW_TAG_RADIAL_GRADIENT: u32 = 0x29C;

/// Draw tag value of an image.
pub const DRAW_TAG_IMAGE: u32 = 0x248;

/// Draw tag value of a begin-clip bracket.
pub const DRAW_TAG_BEGIN_CLIP: u32 = 0x9;

/// Draw tag value of an end-clip bracket.
pub const DRAW_TAG_END_CLIP: u32 = 0x21;

/// Draw tag value of a begin-pattern bracket.
pub const DRAW_TAG_BEGIN_PATTERN: u32 = 0x50;

/// Draw tag value of an end-pattern bracket.
pub const DRAW_TAG_END_PATTERN: u32 = 0x51;

/// A tag in the draw stream.
#[derive(Clone, Copy, PartialEq, Eq, Structural, Debug)]
pub struct DrawTag(pub u32);

/// An 8-bit-per-channel RGBA color.
#[derive(Clone, Copy, PartialEq, Eq, Structural, Debug)]
pub struct Color {
    /// Red channel.
    pub r: u8,
    /// Green channel.
    pub g: u8,
    /// Blue channel.
    pub b: u8,
    /// Alpha channel.
    pub a: u8,
}

impl Color {
    /// The fully transparent color.
    pub fn transparent() -> (c: Color)
        ensures
            c == (Color { r: 0, g: 0, b: 0, a: 0 }),
    {
        Color { r: 0, g: 0, b: 0, a: 0 }
    }
}

/// A blend mode: a mix function and a compose function, as the GPU
/// kernels number them.
#[derive(Clone, Copy, PartialEq, Eq, Structural, Debug)]
pub struct BlendMode {
    /// Mix function.
    pub mix: u8,
    /// Compose function.
    pub compose: u8,
}

/// Draw data of a solid color: the channels packed as `r g b a` from the
/// high byte down.
#[derive(Clone, Copy, PartialEq, Eq, Structural, Debug)]
pub struct DrawColor {
    /// Packed color.
    pub rgba: u32,
}

impl DrawColor {
    /// The packed word for a color.
    pub open spec fn spec_new(color: Color) -> DrawColor {
        DrawColor {
            rgba: ((color.r as u32) << 24 | (color.g as u32) << 16 | (color.b as u32) << 8 | (
            color.a as u32)) as u32,
        }
    }

    /// Packs a color.
    pub fn new(color: Color) -> (r: DrawColor)
        ensures
            r == DrawColor::spec_new(color),
    {
        DrawColor {
            rgba: (color.r as u32) << 24 | (color.g as u32) << 16 | (color.b as u32) << 8 | (
            color.a as u32),
        }
    }

    /// The four payload bytes.
    pub open spec fn spec_bytes(self) -> Seq<u8> {
        spec_u32_le(self.rgba)
    }
}

/// Draw data of a linear gradient: a ramp index (patched during
/// resolution) and the two gradient end points.
#[derive(Clone, Copy, PartialEq, Eq, Structural, Debug)]
pub struct DrawLinearGradient {
    /// Ramp index; written during resolution.
    pub index: u32,
    /// Bit pattern of the start point's x coordinate.
    pub p0x: u32,
    /// Bit pattern of the start point's y coordinate.
    pub p0y: u32,
    /// Bit pattern of the end point's x coordinate.
    pub p1x: u32,
    /// Bit pattern of the end point's y coordinate.
    pub p1y: u32,
}

impl DrawLinearGradient {
    /// The twenty payload bytes.
    pub open spec fn spec_bytes(self) -> Seq<u8> {
        spec_u32_le(self.index) + spec_u32_le(self.p0x) + spec_u32_le(self.p0y) + spec_u32_le(
            self.p1x,
        ) + spec_u32_le(self.p1y)
    }
}

/// Draw data of a radial gradient: a ramp index (patched during
/// resolution), two centers and two radii.
#[derive(Clone, Copy, PartialEq, Eq, Structural, Debug)]
pub struct DrawRadialGradient {
    /// Ramp index; written during resolution.
    pub index: u32,
    /// Bit pattern of the start center's x coordinate.
    pub p0x: u32,
    /// Bit pattern of the start center's y coordinate.
    pub p0y: u32,
    /// Bit pattern of the end center's x coordinate.
    pub p1x: u32,
    /// Bit pattern of the end center's y coordinate.
    pub p1y: u32,
    /// Bit pattern of the start radius.
    pub r0: u32,
    /// Bit pattern of the end radius.
    pub r1: u32,
}

impl DrawRadialGradient {
    /// The twenty-eight payload bytes.
    pub open spec fn spec_bytes(self) -> Seq<u8> {
        spec_u32_le(self.index) + spec_u32_le(self.p0x) + spec_u32_le(self.p0y) + spec_u32_le(
            self.p1x,
        ) + spec_u32_le(self.p1y) + spec_u32_le(self.r0) + spec_u32_le(self.r1)
    }
}

/// Draw data of an image: an atlas position (patched during resolution)
/// and the image extent packed as `width << 16 | height`.
#[derive(Clone, Copy, PartialEq, Eq, Structural, Debug)]
pub struct DrawImage {
    /// Packed atlas position; written during resolution.
    pub xy: u32,
    /// Packed width and height.
    pub width_height: u32,
}

impl DrawImage {
    /// The eight payload bytes.
    pub open spec fn spec_bytes(self) -> Seq<u8> {
        spec_u32_le(self.xy) + spec_u32_le(self.width_height)
    }
}

/// Draw data of a begin-clip bracket: a blend word and an alpha. For an
/// ordinary layer the blend word packs the mix and compose functions; for
/// a filter layer it carries a packed filter color whose low byte the
/// kernels read as the blend flag.
#[derive(Clone, Copy, PartialEq, Eq, Structural, Debug)]
pub struct DrawBeginClip {
    /// Packed blend word.
    pub blend: u32,
    /// Bit pattern of the layer alpha.
    pub alpha: u32,
}

impl DrawBeginClip {
    /// Packs a blend mode and an alpha.
    pub fn new(blend_mode: BlendMode, alpha_bits: u32) -> (r: DrawBeginClip)
        ensures
            r.blend == (blend_mode.mix as u32) << 8 | (blend_mode.compose as u32),
            r.alpha == alpha_bits,
    {
        DrawBeginClip { blend: (blend_mode.mix as u32) << 8 | (blend_mode.compose as u32), alpha: alpha_bits }
    }

    /// Packs a filter color and an alpha.
    pub fn new_filter(packed_color: u32, alpha_bits: u32) -> (r: DrawBeginClip)
        ensures
            r.blend == packed_color,
            r.alpha == alpha_bits,
    {
        DrawBeginClip { blend: packed_color, alpha: alpha_bits }
    }

    /// The eight payload bytes.
    pub open spec fn spec_bytes(self) -> Seq<u8> {
        spec_u32_le(self.blend) + spec_u32_le(self.alpha)
    }
}

/// Appends two words as bytes; shared by the two 8-byte payloads.
pub fn push_two_u32_le(data: &mut Vec<u8>, a: u32, b: u32)
    ensures
        final(data)@ == old(data)@ + spec_u32_le(a) + spec_u32_le(b),
{
    push_u32_le(data, a);
    push_u32_le(data, b);
}

/// Appends the payload of a linear gradient.
pub fn push_linear_gradient(data: &mut Vec<u8>, g: &DrawLinearGradient)
    ensures
        final(data)@ == old(data)@ + g.spec_bytes(),
{
    push_u32_le(data, g.index);
    push_u32_le(data, g.p0x);
    push_u32_le(data, g.p0y);
    push_u32_le(data, g.p1x);
    push_u32_le(data, g.p1y);
    proof {
        assert(data@ =~= old(data)@ + g.spec_bytes());
    }
}

/// Appends the payload of a radial gradient.
pub fn push_radial_gradient(data: &mut Vec<u8>, g: &DrawRadialGradient)
    ensures
        final(data)@ == old(data)@ + g.spec_bytes(),
{
    push_u32_le(data, g.index);
    push_u32_le(data, g.p0x);
    push_u32_le(data, g.p0y);
    push_u32_le(data, g.p1x);
    push_u32_le(data, g.p1y);
    push_u32_le(data, g.r0);
    push_u32_le(data, g.r1);
    proof {
        assert(data@ =~= old(data)@ + g.spec_bytes());
    }
}

} // verus!
