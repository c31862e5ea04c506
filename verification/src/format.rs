//! Pixel formats as the rendering front end names them, and their mapping to
//! the native formats the presentation layer understands.
//!
//! The presentation layer itself runs on one fixed native format; the mapping
//! exists so that initialization can fail closed when a caller requests a
//! format that has no native equivalent.

use vstd::prelude::*;

verus! {

/// Channel layout of a requested pixel format.
#[allow(non_camel_case_types)]
#[derive(Clone, Copy, PartialEq, Eq, Structural, Debug)]
pub enum SurfaceType {
    /// Four bits red, four bits green.
    R4_G4,
    /// Five bits per color channel, one bit of alpha.
    R5_G5_B5_A1,
    /// Packed 16-bit color without alpha.
    R5_G6_B5,
    /// Eight bits per channel, red first.
    R8_G8_B8_A8,
    /// Eight bits per channel, blue first.
    B8_G8_R8_A8,
    /// Sixteen bits per channel.
    R16_G16_B16_A16,
    /// 24-bit depth with 8-bit stencil.
    D24_S8,
}

/// Interpretation of the bits in each channel.
#[derive(Clone, Copy, PartialEq, Eq, Structural, Debug)]
pub enum ChannelType {
    /// Signed integer.
    Int,
    /// Unsigned integer.
    Uint,
    /// Signed normalized.
    Inorm,
    /// Unsigned normalized.
    Unorm,
    /// Floating point.
    Float,
    /// Unsigned normalized with sRGB gamma.
    Srgb,
}

/// A requested pixel format: a channel layout together with an
/// interpretation of the channels.
#[derive(Clone, Copy, PartialEq, Eq, Structural, Debug)]
pub struct Format(pub SurfaceType, pub ChannelType);

/// A native pixel format the presentation layer can be configured with.
#[derive(Clone, Copy, PartialEq, Eq, Structural, Debug)]
pub enum NativeFormat {
    /// Eight bits per channel, blue first, unsigned normalized.
    Bgra8Unorm,
    /// Eight bits per channel, blue first, sRGB gamma.
    Bgra8UnormSrgb,
    /// Eight bits per channel, red first, unsigned normalized.
    Rgba8Unorm,
    /// Eight bits per channel, red first, sRGB gamma.
    Rgba8UnormSrgb,
    /// Sixteen-bit floating point per channel.
    Rgba16Float,
    /// 24-bit depth with 8-bit stencil.
    Depth24UnormStencil8,
}

/// The native equivalent of a requested format, if it has one.
///
/// The packed 16-bit layouts have no native equivalent on this presentation
/// stack, so they map to `None`.
pub open spec fn spec_map_format(f: Format) -> Option<NativeFormat> {
    match f {
        Format(SurfaceType::B8_G8_R8_A8, ChannelType::Unorm) => Some(NativeFormat::Bgra8Unorm),
        Format(SurfaceType::B8_G8_R8_A8, ChannelType::Srgb) => Some(NativeFormat::Bgra8UnormSrgb),
        Format(SurfaceType::R8_G8_B8_A8, ChannelType::Unorm) => Some(NativeFormat::Rgba8Unorm),
        Format(SurfaceType::R8_G8_B8_A8, ChannelType::Srgb) => Some(NativeFormat::Rgba8UnormSrgb),
        Format(SurfaceType::R16_G16_B16_A16, ChannelType::Float) => Some(NativeFormat::Rgba16Float),
        Format(SurfaceType::D24_S8, ChannelType::Unorm) => Some(NativeFormat::Depth24UnormStencil8),
        _ => None,
    }
}

/// Maps a requested format to its native equivalent; `None` when the format
/// cannot be presented.
pub fn map_format(f: Format) -> (r: Option<NativeFormat>)
    ensures
        r == spec_map_format(f),
{
    match f {
        Format(SurfaceType::B8_G8_R8_A8, ChannelType::Unorm) => Some(NativeFormat::Bgra8Unorm),
        Format(SurfaceType::B8_G8_R8_A8, ChannelType::Srgb) => Some(NativeFormat::Bgra8UnormSrgb),
        Format(SurfaceType::R8_G8_B8_A8, ChannelType::Unorm) => Some(NativeFormat::Rgba8Unorm),
        Format(SurfaceType::R8_G8_B8_A8, ChannelType::Srgb) => Some(NativeFormat::Rgba8UnormSrgb),
        Format(SurfaceType::R16_G16_B16_A16, ChannelType::Float) => Some(NativeFormat::Rgba16Float),
        Format(SurfaceType::D24_S8, ChannelType::Unorm) => Some(NativeFormat::Depth24UnormStencil8),
        _ => None,
    }
}

} // verus!
