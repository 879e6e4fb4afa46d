//! Texel formats: a surface layout read under a channel type names at most
//! one native format.

use vstd::prelude::*;
use crate::native::{
    Format,
    FORMAT_A2R10G10B10_SINT_PACK32, FORMAT_A2R10G10B10_SNORM_PACK32,
    FORMAT_A2R10G10B10_UINT_PACK32, FORMAT_A2R10G10B10_UNORM_PACK32,
    FORMAT_B10G11R11_UFLOAT_PACK32, FORMAT_D16_UNORM, FORMAT_D24_UNORM_S8_UINT,
    FORMAT_D32_SFLOAT, FORMAT_R16G16B16A16_SFLOAT, FORMAT_R16G16B16A16_SINT,
    FORMAT_R16G16B16A16_SNORM, FORMAT_R16G16B16A16_UINT, FORMAT_R16G16B16A16_UNORM,
    FORMAT_R16G16B16_SFLOAT, FORMAT_R16G16B16_SINT, FORMAT_R16G16B16_SNORM,
    FORMAT_R16G16B16_UINT, FORMAT_R16G16B16_UNORM, FORMAT_R16G16_SFLOAT, FORMAT_R16G16_SINT,
    FORMAT_R16G16_SNORM, FORMAT_R16G16_UINT, FORMAT_R16G16_UNORM, FORMAT_R16_SFLOAT,
    FORMAT_R16_SINT, FORMAT_R16_SNORM, FORMAT_R16_UINT, FORMAT_R16_UNORM,
    FORMAT_R32G32B32A32_SFLOAT, FORMAT_R32G32B32A32_SINT, FORMAT_R32G32B32A32_UINT,
    FORMAT_R32G32B32_SFLOAT, FORMAT_R32G32B32_SINT, FORMAT_R32G32B32_UINT,
    FORMAT_R32G32_SFLOAT, FORMAT_R32G32_SINT, FORMAT_R32G32_UINT, FORMAT_R32_SFLOAT,
    FORMAT_R32_SINT, FORMAT_R32_UINT, FORMAT_R4G4B4A4_UNORM_PACK16, FORMAT_R4G4_UNORM_PACK8,
    FORMAT_R5G5B5A1_UNORM_PACK16, FORMAT_R5G6B5_UNORM_PACK16, FORMAT_R8G8B8A8_SINT,
    FORMAT_R8G8B8A8_SNORM, FORMAT_R8G8B8A8_SRGB, FORMAT_R8G8B8A8_UINT, FORMAT_R8G8B8A8_UNORM,
    FORMAT_R8G8_SINT, FORMAT_R8G8_SNORM, FORMAT_R8G8_SRGB, FORMAT_R8G8_UINT,
    FORMAT_R8G8_UNORM, FORMAT_R8_SINT, FORMAT_R8_SNORM, FORMAT_R8_SRGB, FORMAT_R8_UINT,
    FORMAT_R8_UNORM, FORMAT_X8_D24_UNORM_PACK32,
};

verus! {

/// Bit layout of one texel: how many bits each component has, and nothing
/// about what the bits mean.
#[allow(non_camel_case_types)]
#[derive(Clone, Copy, Debug, PartialEq, Eq, Hash, Structural)]
pub enum SurfaceType {
    R4_G4,
    R4_G4_B4_A4,
    R5_G5_B5_A1,
    R5_G6_B5,
    R8,
    R8_G8,
    R8_G8_B8_A8,
    R10_G10_B10_A2,
    R11_G11_B10,
    R16,
    R16_G16,
    R16_G16_B16,
    R16_G16_B16_A16,
    R32,
    R32_G32,
    R32_G32_B32,
    R32_G32_B32_A32,
    D16,
    D24,
    D24_S8,
    D32,
}

/// How the bits of a component are read.
#[derive(Clone, Copy, Debug, PartialEq, Eq, Hash, Structural)]
pub enum ChannelType {
    /// Signed integer.
    Int,
    /// Unsigned integer.
    Uint,
    /// Signed normalized.
    Inorm,
    /// Unsigned normalized.
    Unorm,
    /// Floating point.
    Float,
    /// Unsigned normalized, sRGB-encoded.
    Srgb,
}

impl SurfaceType {
    /// Whether the surface holds depth values.
    pub open spec fn is_depth(self) -> bool {
        self is D16 || self is D24 || self is D24_S8 || self is D32
    }

    /// Whether the surface can be read under `channel`.
    ///
    /// Packed colour layouts and the fixed-point depth layouts are unsigned
    /// normalized only; 8-bit components take every integer and normalized
    /// reading and sRGB; 10:10:10:2 takes the integer and normalized readings;
    /// 16-bit components take those and float; 32-bit components are never
    /// normalized; 11:11:10 and 32-bit depth are float only.
    pub open spec fn accepts(self, channel: ChannelType) -> bool {
        match self {
            SurfaceType::R4_G4
            | SurfaceType::R4_G4_B4_A4
            | SurfaceType::R5_G5_B5_A1
            | SurfaceType::R5_G6_B5
            | SurfaceType::D16
            | SurfaceType::D24
            | SurfaceType::D24_S8 => channel is Unorm,
            SurfaceType::R8 | SurfaceType::R8_G8 | SurfaceType::R8_G8_B8_A8 => !(channel is Float),
            SurfaceType::R10_G10_B10_A2 => !(channel is Float) && !(channel is Srgb),
            SurfaceType::R16
            | SurfaceType::R16_G16
            | SurfaceType::R16_G16_B16
            | SurfaceType::R16_G16_B16_A16 => !(channel is Srgb),
            SurfaceType::R32
            | SurfaceType::R32_G32
            | SurfaceType::R32_G32_B32
            | SurfaceType::R32_G32_B32_A32 => channel is Int || channel is Uint || channel is Float,
            SurfaceType::R11_G11_B10 | SurfaceType::D32 => channel is Float,
        }
    }
}

/// The format table: one row for each pair that has a native format.
pub open spec fn format_of(surface: SurfaceType, channel: ChannelType) -> Option<Format> {
    match (surface, channel) {
        (SurfaceType::R4_G4, ChannelType::Unorm) => Some(FORMAT_R4G4_UNORM_PACK8),
        (SurfaceType::R4_G4_B4_A4, ChannelType::Unorm) => Some(FORMAT_R4G4B4A4_UNORM_PACK16),
        (SurfaceType::R5_G5_B5_A1, ChannelType::Unorm) => Some(FORMAT_R5G5B5A1_UNORM_PACK16),
        (SurfaceType::R5_G6_B5, ChannelType::Unorm) => Some(FORMAT_R5G6B5_UNORM_PACK16),
        (SurfaceType::R8, ChannelType::Int) => Some(FORMAT_R8_SINT),
        (SurfaceType::R8, ChannelType::Uint) => Some(FORMAT_R8_UINT),
        (SurfaceType::R8, ChannelType::Inorm) => Some(FORMAT_R8_SNORM),
        (SurfaceType::R8, ChannelType::Unorm) => Some(FORMAT_R8_UNORM),
        (SurfaceType::R8, ChannelType::Srgb) => Some(FORMAT_R8_SRGB),
        (SurfaceType::R8_G8, ChannelType::Int) => Some(FORMAT_R8G8_SINT),
        (SurfaceType::R8_G8, ChannelType::Uint) => Some(FORMAT_R8G8_UINT),
        (SurfaceType::R8_G8, ChannelType::Inorm) => Some(FORMAT_R8G8_SNORM),
        (SurfaceType::R8_G8, ChannelType::Unorm) => Some(FORMAT_R8G8_UNORM),
        (SurfaceType::R8_G8, ChannelType::Srgb) => Some(FORMAT_R8G8_SRGB),
        (SurfaceType::R8_G8_B8_A8, ChannelType::Int) => Some(FORMAT_R8G8B8A8_SINT),
        (SurfaceType::R8_G8_B8_A8, ChannelType::Uint) => Some(FORMAT_R8G8B8A8_UINT),
        (SurfaceType::R8_G8_B8_A8, ChannelType::Inorm) => Some(FORMAT_R8G8B8A8_SNORM),
        (SurfaceType::R8_G8_B8_A8, ChannelType::Unorm) => Some(FORMAT_R8G8B8A8_UNORM),
        (SurfaceType::R8_G8_B8_A8, ChannelType::Srgb) => Some(FORMAT_R8G8B8A8_SRGB),
        (SurfaceType::R10_G10_B10_A2, ChannelType::Int) => Some(FORMAT_A2R10G10B10_SINT_PACK32),
        (SurfaceType::R10_G10_B10_A2, ChannelType::Uint) => Some(FORMAT_A2R10G10B10_UINT_PACK32),
        (SurfaceType::R10_G10_B10_A2, ChannelType::Inorm) => Some(
            FORMAT_A2R10G10B10_SNORM_PACK32,
        ),
        (SurfaceType::R10_G10_B10_A2, ChannelType::Unorm) => Some(
            FORMAT_A2R10G10B10_UNORM_PACK32,
        ),
        (SurfaceType::R11_G11_B10, ChannelType::Float) => Some(FORMAT_B10G11R11_UFLOAT_PACK32),
        (SurfaceType::R16, ChannelType::Int) => Some(FORMAT_R16_SINT),
        (SurfaceType::R16, ChannelType::Uint) => Some(FORMAT_R16_UINT),
        (SurfaceType::R16, ChannelType::Inorm) => Some(FORMAT_R16_SNORM),
        (SurfaceType::R16, ChannelType::Unorm) => Some(FORMAT_R16_UNORM),
        (SurfaceType::R16, ChannelType::Float) => Some(FORMAT_R16_SFLOAT),
        (SurfaceType::R16_G16, ChannelType::Int) => Some(FORMAT_R16G16_SINT),
        (SurfaceType::R16_G16, ChannelType::Uint) => Some(FORMAT_R16G16_UINT),
        (SurfaceType::R16_G16, ChannelType::Inorm) => Some(FORMAT_R16G16_SNORM),
        (SurfaceType::R16_G16, ChannelType::Unorm) => Some(FORMAT_R16G16_UNORM),
        (SurfaceType::R16_G16, ChannelType::Float) => Some(FORMAT_R16G16_SFLOAT),
        (SurfaceType::R16_G16_B16, ChannelType::Int) => Some(FORMAT_R16G16B16_SINT),
        (SurfaceType::R16_G16_B16, ChannelType::Uint) => Some(FORMAT_R16G16B16_UINT),
        (SurfaceType::R16_G16_B16, ChannelType::Inorm) => Some(FORMAT_R16G16B16_SNORM),
        (SurfaceType::R16_G16_B16, ChannelType::Unorm) => Some(FORMAT_R16G16B16_UNORM),
        (SurfaceType::R16_G16_B16, ChannelType::Float) => Some(FORMAT_R16G16B16_SFLOAT),
        (SurfaceType::R16_G16_B16_A16, ChannelType::Int) => Some(FORMAT_R16G16B16A16_SINT),
        (SurfaceType::R16_G16_B16_A16, ChannelType::Uint) => Some(FORMAT_R16G16B16A16_UINT),
        (SurfaceType::R16_G16_B16_A16, ChannelType::Inorm) => Some(FORMAT_R16G16B16A16_SNORM),
        (SurfaceType::R16_G16_B16_A16, ChannelType::Unorm) => Some(FORMAT_R16G16B16A16_UNORM),
        (SurfaceType::R16_G16_B16_A16, ChannelType::Float) => Some(FORMAT_R16G16B16A16_SFLOAT),
        (SurfaceType::R32, ChannelType::Int) => Some(FORMAT_R32_SINT),
        (SurfaceType::R32, ChannelType::Uint) => Some(FORMAT_R32_UINT),
        (SurfaceType::R32, ChannelType::Float) => Some(FORMAT_R32_SFLOAT),
        (SurfaceType::R32_G32, ChannelType::Int) => Some(FORMAT_R32G32_SINT),
        (SurfaceType::R32_G32, ChannelType::Uint) => Some(FORMAT_R32G32_UINT),
        (SurfaceType::R32_G32, ChannelType::Float) => Some(FORMAT_R32G32_SFLOAT),
        (SurfaceType::R32_G32_B32, ChannelType::Int) => Some(FORMAT_R32G32B32_SINT),
        (SurfaceType::R32_G32_B32, ChannelType::Uint) => Some(FORMAT_R32G32B32_UINT),
        (SurfaceType::R32_G32_B32, ChannelType::Float) => Some(FORMAT_R32G32B32_SFLOAT),
        (SurfaceType::R32_G32_B32_A32, ChannelType::Int) => Some(FORMAT_R32G32B32A32_SINT),
        (SurfaceType::R32_G32_B32_A32, ChannelType::Uint) => Some(FORMAT_R32G32B32A32_UINT),
        (SurfaceType::R32_G32_B32_A32, ChannelType::Float) => Some(FORMAT_R32G32B32A32_SFLOAT),
        (SurfaceType::D16, ChannelType::Unorm) => Some(FORMAT_D16_UNORM),
        (SurfaceType::D24, ChannelType::Unorm) => Some(FORMAT_X8_D24_UNORM_PACK32),
        (SurfaceType::D24_S8, ChannelType::Unorm) => Some(FORMAT_D24_UNORM_S8_UINT),
        (SurfaceType::D32, ChannelType::Float) => Some(FORMAT_D32_SFLOAT),
        _ => None,
    }
}

/// The table has a row for a pair exactly if the surface accepts the channel.
pub proof fn lemma_format_defined_where_accepted(surface: SurfaceType, channel: ChannelType)
    ensures
        format_of(surface, channel) is Some <==> surface.accepts(channel),
{
}

/// No native format stands for two pairs: a format names its surface and its
/// channel.
pub proof fn lemma_format_names_its_pair(
    surface: SurfaceType,
    channel: ChannelType,
    other_surface: SurfaceType,
    other_channel: ChannelType,
)
    requires
        format_of(surface, channel) is Some,
        format_of(surface, channel) == format_of(other_surface, other_channel),
    ensures
        surface == other_surface,
        channel == other_channel,
{
}

/// The native format of `surface` read under `chan`, or `None` where the
/// native API has no format for the pair.
///
/// The lookup goes by surface first, then by channel. A pair has a format
/// exactly if the surface accepts the channel, and the format is the one the
/// table gives.
pub fn map_format(surface: SurfaceType, chan: ChannelType) -> (r: Option<Format>)
    ensures
        r == format_of(surface, chan),
        r is Some <==> surface.accepts(chan),
{
    match surface {
        SurfaceType::R4_G4 => match chan {
            ChannelType::Unorm => Some(FORMAT_R4G4_UNORM_PACK8),
            _ => None,
        },
        SurfaceType::R4_G4_B4_A4 => match chan {
            ChannelType::Unorm => Some(FORMAT_R4G4B4A4_UNORM_PACK16),
            _ => None,
        },
        SurfaceType::R5_G5_B5_A1 => match chan {
            ChannelType::Unorm => Some(FORMAT_R5G5B5A1_UNORM_PACK16),
            _ => None,
        },
        SurfaceType::R5_G6_B5 => match chan {
            ChannelType::Unorm => Some(FORMAT_R5G6B5_UNORM_PACK16),
            _ => None,
        },
        SurfaceType::R8 => match chan {
            ChannelType::Int => Some(FORMAT_R8_SINT),
            ChannelType::Uint => Some(FORMAT_R8_UINT),
            ChannelType::Inorm => Some(FORMAT_R8_SNORM),
            ChannelType::Unorm => Some(FORMAT_R8_UNORM),
            ChannelType::Srgb => Some(FORMAT_R8_SRGB),
            _ => None,
        },
        SurfaceType::R8_G8 => match chan {
            ChannelType::Int => Some(FORMAT_R8G8_SINT),
            ChannelType::Uint => Some(FORMAT_R8G8_UINT),
            ChannelType::Inorm => Some(FORMAT_R8G8_SNORM),
            ChannelType::Unorm => Some(FORMAT_R8G8_UNORM),
            ChannelType::Srgb => Some(FORMAT_R8G8_SRGB),
            _ => None,
        },
        SurfaceType::R8_G8_B8_A8 => match chan {
            ChannelType::Int => Some(FORMAT_R8G8B8A8_SINT),
            ChannelType::Uint => Some(FORMAT_R8G8B8A8_UINT),
            ChannelType::Inorm => Some(FORMAT_R8G8B8A8_SNORM),
            ChannelType::Unorm => Some(FORMAT_R8G8B8A8_UNORM),
            ChannelType::Srgb => Some(FORMAT_R8G8B8A8_SRGB),
            _ => None,
        },
        SurfaceType::R10_G10_B10_A2 => match chan {
            ChannelType::Int => Some(FORMAT_A2R10G10B10_SINT_PACK32),
            ChannelType::Uint => Some(FORMAT_A2R10G10B10_UINT_PACK32),
            ChannelType::Inorm => Some(FORMAT_A2R10G10B10_SNORM_PACK32),
            ChannelType::Unorm => Some(FORMAT_A2R10G10B10_UNORM_PACK32),
            _ => None,
        },
        SurfaceType::R11_G11_B10 => match chan {
            ChannelType::Float => Some(FORMAT_B10G11R11_UFLOAT_PACK32),
            _ => None,
        },
        SurfaceType::R16 => match chan {
            ChannelType::Int => Some(FORMAT_R16_SINT),
            ChannelType::Uint => Some(FORMAT_R16_UINT),
            ChannelType::Inorm => Some(FORMAT_R16_SNORM),
            ChannelType::Unorm => Some(FORMAT_R16_UNORM),
            ChannelType::Float => Some(FORMAT_R16_SFLOAT),
            _ => None,
        },
        SurfaceType::R16_G16 => match chan {
            ChannelType::Int => Some(FORMAT_R16G16_SINT),
            ChannelType::Uint => Some(FORMAT_R16G16_UINT),
            ChannelType::Inorm => Some(FORMAT_R16G16_SNORM),
            ChannelType::Unorm => Some(FORMAT_R16G16_UNORM),
            ChannelType::Float => Some(FORMAT_R16G16_SFLOAT),
            _ => None,
        },
        SurfaceType::R16_G16_B16 => match chan {
            ChannelType::Int => Some(FORMAT_R16G16B16_SINT),
            ChannelType::Uint => Some(FORMAT_R16G16B16_UINT),
            ChannelType::Inorm => Some(FORMAT_R16G16B16_SNORM),
            ChannelType::Unorm => Some(FORMAT_R16G16B16_UNORM),
            ChannelType::Float => Some(FORMAT_R16G16B16_SFLOAT),
            _ => None,
        },
        SurfaceType::R16_G16_B16_A16 => match chan {
            ChannelType::Int => Some(FORMAT_R16G16B16A16_SINT),
            ChannelType::Uint => Some(FORMAT_R16G16B16A16_UINT),
            ChannelType::Inorm => Some(FORMAT_R16G16B16A16_SNORM),
            ChannelType::Unorm => Some(FORMAT_R16G16B16A16_UNORM),
            ChannelType::Float => Some(FORMAT_R16G16B16A16_SFLOAT),
            _ => None,
        },
        SurfaceType::R32 => match chan {
            ChannelType::Int => Some(FORMAT_R32_SINT),
            ChannelType::Uint => Some(FORMAT_R32_UINT),
            ChannelType::Float => Some(FORMAT_R32_SFLOAT),
            _ => None,
        },
        SurfaceType::R32_G32 => match chan {
            ChannelType::Int => Some(FORMAT_R32G32_SINT),
            ChannelType::Uint => Some(FORMAT_R32G32_UINT),
            ChannelType::Float => Some(FORMAT_R32G32_SFLOAT),
            _ => None,
        },
        SurfaceType::R32_G32_B32 => match chan {
            ChannelType::Int => Some(FORMAT_R32G32B32_SINT),
            ChannelType::Uint => Some(FORMAT_R32G32B32_UINT),
            ChannelType::Float => Some(FORMAT_R32G32B32_SFLOAT),
            _ => None,
        },
        SurfaceType::R32_G32_B32_A32 => match chan {
            ChannelType::Int => Some(FORMAT_R32G32B32A32_SINT),
            ChannelType::Uint => Some(FORMAT_R32G32B32A32_UINT),
            ChannelType::Float => Some(FORMAT_R32G32B32A32_SFLOAT),
            _ => None,
        },
        SurfaceType::D16 => match chan {
            ChannelType::Unorm => Some(FORMAT_D16_UNORM),
            _ => None,
        },
        SurfaceType::D24 => match chan {
            ChannelType::Unorm => Some(FORMAT_X8_D24_UNORM_PACK32),
            _ => None,
        },
        SurfaceType::D24_S8 => match chan {
            ChannelType::Unorm => Some(FORMAT_D24_UNORM_S8_UINT),
            _ => None,
        },
        SurfaceType::D32 => match chan {
            ChannelType::Float => Some(FORMAT_D32_SFLOAT),
            _ => None,
        },
    }
}

} // verus!
