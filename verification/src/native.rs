//! The vocabulary of the native graphics API: the numeric codes of its
//! enumerations and the bits of its flag masks.
//!
//! Every native enumeration is a 32-bit code and every native flag mask is a
//! 32-bit word in which each flag owns one bit. The names and values are those
//! of the Vulkan headers.

use vstd::prelude::*;

verus! {

/// Dimensionality of an image.
pub type ImageType = u32;

/// Shape under which an image is seen through a view.
pub type ImageViewType = u32;

/// Mask of the planes of an image (colour, depth, stencil).
pub type ImageAspectFlags = u32;

/// Where one output channel of a view takes its value from.
pub type ComponentSwizzle = u32;

/// Mask of the ways in which an image may be used.
pub type ImageUsageFlags = u32;

/// Memory arrangement of an image.
pub type ImageTiling = u32;

/// Layout of an image while it is accessed.
pub type ImageLayout = u32;

/// Texel format.
pub type Format = u32;

/// Texel filter of a sampler.
pub type Filter = u32;

/// How a sampler chooses between mipmap levels.
pub type SamplerMipmapMode = u32;

/// How a sampler treats coordinates outside the image.
pub type SamplerAddressMode = u32;

/// One of the border colours a sampler knows by name.
pub type BorderColor = u32;

/// Comparison operator.
pub type CompareOp = u32;

pub const IMAGE_TYPE_1D: ImageType = 0;
pub const IMAGE_TYPE_2D: ImageType = 1;
pub const IMAGE_TYPE_3D: ImageType = 2;

pub const IMAGE_VIEW_TYPE_1D: ImageViewType = 0;
pub const IMAGE_VIEW_TYPE_2D: ImageViewType = 1;
pub const IMAGE_VIEW_TYPE_3D: ImageViewType = 2;
pub const IMAGE_VIEW_TYPE_CUBE: ImageViewType = 3;
pub const IMAGE_VIEW_TYPE_1D_ARRAY: ImageViewType = 4;
pub const IMAGE_VIEW_TYPE_2D_ARRAY: ImageViewType = 5;
pub const IMAGE_VIEW_TYPE_CUBE_ARRAY: ImageViewType = 6;

pub const IMAGE_ASPECT_COLOR_BIT: ImageAspectFlags = 0x1;
pub const IMAGE_ASPECT_DEPTH_BIT: ImageAspectFlags = 0x2;
pub const IMAGE_ASPECT_STENCIL_BIT: ImageAspectFlags = 0x4;

pub const COMPONENT_SWIZZLE_ZERO: ComponentSwizzle = 1;
pub const COMPONENT_SWIZZLE_ONE: ComponentSwizzle = 2;
pub const COMPONENT_SWIZZLE_R: ComponentSwizzle = 3;
pub const COMPONENT_SWIZZLE_G: ComponentSwizzle = 4;
pub const COMPONENT_SWIZZLE_B: ComponentSwizzle = 5;
pub const COMPONENT_SWIZZLE_A: ComponentSwizzle = 6;

pub const IMAGE_USAGE_TRANSFER_SRC_BIT: ImageUsageFlags = 0x01;
pub const IMAGE_USAGE_TRANSFER_DST_BIT: ImageUsageFlags = 0x02;
pub const IMAGE_USAGE_SAMPLED_BIT: ImageUsageFlags = 0x04;
pub const IMAGE_USAGE_STORAGE_BIT: ImageUsageFlags = 0x08;
pub const IMAGE_USAGE_COLOR_ATTACHMENT_BIT: ImageUsageFlags = 0x10;
pub const IMAGE_USAGE_DEPTH_STENCIL_ATTACHMENT_BIT: ImageUsageFlags = 0x20;

pub const IMAGE_TILING_OPTIMAL: ImageTiling = 0;
pub const IMAGE_TILING_LINEAR: ImageTiling = 1;

pub const IMAGE_LAYOUT_GENERAL: ImageLayout = 1;

pub const FILTER_NEAREST: Filter = 0;
pub const FILTER_LINEAR: Filter = 1;

pub const SAMPLER_MIPMAP_MODE_NEAREST: SamplerMipmapMode = 0;
pub const SAMPLER_MIPMAP_MODE_LINEAR: SamplerMipmapMode = 1;

pub const SAMPLER_ADDRESS_MODE_REPEAT: SamplerAddressMode = 0;
pub const SAMPLER_ADDRESS_MODE_MIRRORED_REPEAT: SamplerAddressMode = 1;
pub const SAMPLER_ADDRESS_MODE_CLAMP_TO_EDGE: SamplerAddressMode = 2;
pub const SAMPLER_ADDRESS_MODE_CLAMP_TO_BORDER: SamplerAddressMode = 3;

pub const BORDER_COLOR_FLOAT_TRANSPARENT_BLACK: BorderColor = 0;
pub const BORDER_COLOR_FLOAT_OPAQUE_BLACK: BorderColor = 2;
pub const BORDER_COLOR_FLOAT_OPAQUE_WHITE: BorderColor = 4;

pub const COMPARE_OP_NEVER: CompareOp = 0;
pub const COMPARE_OP_LESS: CompareOp = 1;
pub const COMPARE_OP_EQUAL: CompareOp = 2;
pub const COMPARE_OP_LESS_OR_EQUAL: CompareOp = 3;
pub const COMPARE_OP_GREATER: CompareOp = 4;
pub const COMPARE_OP_NOT_EQUAL: CompareOp = 5;
pub const COMPARE_OP_GREATER_OR_EQUAL: CompareOp = 6;
pub const COMPARE_OP_ALWAYS: CompareOp = 7;

pub const FORMAT_R4G4_UNORM_PACK8: Format = 1;
pub const FORMAT_R4G4B4A4_UNORM_PACK16: Format = 2;
pub const FORMAT_R5G6B5_UNORM_PACK16: Format = 4;
pub const FORMAT_R5G5B5A1_UNORM_PACK16: Format = 6;

pub const FORMAT_R8_UNORM: Format = 9;
pub const FORMAT_R8_SNORM: Format = 10;
pub const FORMAT_R8_UINT: Format = 13;
pub const FORMAT_R8_SINT: Format = 14;
pub const FORMAT_R8_SRGB: Format = 15;

pub const FORMAT_R8G8_UNORM: Format = 16;
pub const FORMAT_R8G8_SNORM: Format = 17;
pub const FORMAT_R8G8_UINT: Format = 20;
pub const FORMAT_R8G8_SINT: Format = 21;
pub const FORMAT_R8G8_SRGB: Format = 22;

pub const FORMAT_R8G8B8A8_UNORM: Format = 37;
pub const FORMAT_R8G8B8A8_SNORM: Format = 38;
pub const FORMAT_R8G8B8A8_UINT: Format = 41;
pub const FORMAT_R8G8B8A8_SINT: Format = 42;
pub const FORMAT_R8G8B8A8_SRGB: Format = 43;

pub const FORMAT_A2R10G10B10_UNORM_PACK32: Format = 58;
pub const FORMAT_A2R10G10B10_SNORM_PACK32: Format = 59;
pub const FORMAT_A2R10G10B10_UINT_PACK32: Format = 62;
pub const FORMAT_A2R10G10B10_SINT_PACK32: Format = 63;

pub const FORMAT_R16_UNORM: Format = 70;
pub const FORMAT_R16_SNORM: Format = 71;
pub const FORMAT_R16_UINT: Format = 74;
pub const FORMAT_R16_SINT: Format = 75;
pub const FORMAT_R16_SFLOAT: Format = 76;

pub const FORMAT_R16G16_UNORM: Format = 77;
pub const FORMAT_R16G16_SNORM: Format = 78;
pub const FORMAT_R16G16_UINT: Format = 81;
pub const FORMAT_R16G16_SINT: Format = 82;
pub const FORMAT_R16G16_SFLOAT: Format = 83;

pub const FORMAT_R16G16B16_UNORM: Format = 84;
pub const FORMAT_R16G16B16_SNORM: Format = 85;
pub const FORMAT_R16G16B16_UINT: Format = 88;
pub const FORMAT_R16G16B16_SINT: Format = 89;
pub const FORMAT_R16G16B16_SFLOAT: Format = 90;

pub const FORMAT_R16G16B16A16_UNORM: Format = 91;
pub const FORMAT_R16G16B16A16_SNORM: Format = 92;
pub const FORMAT_R16G16B16A16_UINT: Format = 95;
pub const FORMAT_R16G16B16A16_SINT: Format = 96;
pub const FORMAT_R16G16B16A16_SFLOAT: Format = 97;

pub const FORMAT_R32_UINT: Format = 98;
pub const FORMAT_R32_SINT: Format = 99;
pub const FORMAT_R32_SFLOAT: Format = 100;

pub const FORMAT_R32G32_UINT: Format = 101;
pub const FORMAT_R32G32_SINT: Format = 102;
pub const FORMAT_R32G32_SFLOAT: Format = 103;

pub const FORMAT_R32G32B32_UINT: Format = 104;
pub const FORMAT_R32G32B32_SINT: Format = 105;
pub const FORMAT_R32G32B32_SFLOAT: Format = 106;

pub const FORMAT_R32G32B32A32_UINT: Format = 107;
pub const FORMAT_R32G32B32A32_SINT: Format = 108;
pub const FORMAT_R32G32B32A32_SFLOAT: Format = 109;

pub const FORMAT_B10G11R11_UFLOAT_PACK32: Format = 122;

pub const FORMAT_D16_UNORM: Format = 124;
pub const FORMAT_X8_D24_UNORM_PACK32: Format = 125;
pub const FORMAT_D32_SFLOAT: Format = 126;
pub const FORMAT_D24_UNORM_S8_UINT: Format = 129;

/// Whether every bit of `flag` is set in `mask`.
pub open spec fn has_flag(mask: u32, flag: u32) -> bool {
    mask & flag == flag
}

} // verus!
