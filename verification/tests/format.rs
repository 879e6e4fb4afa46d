use vulkan_data::format::{map_format, ChannelType, SurfaceType};
use vulkan_data::native;

const SURFACES: [SurfaceType; 21] = [
    SurfaceType::R4_G4,
    SurfaceType::R4_G4_B4_A4,
    SurfaceType::R5_G5_B5_A1,
    SurfaceType::R5_G6_B5,
    SurfaceType::R8,
    SurfaceType::R8_G8,
    SurfaceType::R8_G8_B8_A8,
    SurfaceType::R10_G10_B10_A2,
    SurfaceType::R11_G11_B10,
    SurfaceType::R16,
    SurfaceType::R16_G16,
    SurfaceType::R16_G16_B16,
    SurfaceType::R16_G16_B16_A16,
    SurfaceType::R32,
    SurfaceType::R32_G32,
    SurfaceType::R32_G32_B32,
    SurfaceType::R32_G32_B32_A32,
    SurfaceType::D16,
    SurfaceType::D24,
    SurfaceType::D24_S8,
    SurfaceType::D32,
];

const CHANNELS: [ChannelType; 6] = [
    ChannelType::Int,
    ChannelType::Uint,
    ChannelType::Inorm,
    ChannelType::Unorm,
    ChannelType::Float,
    ChannelType::Srgb,
];

/// The rows of the table, by surface: the formats under Int, Uint, Inorm,
/// Unorm, Float and Srgb, as the native bindings name them.
fn expected_row(surface: SurfaceType) -> [Option<u32>; 6] {
    match surface {
        SurfaceType::R4_G4 => [None, None, None, Some(vk_sys::FORMAT_R4G4_UNORM_PACK8), None, None],
        SurfaceType::R4_G4_B4_A4 => {
            [None, None, None, Some(vk_sys::FORMAT_R4G4B4A4_UNORM_PACK16), None, None]
        }
        SurfaceType::R5_G5_B5_A1 => {
            [None, None, None, Some(vk_sys::FORMAT_R5G5B5A1_UNORM_PACK16), None, None]
        }
        SurfaceType::R5_G6_B5 => {
            [None, None, None, Some(vk_sys::FORMAT_R5G6B5_UNORM_PACK16), None, None]
        }
        SurfaceType::R8 => [
            Some(vk_sys::FORMAT_R8_SINT),
            Some(vk_sys::FORMAT_R8_UINT),
            Some(vk_sys::FORMAT_R8_SNORM),
            Some(vk_sys::FORMAT_R8_UNORM),
            None,
            Some(vk_sys::FORMAT_R8_SRGB),
        ],
        SurfaceType::R8_G8 => [
            Some(vk_sys::FORMAT_R8G8_SINT),
            Some(vk_sys::FORMAT_R8G8_UINT),
            Some(vk_sys::FORMAT_R8G8_SNORM),
            Some(vk_sys::FORMAT_R8G8_UNORM),
            None,
            Some(vk_sys::FORMAT_R8G8_SRGB),
        ],
        SurfaceType::R8_G8_B8_A8 => [
            Some(vk_sys::FORMAT_R8G8B8A8_SINT),
            Some(vk_sys::FORMAT_R8G8B8A8_UINT),
            Some(vk_sys::FORMAT_R8G8B8A8_SNORM),
            Some(vk_sys::FORMAT_R8G8B8A8_UNORM),
            None,
            Some(vk_sys::FORMAT_R8G8B8A8_SRGB),
        ],
        SurfaceType::R10_G10_B10_A2 => [
            Some(vk_sys::FORMAT_A2R10G10B10_SINT_PACK32),
            Some(vk_sys::FORMAT_A2R10G10B10_UINT_PACK32),
            Some(vk_sys::FORMAT_A2R10G10B10_SNORM_PACK32),
            Some(vk_sys::FORMAT_A2R10G10B10_UNORM_PACK32),
            None,
            None,
        ],
        SurfaceType::R11_G11_B10 => {
            [None, None, None, None, Some(vk_sys::FORMAT_B10G11R11_UFLOAT_PACK32), None]
        }
        SurfaceType::R16 => [
            Some(vk_sys::FORMAT_R16_SINT),
            Some(vk_sys::FORMAT_R16_UINT),
            Some(vk_sys::FORMAT_R16_SNORM),
            Some(vk_sys::FORMAT_R16_UNORM),
            Some(vk_sys::FORMAT_R16_SFLOAT),
            None,
        ],
        SurfaceType::R16_G16 => [
            Some(vk_sys::FORMAT_R16G16_SINT),
            Some(vk_sys::FORMAT_R16G16_UINT),
            Some(vk_sys::FORMAT_R16G16_SNORM),
            Some(vk_sys::FORMAT_R16G16_UNORM),
            Some(vk_sys::FORMAT_R16G16_SFLOAT),
            None,
        ],
        SurfaceType::R16_G16_B16 => [
            Some(vk_sys::FORMAT_R16G16B16_SINT),
            Some(vk_sys::FORMAT_R16G16B16_UINT),
            Some(vk_sys::FORMAT_R16G16B16_SNORM),
            Some(vk_sys::FORMAT_R16G16B16_UNORM),
            Some(vk_sys::FORMAT_R16G16B16_SFLOAT),
            None,
        ],
        SurfaceType::R16_G16_B16_A16 => [
            Some(vk_sys::FORMAT_R16G16B16A16_SINT),
            Some(vk_sys::FORMAT_R16G16B16A16_UINT),
            Some(vk_sys::FORMAT_R16G16B16A16_SNORM),
            Some(vk_sys::FORMAT_R16G16B16A16_UNORM),
            Some(vk_sys::FORMAT_R16G16B16A16_SFLOAT),
            None,
        ],
        SurfaceType::R32 => [
            Some(vk_sys::FORMAT_R32_SINT),
            Some(vk_sys::FORMAT_R32_UINT),
            None,
            None,
            Some(vk_sys::FORMAT_R32_SFLOAT),
            None,
        ],
        SurfaceType::R32_G32 => [
            Some(vk_sys::FORMAT_R32G32_SINT),
            Some(vk_sys::FORMAT_R32G32_UINT),
            None,
            None,
            Some(vk_sys::FORMAT_R32G32_SFLOAT),
            None,
        ],
        SurfaceType::R32_G32_B32 => [
            Some(vk_sys::FORMAT_R32G32B32_SINT),
            Some(vk_sys::FORMAT_R32G32B32_UINT),
            None,
            None,
            Some(vk_sys::FORMAT_R32G32B32_SFLOAT),
            None,
        ],
        SurfaceType::R32_G32_B32_A32 => [
            Some(vk_sys::FORMAT_R32G32B32A32_SINT),
            Some(vk_sys::FORMAT_R32G32B32A32_UINT),
            None,
            None,
            Some(vk_sys::FORMAT_R32G32B32A32_SFLOAT),
            None,
        ],
        SurfaceType::D16 => [None, None, None, Some(vk_sys::FORMAT_D16_UNORM), None, None],
        SurfaceType::D24 => {
            [None, None, None, Some(vk_sys::FORMAT_X8_D24_UNORM_PACK32), None, None]
        }
        SurfaceType::D24_S8 => {
            [None, None, None, Some(vk_sys::FORMAT_D24_UNORM_S8_UINT), None, None]
        }
        SurfaceType::D32 => [None, None, None, None, Some(vk_sys::FORMAT_D32_SFLOAT), None],
    }
}

#[test]
fn format_of_every_pair_is_that_of_the_native_headers() {
    for surface in SURFACES {
        let row = expected_row(surface);
        for (column, channel) in CHANNELS.into_iter().enumerate() {
            assert_eq!(
                map_format(surface, channel),
                row[column],
                "{:?} read as {:?}",
                surface,
                channel
            );
        }
    }
}

#[test]
fn format_exists_for_60_pairs_of_126() {
    let mut found = 0;
    let mut missing = 0;
    for surface in SURFACES {
        for channel in CHANNELS {
            match map_format(surface, channel) {
                Some(_) => found += 1,
                None => missing += 1,
            }
        }
    }
    assert_eq!(found, 60);
    assert_eq!(missing, 66);
}

#[test]
fn format_codes_are_pairwise_distinct() {
    let mut seen: Vec<u32> = Vec::new();
    for surface in SURFACES {
        for channel in CHANNELS {
            if let Some(code) = map_format(surface, channel) {
                assert!(!seen.contains(&code), "{:?} {:?} repeats {}", surface, channel, code);
                seen.push(code);
            }
        }
    }
    assert_eq!(seen.len(), 60);
}

#[test]
fn format_of_packed_4444_is_unorm_only() {
    assert_eq!(map_format(SurfaceType::R4_G4_B4_A4, ChannelType::Unorm), Some(2));
    for channel in [
        ChannelType::Int,
        ChannelType::Uint,
        ChannelType::Inorm,
        ChannelType::Float,
        ChannelType::Srgb,
    ] {
        assert_eq!(map_format(SurfaceType::R4_G4_B4_A4, channel), None);
    }
}

#[test]
fn format_of_32_bit_components_is_never_normalized() {
    for surface in [
        SurfaceType::R32,
        SurfaceType::R32_G32,
        SurfaceType::R32_G32_B32,
        SurfaceType::R32_G32_B32_A32,
    ] {
        assert!(map_format(surface, ChannelType::Int).is_some());
        assert!(map_format(surface, ChannelType::Uint).is_some());
        assert!(map_format(surface, ChannelType::Float).is_some());
        assert_eq!(map_format(surface, ChannelType::Inorm), None);
        assert_eq!(map_format(surface, ChannelType::Unorm), None);
        assert_eq!(map_format(surface, ChannelType::Srgb), None);
    }
}

#[test]
fn format_of_chosen_pairs_has_the_code_of_the_headers() {
    assert_eq!(map_format(SurfaceType::R4_G4, ChannelType::Unorm), Some(1));
    assert_eq!(map_format(SurfaceType::R8_G8_B8_A8, ChannelType::Srgb), Some(43));
    assert_eq!(map_format(SurfaceType::R10_G10_B10_A2, ChannelType::Uint), Some(62));
    assert_eq!(map_format(SurfaceType::R11_G11_B10, ChannelType::Float), Some(122));
    assert_eq!(map_format(SurfaceType::R16_G16_B16_A16, ChannelType::Float), Some(97));
    assert_eq!(map_format(SurfaceType::R32_G32_B32_A32, ChannelType::Float), Some(109));
    assert_eq!(map_format(SurfaceType::D16, ChannelType::Unorm), Some(124));
    assert_eq!(map_format(SurfaceType::D24, ChannelType::Unorm), Some(125));
    assert_eq!(map_format(SurfaceType::D24_S8, ChannelType::Unorm), Some(129));
    assert_eq!(map_format(SurfaceType::D32, ChannelType::Float), Some(126));
}

#[test]
fn format_of_depth_surfaces_misses_the_stencil_reading() {
    assert_eq!(map_format(SurfaceType::D24_S8, ChannelType::Uint), None);
    assert_eq!(map_format(SurfaceType::D32, ChannelType::Unorm), None);
    assert_eq!(map_format(SurfaceType::D16, ChannelType::Float), None);
}

#[test]
fn native_codes_are_those_of_the_bindings() {
    assert_eq!(native::IMAGE_TYPE_1D, vk_sys::IMAGE_TYPE_1D);
    assert_eq!(native::IMAGE_TYPE_2D, vk_sys::IMAGE_TYPE_2D);
    assert_eq!(native::IMAGE_TYPE_3D, vk_sys::IMAGE_TYPE_3D);
    assert_eq!(native::IMAGE_VIEW_TYPE_1D, vk_sys::IMAGE_VIEW_TYPE_1D);
    assert_eq!(native::IMAGE_VIEW_TYPE_2D, vk_sys::IMAGE_VIEW_TYPE_2D);
    assert_eq!(native::IMAGE_VIEW_TYPE_3D, vk_sys::IMAGE_VIEW_TYPE_3D);
    assert_eq!(native::IMAGE_VIEW_TYPE_CUBE, vk_sys::IMAGE_VIEW_TYPE_CUBE);
    assert_eq!(native::IMAGE_VIEW_TYPE_1D_ARRAY, vk_sys::IMAGE_VIEW_TYPE_1D_ARRAY);
    assert_eq!(native::IMAGE_VIEW_TYPE_2D_ARRAY, vk_sys::IMAGE_VIEW_TYPE_2D_ARRAY);
    assert_eq!(native::IMAGE_VIEW_TYPE_CUBE_ARRAY, vk_sys::IMAGE_VIEW_TYPE_CUBE_ARRAY);
    assert_eq!(native::IMAGE_ASPECT_COLOR_BIT, vk_sys::IMAGE_ASPECT_COLOR_BIT);
    assert_eq!(native::IMAGE_ASPECT_DEPTH_BIT, vk_sys::IMAGE_ASPECT_DEPTH_BIT);
    assert_eq!(native::IMAGE_ASPECT_STENCIL_BIT, vk_sys::IMAGE_ASPECT_STENCIL_BIT);
    assert_eq!(native::COMPONENT_SWIZZLE_ZERO, vk_sys::COMPONENT_SWIZZLE_ZERO);
    assert_eq!(native::COMPONENT_SWIZZLE_ONE, vk_sys::COMPONENT_SWIZZLE_ONE);
    assert_eq!(native::COMPONENT_SWIZZLE_R, vk_sys::COMPONENT_SWIZZLE_R);
    assert_eq!(native::COMPONENT_SWIZZLE_G, vk_sys::COMPONENT_SWIZZLE_G);
    assert_eq!(native::COMPONENT_SWIZZLE_B, vk_sys::COMPONENT_SWIZZLE_B);
    assert_eq!(native::COMPONENT_SWIZZLE_A, vk_sys::COMPONENT_SWIZZLE_A);
    assert_eq!(native::IMAGE_USAGE_TRANSFER_SRC_BIT, vk_sys::IMAGE_USAGE_TRANSFER_SRC_BIT);
    assert_eq!(native::IMAGE_USAGE_TRANSFER_DST_BIT, vk_sys::IMAGE_USAGE_TRANSFER_DST_BIT);
    assert_eq!(native::IMAGE_USAGE_SAMPLED_BIT, vk_sys::IMAGE_USAGE_SAMPLED_BIT);
    assert_eq!(native::IMAGE_USAGE_STORAGE_BIT, vk_sys::IMAGE_USAGE_STORAGE_BIT);
    assert_eq!(native::IMAGE_USAGE_COLOR_ATTACHMENT_BIT, vk_sys::IMAGE_USAGE_COLOR_ATTACHMENT_BIT);
    assert_eq!(
        native::IMAGE_USAGE_DEPTH_STENCIL_ATTACHMENT_BIT,
        vk_sys::IMAGE_USAGE_DEPTH_STENCIL_ATTACHMENT_BIT
    );
    assert_eq!(native::IMAGE_TILING_OPTIMAL, vk_sys::IMAGE_TILING_OPTIMAL);
    assert_eq!(native::IMAGE_TILING_LINEAR, vk_sys::IMAGE_TILING_LINEAR);
    assert_eq!(native::IMAGE_LAYOUT_GENERAL, vk_sys::IMAGE_LAYOUT_GENERAL);
    assert_eq!(native::FILTER_NEAREST, vk_sys::FILTER_NEAREST);
    assert_eq!(native::FILTER_LINEAR, vk_sys::FILTER_LINEAR);
    assert_eq!(native::SAMPLER_MIPMAP_MODE_NEAREST, vk_sys::SAMPLER_MIPMAP_MODE_NEAREST);
    assert_eq!(native::SAMPLER_MIPMAP_MODE_LINEAR, vk_sys::SAMPLER_MIPMAP_MODE_LINEAR);
    assert_eq!(native::SAMPLER_ADDRESS_MODE_REPEAT, vk_sys::SAMPLER_ADDRESS_MODE_REPEAT);
    assert_eq!(
        native::SAMPLER_ADDRESS_MODE_MIRRORED_REPEAT,
        vk_sys::SAMPLER_ADDRESS_MODE_MIRRORED_REPEAT
    );
    assert_eq!(
        native::SAMPLER_ADDRESS_MODE_CLAMP_TO_EDGE,
        vk_sys::SAMPLER_ADDRESS_MODE_CLAMP_TO_EDGE
    );
    assert_eq!(
        native::SAMPLER_ADDRESS_MODE_CLAMP_TO_BORDER,
        vk_sys::SAMPLER_ADDRESS_MODE_CLAMP_TO_BORDER
    );
    assert_eq!(
        native::BORDER_COLOR_FLOAT_TRANSPARENT_BLACK,
        vk_sys::BORDER_COLOR_FLOAT_TRANSPARENT_BLACK
    );
    assert_eq!(native::BORDER_COLOR_FLOAT_OPAQUE_BLACK, vk_sys::BORDER_COLOR_FLOAT_OPAQUE_BLACK);
    assert_eq!(native::BORDER_COLOR_FLOAT_OPAQUE_WHITE, vk_sys::BORDER_COLOR_FLOAT_OPAQUE_WHITE);
    assert_eq!(native::COMPARE_OP_NEVER, vk_sys::COMPARE_OP_NEVER);
    assert_eq!(native::COMPARE_OP_LESS, vk_sys::COMPARE_OP_LESS);
    assert_eq!(native::COMPARE_OP_EQUAL, vk_sys::COMPARE_OP_EQUAL);
    assert_eq!(native::COMPARE_OP_LESS_OR_EQUAL, vk_sys::COMPARE_OP_LESS_OR_EQUAL);
    assert_eq!(native::COMPARE_OP_GREATER, vk_sys::COMPARE_OP_GREATER);
    assert_eq!(native::COMPARE_OP_NOT_EQUAL, vk_sys::COMPARE_OP_NOT_EQUAL);
    assert_eq!(native::COMPARE_OP_GREATER_OR_EQUAL, vk_sys::COMPARE_OP_GREATER_OR_EQUAL);
    assert_eq!(native::COMPARE_OP_ALWAYS, vk_sys::COMPARE_OP_ALWAYS);
}
