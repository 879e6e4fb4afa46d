use vulkan_data::format::{ChannelType, SurfaceType};
use vulkan_data::image::{
    map_image_aspect, map_image_type, map_image_view_type, unexpected_depth_channel, AaMode, Kind,
    LayerError,
};

const CHANNELS: [ChannelType; 6] = [
    ChannelType::Int,
    ChannelType::Uint,
    ChannelType::Inorm,
    ChannelType::Unorm,
    ChannelType::Float,
    ChannelType::Srgb,
];

const DEPTH_SURFACES: [SurfaceType; 4] =
    [SurfaceType::D16, SurfaceType::D24, SurfaceType::D24_S8, SurfaceType::D32];

const COLOR_SURFACES: [SurfaceType; 17] = [
    SurfaceType::R4_G4,
    SurfaceType::R4_G4_B4_A4,
    SurfaceType::R5_G5_B5_A1,
    SurfaceType::R5_G6_B5,
    SurfaceType::R8,
    SurfaceType::R8_G8,
    SurfaceType::R8_G8_B8_A8,
    SurfaceType::R10_G10_B10_A2,
    SurfaceType::R11_G11_B10,
    SurfaceType::R16,
    SurfaceType::R16_G16,
    SurfaceType::R16_G16_B16,
    SurfaceType::R16_G16_B16_A16,
    SurfaceType::R32,
    SurfaceType::R32_G32,
    SurfaceType::R32_G32_B32,
    SurfaceType::R32_G32_B32_A32,
];

fn plain_kinds() -> Vec<(Kind, u32)> {
    vec![
        (Kind::D1(16), vk_sys::IMAGE_VIEW_TYPE_1D),
        (Kind::D2(16, 8, AaMode::Single), vk_sys::IMAGE_VIEW_TYPE_2D),
        (Kind::D2(16, 8, AaMode::Multi(4)), vk_sys::IMAGE_VIEW_TYPE_2D),
        (Kind::D2(16, 8, AaMode::Coverage(8, 4)), vk_sys::IMAGE_VIEW_TYPE_2D),
        (Kind::D3(16, 8, 4), vk_sys::IMAGE_VIEW_TYPE_3D),
        (Kind::Cube(16), vk_sys::IMAGE_VIEW_TYPE_CUBE),
    ]
}

/// Array kinds of `count` layers, each with the view type of the whole array
/// and the view type of one layer.
fn array_kinds(count: u16) -> Vec<(Kind, u32, u32)> {
    vec![
        (
            Kind::D1Array(16, count),
            vk_sys::IMAGE_VIEW_TYPE_1D_ARRAY,
            vk_sys::IMAGE_VIEW_TYPE_1D,
        ),
        (
            Kind::D2Array(16, 8, count, AaMode::Single),
            vk_sys::IMAGE_VIEW_TYPE_2D_ARRAY,
            vk_sys::IMAGE_VIEW_TYPE_2D,
        ),
        (
            Kind::CubeArray(16, count),
            vk_sys::IMAGE_VIEW_TYPE_CUBE_ARRAY,
            vk_sys::IMAGE_VIEW_TYPE_CUBE,
        ),
    ]
}

#[test]
fn image_type_follows_the_dimensions() {
    assert_eq!(map_image_type(Kind::D1(4)), vk_sys::IMAGE_TYPE_1D);
    assert_eq!(map_image_type(Kind::D1Array(4, 2)), vk_sys::IMAGE_TYPE_1D);
    assert_eq!(map_image_type(Kind::D2(4, 4, AaMode::Single)), vk_sys::IMAGE_TYPE_2D);
    assert_eq!(map_image_type(Kind::D2Array(4, 4, 2, AaMode::Multi(2))), vk_sys::IMAGE_TYPE_2D);
    assert_eq!(map_image_type(Kind::D3(4, 4, 4)), vk_sys::IMAGE_TYPE_3D);
}

#[test]
fn image_type_of_a_cube_is_two_dimensional() {
    assert_eq!(map_image_type(Kind::Cube(4)), vk_sys::IMAGE_TYPE_2D);
    assert_eq!(map_image_type(Kind::CubeArray(4, 3)), vk_sys::IMAGE_TYPE_2D);
    assert_eq!(map_image_type(Kind::Cube(4)), 1);
}

#[test]
fn view_of_a_layer_below_the_count_is_one_element() {
    for count in [1u16, 2, 7, 300] {
        for (kind, _, element) in array_kinds(count) {
            for index in 0..count {
                assert_eq!(map_image_view_type(kind, Some(index)), Ok(element));
            }
        }
    }
}

#[test]
fn view_of_a_layer_at_or_above_the_count_is_out_of_bounds() {
    for count in [0u16, 1, 2, 7, 300] {
        for (kind, _, _) in array_kinds(count) {
            for index in [count, count + 1, count + 100, u16::MAX] {
                assert_eq!(
                    map_image_view_type(kind, Some(index)),
                    Err(LayerError::LayerOutOfBounds(index, count))
                );
            }
        }
    }
}

#[test]
fn view_of_an_array_without_layers_has_no_layer_in_bounds() {
    for (kind, whole, _) in array_kinds(0) {
        assert_eq!(map_image_view_type(kind, Some(0)), Err(LayerError::LayerOutOfBounds(0, 0)));
        assert_eq!(map_image_view_type(kind, None), Ok(whole));
    }
}

#[test]
fn view_of_the_last_layer_of_the_largest_array() {
    for (kind, _, element) in array_kinds(u16::MAX) {
        assert_eq!(map_image_view_type(kind, Some(u16::MAX - 1)), Ok(element));
        assert_eq!(
            map_image_view_type(kind, Some(u16::MAX)),
            Err(LayerError::LayerOutOfBounds(u16::MAX, u16::MAX))
        );
    }
}

#[test]
fn view_of_a_layer_of_a_plain_kind_is_not_expected() {
    for (kind, _) in plain_kinds() {
        for index in [0u16, 1, 5, u16::MAX] {
            assert_eq!(map_image_view_type(kind, Some(index)), Err(LayerError::UnexpectedLayer(kind)));
        }
    }
}

#[test]
fn view_of_a_plain_kind_is_its_own_view_type() {
    for (kind, natural) in plain_kinds() {
        assert_eq!(map_image_view_type(kind, None), Ok(natural));
    }
}

#[test]
fn view_of_a_whole_array_is_the_array_view_type() {
    for (kind, whole, _) in array_kinds(5) {
        assert_eq!(map_image_view_type(kind, None), Ok(whole));
    }
    assert_eq!(map_image_view_type(Kind::D1Array(8, 5), None), Ok(4));
    assert_eq!(map_image_view_type(Kind::D2Array(8, 8, 5, AaMode::Single), None), Ok(5));
    assert_eq!(map_image_view_type(Kind::CubeArray(8, 5), None), Ok(6));
}

#[test]
fn view_of_layer_two_of_a_plane_array_is_a_plane() {
    assert_eq!(map_image_view_type(Kind::D2Array(8, 8, 3, AaMode::Single), Some(2)), Ok(1));
    assert_eq!(map_image_view_type(Kind::CubeArray(8, 3), Some(2)), Ok(3));
    assert_eq!(map_image_view_type(Kind::D1Array(8, 3), Some(2)), Ok(0));
}

#[test]
fn aspect_of_a_depth_stencil_target_is_depth_and_stencil() {
    let both = vk_sys::IMAGE_ASPECT_DEPTH_BIT | vk_sys::IMAGE_ASPECT_STENCIL_BIT;
    for channel in CHANNELS {
        assert_eq!(map_image_aspect(SurfaceType::D24_S8, channel, true), both);
        assert!(!unexpected_depth_channel(SurfaceType::D24_S8, channel, true));
    }
    assert_eq!(map_image_aspect(SurfaceType::D24_S8, ChannelType::Unorm, true), 6);
}

#[test]
fn aspect_of_a_depth_only_target_has_the_stencil_bit_too() {
    let both = vk_sys::IMAGE_ASPECT_DEPTH_BIT | vk_sys::IMAGE_ASPECT_STENCIL_BIT;
    for surface in [SurfaceType::D16, SurfaceType::D24, SurfaceType::D32] {
        for channel in CHANNELS {
            assert_eq!(map_image_aspect(surface, channel, true), both);
        }
    }
}

#[test]
fn aspect_of_a_depth_surface_that_is_read() {
    for surface in DEPTH_SURFACES {
        assert_eq!(
            map_image_aspect(surface, ChannelType::Float, false),
            vk_sys::IMAGE_ASPECT_DEPTH_BIT
        );
        assert_eq!(
            map_image_aspect(surface, ChannelType::Uint, false),
            vk_sys::IMAGE_ASPECT_STENCIL_BIT
        );
        assert!(!unexpected_depth_channel(surface, ChannelType::Float, false));
        assert!(!unexpected_depth_channel(surface, ChannelType::Uint, false));
    }
}

#[test]
fn aspect_of_a_depth_surface_under_an_unexpected_channel_is_depth() {
    for surface in DEPTH_SURFACES {
        for channel in
            [ChannelType::Int, ChannelType::Inorm, ChannelType::Unorm, ChannelType::Srgb]
        {
            assert_eq!(map_image_aspect(surface, channel, false), vk_sys::IMAGE_ASPECT_DEPTH_BIT);
            assert!(unexpected_depth_channel(surface, channel, false));
        }
    }
}

#[test]
fn aspect_of_a_colour_surface_is_colour() {
    for surface in COLOR_SURFACES {
        for channel in CHANNELS {
            for is_target in [false, true] {
                assert_eq!(
                    map_image_aspect(surface, channel, is_target),
                    vk_sys::IMAGE_ASPECT_COLOR_BIT
                );
                assert!(!unexpected_depth_channel(surface, channel, is_target));
            }
        }
    }
}
