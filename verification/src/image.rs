//! Shapes of images: the native image type of a kind, the native view type of
//! a kind seen whole or through one of its layers, and the planes of an image
//! that a view reaches.

use vstd::prelude::*;
use crate::format::{ChannelType, SurfaceType};
use crate::native::{
    has_flag, ImageAspectFlags, ImageType, ImageViewType, IMAGE_ASPECT_COLOR_BIT, IMAGE_ASPECT_DEPTH_BIT,
    IMAGE_ASPECT_STENCIL_BIT, IMAGE_TYPE_1D, IMAGE_TYPE_2D, IMAGE_TYPE_3D, IMAGE_VIEW_TYPE_1D,
    IMAGE_VIEW_TYPE_1D_ARRAY, IMAGE_VIEW_TYPE_2D, IMAGE_VIEW_TYPE_2D_ARRAY, IMAGE_VIEW_TYPE_3D,
    IMAGE_VIEW_TYPE_CUBE, IMAGE_VIEW_TYPE_CUBE_ARRAY,
};

verus! {

/// Extent of an image along one axis, in texels.
pub type Size = u16;

/// Index of a layer of an array image, or a number of layers.
pub type Layer = u16;

/// Number of samples of a texel.
pub type NumSamples = u8;

/// Number of stored fragments of a texel.
pub type NumFragments = u8;

/// How a texel is sampled.
#[derive(Clone, Copy, Debug, PartialEq, Eq, Hash, Structural)]
pub enum AaMode {
    /// One sample.
    Single,
    /// Multisampling.
    Multi(NumSamples),
    /// Coverage sampling.
    Coverage(NumSamples, NumFragments),
}

/// Dimensionality of an image, and whether it is an array of layers.
#[derive(Clone, Copy, Debug, PartialEq, Eq, Hash, Structural)]
pub enum Kind {
    /// One row of texels.
    D1(Size),
    /// An array of rows: the width, then the number of layers.
    D1Array(Size, Layer),
    /// A plane of texels.
    D2(Size, Size, AaMode),
    /// An array of planes: width, height, then the number of layers.
    D2Array(Size, Size, Layer, AaMode),
    /// A volume of texels.
    D3(Size, Size, Size),
    /// The six faces of a cube.
    Cube(Size),
    /// An array of cubes: the width of a face, then the number of layers.
    CubeArray(Size, Layer),
}

/// Why a kind has no view through the layer that was asked for.
#[derive(Clone, Copy, Debug, PartialEq, Eq, Hash, Structural)]
pub enum LayerError {
    /// A layer was asked of a kind that is no array, and so has none.
    UnexpectedLayer(Kind),
    /// The layer, given first, is not below the number of layers, given second.
    LayerOutOfBounds(Layer, Layer),
}

impl Kind {
    /// The number of layers of an array kind; `None` for a kind that is no
    /// array.
    pub open spec fn layer_count(self) -> Option<Layer> {
        match self {
            Kind::D1Array(_, count) => Some(count),
            Kind::D2Array(_, _, count, _) => Some(count),
            Kind::CubeArray(_, count) => Some(count),
            Kind::D1(_) | Kind::D2(_, _, _) | Kind::D3(_, _, _) | Kind::Cube(_) => None,
        }
    }

    /// The view type of the kind taken without its layers: of the image
    /// itself where the kind is no array, of one layer where it is.
    pub open spec fn element_view_type(self) -> ImageViewType {
        match self {
            Kind::D1(_) | Kind::D1Array(_, _) => IMAGE_VIEW_TYPE_1D,
            Kind::D2(_, _, _) | Kind::D2Array(_, _, _, _) => IMAGE_VIEW_TYPE_2D,
            Kind::D3(_, _, _) => IMAGE_VIEW_TYPE_3D,
            Kind::Cube(_) | Kind::CubeArray(_, _) => IMAGE_VIEW_TYPE_CUBE,
        }
    }

    /// The view type of the whole image: the array view type of an array
    /// kind, the plain view type of any other.
    pub open spec fn whole_view_type(self) -> ImageViewType {
        match self {
            Kind::D1Array(_, _) => IMAGE_VIEW_TYPE_1D_ARRAY,
            Kind::D2Array(_, _, _, _) => IMAGE_VIEW_TYPE_2D_ARRAY,
            Kind::CubeArray(_, _) => IMAGE_VIEW_TYPE_CUBE_ARRAY,
            Kind::D1(_) | Kind::D2(_, _, _) | Kind::D3(_, _, _) | Kind::Cube(_) => {
                self.element_view_type()
            },
        }
    }

    /// The native image type of the kind.
    pub open spec fn image_type(self) -> ImageType {
        match self {
            Kind::D1(_) | Kind::D1Array(_, _) => IMAGE_TYPE_1D,
            Kind::D2(_, _, _) | Kind::D2Array(_, _, _, _) => IMAGE_TYPE_2D,
            Kind::D3(_, _, _) => IMAGE_TYPE_3D,
            Kind::Cube(_) | Kind::CubeArray(_, _) => IMAGE_TYPE_2D,
        }
    }
}

/// The native image type of `kind`.
///
/// A cube is a two-dimensional image to the native API, which keeps the six
/// faces as layers.
pub fn map_image_type(kind: Kind) -> (r: ImageType)
    ensures
        r == kind.image_type(),
        kind is Cube || kind is CubeArray ==> r == IMAGE_TYPE_2D,
{
    match kind {
        Kind::D1(..) | Kind::D1Array(..) => IMAGE_TYPE_1D,
        Kind::D2(..) | Kind::D2Array(..) => IMAGE_TYPE_2D,
        Kind::D3(..) => IMAGE_TYPE_3D,
        Kind::Cube(..) | Kind::CubeArray(..) => IMAGE_TYPE_2D,
    }
}

/// The view type of `kind` under `layer`, or why there is none: no layer was
/// expected, or the layer is out of bounds. The bound is tested on every
/// array kind alike, before the shape is looked at.
pub open spec fn image_view_type(kind: Kind, layer: Option<Layer>) -> Result<
    ImageViewType,
    LayerError,
> {
    match (layer, kind.layer_count()) {
        (None, _) => Ok(kind.whole_view_type()),
        (Some(_), None) => Err(LayerError::UnexpectedLayer(kind)),
        (Some(index), Some(count)) => if index < count {
            Ok(kind.element_view_type())
        } else {
            Err(LayerError::LayerOutOfBounds(index, count))
        },
    }
}

/// The native view type of `kind`, seen whole where `layer` is `None` and
/// through that one layer where it is given.
///
/// A layer is refused for a kind that is no array, and for an array kind
/// where it is not below the number of layers. Otherwise one layer of an
/// array is seen as the kind of its elements, and an image without a chosen
/// layer as what it is.
pub fn map_image_view_type(kind: Kind, layer: Option<Layer>) -> (r: Result<
    ImageViewType,
    LayerError,
>)
    ensures
        r == image_view_type(kind, layer),
        // a layer of an array kind: accepted exactly below the number of layers
        kind.layer_count() matches Some(count) ==> (layer matches Some(index) ==> {
            &&& index < count ==> r == Ok::<ImageViewType, LayerError>(kind.element_view_type())
            &&& index >= count ==> r == Err::<ImageViewType, LayerError>(
                LayerError::LayerOutOfBounds(index, count),
            )
        }),
        // a layer of a kind that is no array: always refused
        kind.layer_count() is None && layer is Some ==> r == Err::<ImageViewType, LayerError>(
            LayerError::UnexpectedLayer(kind),
        ),
        // a kind that is no array, without a layer: its own view type
        kind.layer_count() is None && layer is None ==> r == Ok::<ImageViewType, LayerError>(
            kind.element_view_type(),
        ),
{
    match layer {
        Some(index) => {
            let count: Layer = match kind {
                Kind::D1Array(_, count) => count,
                Kind::D2Array(_, _, count, _) => count,
                Kind::CubeArray(_, count) => count,
                Kind::D1(..) | Kind::D2(..) | Kind::D3(..) | Kind::Cube(..) => {
                    return Err(LayerError::UnexpectedLayer(kind));
                },
            };
            if count <= index {
                return Err(LayerError::LayerOutOfBounds(index, count));
            }
            match kind {
                Kind::D1(..) | Kind::D1Array(..) => Ok(IMAGE_VIEW_TYPE_1D),
                Kind::D2(..) | Kind::D2Array(..) => Ok(IMAGE_VIEW_TYPE_2D),
                Kind::D3(..) => Ok(IMAGE_VIEW_TYPE_3D),
                Kind::Cube(..) | Kind::CubeArray(..) => Ok(IMAGE_VIEW_TYPE_CUBE),
            }
        },
        None => match kind {
            Kind::D1(..) => Ok(IMAGE_VIEW_TYPE_1D),
            Kind::D1Array(..) => Ok(IMAGE_VIEW_TYPE_1D_ARRAY),
            Kind::D2(..) => Ok(IMAGE_VIEW_TYPE_2D),
            Kind::D2Array(..) => Ok(IMAGE_VIEW_TYPE_2D_ARRAY),
            Kind::D3(..) => Ok(IMAGE_VIEW_TYPE_3D),
            Kind::Cube(..) => Ok(IMAGE_VIEW_TYPE_CUBE),
            Kind::CubeArray(..) => Ok(IMAGE_VIEW_TYPE_CUBE_ARRAY),
        },
    }
}

/// The planes of an image of the given format that a view reaches.
///
/// A surface without depth has a colour plane only. A depth surface that is
/// rendered into is reached in its depth and its stencil plane, whether or
/// not the surface has stencil bits. One that is only read is reached in its
/// depth plane under a float channel and in its stencil plane under an
/// unsigned integer channel; under any other channel it is reached in its
/// depth plane, for want of a better answer.
pub open spec fn image_aspect(
    surface: SurfaceType,
    channel: ChannelType,
    is_target: bool,
) -> ImageAspectFlags {
    if !surface.is_depth() {
        IMAGE_ASPECT_COLOR_BIT
    } else if is_target {
        IMAGE_ASPECT_DEPTH_BIT | IMAGE_ASPECT_STENCIL_BIT
    } else {
        match channel {
            ChannelType::Float => IMAGE_ASPECT_DEPTH_BIT,
            ChannelType::Uint => IMAGE_ASPECT_STENCIL_BIT,
            _ => IMAGE_ASPECT_DEPTH_BIT,
        }
    }
}

/// Whether a depth surface is read, not rendered into, under a channel that
/// is neither float nor unsigned integer: a combination that nothing should
/// ask for.
pub open spec fn is_unexpected_depth_channel(
    surface: SurfaceType,
    channel: ChannelType,
    is_target: bool,
) -> bool {
    surface.is_depth() && !is_target && !(channel is Float) && !(channel is Uint)
}

/// The planes of an image of the given format that a view reaches; see
/// [`image_aspect`].
///
/// An unexpected channel on a depth surface is no failure: the answer is the
/// depth plane. [`unexpected_depth_channel`] tells the caller when that
/// happened, so that it can be reported.
pub fn map_image_aspect(surface: SurfaceType, channel: ChannelType, is_target: bool) -> (r:
    ImageAspectFlags)
    ensures
        r == image_aspect(surface, channel, is_target),
        !surface.is_depth() ==> r == IMAGE_ASPECT_COLOR_BIT,
        surface.is_depth() && is_target ==> has_flag(r, IMAGE_ASPECT_DEPTH_BIT) && has_flag(
            r,
            IMAGE_ASPECT_STENCIL_BIT,
        ) && !has_flag(r, IMAGE_ASPECT_COLOR_BIT),
        is_unexpected_depth_channel(surface, channel, is_target) ==> r == IMAGE_ASPECT_DEPTH_BIT,
{
    proof {
        lemma_depth_stencil_bits();
    }
    match surface {
        SurfaceType::D16 | SurfaceType::D24 | SurfaceType::D24_S8 | SurfaceType::D32 => {
            if is_target {
                IMAGE_ASPECT_DEPTH_BIT | IMAGE_ASPECT_STENCIL_BIT
            } else {
                match channel {
                    ChannelType::Float => IMAGE_ASPECT_DEPTH_BIT,
                    ChannelType::Uint => IMAGE_ASPECT_STENCIL_BIT,
                    _ => IMAGE_ASPECT_DEPTH_BIT,
                }
            }
        },
        _ => IMAGE_ASPECT_COLOR_BIT,
    }
}

/// Whether [`map_image_aspect`] answers these arguments with the depth plane
/// for want of a better answer: the caller reports that, and goes on with
/// the depth plane.
pub fn unexpected_depth_channel(surface: SurfaceType, channel: ChannelType, is_target: bool) -> (r:
    bool)
    ensures
        r == is_unexpected_depth_channel(surface, channel, is_target),
{
    match surface {
        SurfaceType::D16 | SurfaceType::D24 | SurfaceType::D24_S8 | SurfaceType::D32 => {
            if is_target {
                false
            } else {
                match channel {
                    ChannelType::Float | ChannelType::Uint => false,
                    _ => true,
                }
            }
        },
        _ => false,
    }
}

proof fn lemma_depth_stencil_bits()
    by (bit_vector)
    ensures
        (0x2u32 | 0x4u32) & 0x2u32 == 0x2u32,
        (0x2u32 | 0x4u32) & 0x4u32 == 0x4u32,
        (0x2u32 | 0x4u32) & 0x1u32 != 0x1u32,
{
}

} // verus!
