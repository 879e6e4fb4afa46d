//! Sampler state: filters, address modes, border colours and comparison
//! operators.

use vstd::prelude::*;
use crate::native::{
    BorderColor, CompareOp, Filter, SamplerAddressMode, SamplerMipmapMode,
    BORDER_COLOR_FLOAT_OPAQUE_BLACK, BORDER_COLOR_FLOAT_OPAQUE_WHITE,
    BORDER_COLOR_FLOAT_TRANSPARENT_BLACK, COMPARE_OP_ALWAYS, COMPARE_OP_EQUAL,
    COMPARE_OP_GREATER, COMPARE_OP_GREATER_OR_EQUAL, COMPARE_OP_LESS, COMPARE_OP_LESS_OR_EQUAL,
    COMPARE_OP_NEVER, COMPARE_OP_NOT_EQUAL, FILTER_LINEAR, FILTER_NEAREST,
    SAMPLER_ADDRESS_MODE_CLAMP_TO_BORDER, SAMPLER_ADDRESS_MODE_CLAMP_TO_EDGE,
    SAMPLER_ADDRESS_MODE_MIRRORED_REPEAT, SAMPLER_ADDRESS_MODE_REPEAT,
    SAMPLER_MIPMAP_MODE_LINEAR, SAMPLER_MIPMAP_MODE_NEAREST,
};

verus! {

/// How texels are filtered, from the cheapest to the most costly.
#[derive(Clone, Copy, Debug, PartialEq, Eq, Hash, Structural)]
pub enum FilterMethod {
    /// The nearest texel.
    Scale,
    /// The nearest texel, blended between mipmap levels.
    Mipmap,
    /// Blended texels of one mipmap level.
    Bilinear,
    /// Blended texels, blended between mipmap levels.
    Trilinear,
    /// Anisotropic filtering up to the given level.
    Anisotropic(u8),
}

/// What a sampler does with coordinates outside the image.
#[derive(Clone, Copy, Debug, PartialEq, Eq, Hash, Structural)]
pub enum WrapMode {
    /// Repeats the image.
    Tile,
    /// Repeats the image, mirrored each time.
    Mirror,
    /// Holds the texel at the edge.
    Clamp,
    /// Takes the border colour.
    Border,
}

/// A colour of four 8-bit channels in one word, alpha in the highest byte.
#[derive(Clone, Copy, Debug, PartialEq, Eq, Hash, Structural)]
pub struct PackedColor(pub u32);

/// A comparison of a value `x` with a reference `y`.
#[derive(Clone, Copy, Debug, PartialEq, Eq, Hash, Structural)]
pub enum Comparison {
    /// Never passes.
    Never,
    /// `x < y`
    Less,
    /// `x <= y`
    LessEqual,
    /// `x == y`
    Equal,
    /// `x >= y`
    GreaterEqual,
    /// `x > y`
    Greater,
    /// `x != y`
    NotEqual,
    /// Always passes.
    Always,
}

/// Black without opacity.
pub const TRANSPARENT_BLACK: u32 = 0x0000_0000;

/// Black at full opacity.
pub const OPAQUE_BLACK: u32 = 0xFF00_0000;

/// White at full opacity.
pub const OPAQUE_WHITE: u32 = 0xFFFF_FFFF;

impl FilterMethod {
    /// The filter for minification and magnification alike: linear from
    /// bilinear filtering on.
    pub open spec fn texel_filter(self) -> Filter {
        match self {
            FilterMethod::Scale | FilterMethod::Mipmap => FILTER_NEAREST,
            FilterMethod::Bilinear | FilterMethod::Trilinear | FilterMethod::Anisotropic(_) => {
                FILTER_LINEAR
            },
        }
    }

    /// How mipmap levels are chosen: blended wherever the method names
    /// mipmaps, and from trilinear filtering on.
    pub open spec fn mipmap_mode(self) -> SamplerMipmapMode {
        match self {
            FilterMethod::Scale | FilterMethod::Bilinear => SAMPLER_MIPMAP_MODE_NEAREST,
            FilterMethod::Mipmap | FilterMethod::Trilinear | FilterMethod::Anisotropic(_) => {
                SAMPLER_MIPMAP_MODE_LINEAR
            },
        }
    }

    /// The highest anisotropy: the level of anisotropic filtering as it was
    /// given, zero for every other method.
    pub open spec fn max_anisotropy(self) -> u8 {
        match self {
            FilterMethod::Anisotropic(level) => level,
            _ => 0,
        }
    }
}

impl WrapMode {
    /// The native address mode that stands for the wrap mode.
    pub open spec fn address_mode(self) -> SamplerAddressMode {
        match self {
            WrapMode::Tile => SAMPLER_ADDRESS_MODE_REPEAT,
            WrapMode::Mirror => SAMPLER_ADDRESS_MODE_MIRRORED_REPEAT,
            WrapMode::Clamp => SAMPLER_ADDRESS_MODE_CLAMP_TO_EDGE,
            WrapMode::Border => SAMPLER_ADDRESS_MODE_CLAMP_TO_BORDER,
        }
    }
}

impl Comparison {
    /// The native operator that stands for the comparison.
    pub open spec fn compare_op(self) -> CompareOp {
        match self {
            Comparison::Never => COMPARE_OP_NEVER,
            Comparison::Less => COMPARE_OP_LESS,
            Comparison::LessEqual => COMPARE_OP_LESS_OR_EQUAL,
            Comparison::Equal => COMPARE_OP_EQUAL,
            Comparison::GreaterEqual => COMPARE_OP_GREATER_OR_EQUAL,
            Comparison::Greater => COMPARE_OP_GREATER,
            Comparison::NotEqual => COMPARE_OP_NOT_EQUAL,
            Comparison::Always => COMPARE_OP_ALWAYS,
        }
    }
}

/// Two wrap modes never share an address mode.
pub proof fn lemma_address_mode_is_injective(a: WrapMode, b: WrapMode)
    requires
        a.address_mode() == b.address_mode(),
    ensures
        a == b,
{
}

/// Two comparisons never share an operator.
pub proof fn lemma_compare_op_is_injective(a: Comparison, b: Comparison)
    requires
        a.compare_op() == b.compare_op(),
    ensures
        a == b,
{
}

/// The native filters of `filter`: the filter for minification, the filter
/// for magnification, the mipmap mode, and the highest anisotropy as a whole
/// number.
pub fn map_filter(filter: FilterMethod) -> (r: (Filter, Filter, SamplerMipmapMode, u8))
    ensures
        r.0 == filter.texel_filter(),
        r.1 == filter.texel_filter(),
        r.2 == filter.mipmap_mode(),
        r.3 == filter.max_anisotropy(),
        r.3 != 0 ==> filter is Anisotropic,
{
    match filter {
        FilterMethod::Scale => (FILTER_NEAREST, FILTER_NEAREST, SAMPLER_MIPMAP_MODE_NEAREST, 0),
        FilterMethod::Mipmap => (FILTER_NEAREST, FILTER_NEAREST, SAMPLER_MIPMAP_MODE_LINEAR, 0),
        FilterMethod::Bilinear => (FILTER_LINEAR, FILTER_LINEAR, SAMPLER_MIPMAP_MODE_NEAREST, 0),
        FilterMethod::Trilinear => (FILTER_LINEAR, FILTER_LINEAR, SAMPLER_MIPMAP_MODE_LINEAR, 0),
        FilterMethod::Anisotropic(level) => (
            FILTER_LINEAR,
            FILTER_LINEAR,
            SAMPLER_MIPMAP_MODE_LINEAR,
            level,
        ),
    }
}

/// The native address mode of `wrap`.
pub fn map_wrap(wrap: WrapMode) -> (r: SamplerAddressMode)
    ensures
        r == wrap.address_mode(),
{
    match wrap {
        WrapMode::Tile => SAMPLER_ADDRESS_MODE_REPEAT,
        WrapMode::Mirror => SAMPLER_ADDRESS_MODE_MIRRORED_REPEAT,
        WrapMode::Clamp => SAMPLER_ADDRESS_MODE_CLAMP_TO_EDGE,
        WrapMode::Border => SAMPLER_ADDRESS_MODE_CLAMP_TO_BORDER,
    }
}

/// The native border colour that `col` names, or `None` where it is none of
/// the three colours that the native API knows by name.
pub fn map_border_color(col: PackedColor) -> (r: Option<BorderColor>)
    ensures
        col.0 == TRANSPARENT_BLACK ==> r == Some(BORDER_COLOR_FLOAT_TRANSPARENT_BLACK),
        col.0 == OPAQUE_BLACK ==> r == Some(BORDER_COLOR_FLOAT_OPAQUE_BLACK),
        col.0 == OPAQUE_WHITE ==> r == Some(BORDER_COLOR_FLOAT_OPAQUE_WHITE),
        col.0 != TRANSPARENT_BLACK && col.0 != OPAQUE_BLACK && col.0 != OPAQUE_WHITE ==> r is None,
{
    if col.0 == TRANSPARENT_BLACK {
        Some(BORDER_COLOR_FLOAT_TRANSPARENT_BLACK)
    } else if col.0 == OPAQUE_BLACK {
        Some(BORDER_COLOR_FLOAT_OPAQUE_BLACK)
    } else if col.0 == OPAQUE_WHITE {
        Some(BORDER_COLOR_FLOAT_OPAQUE_WHITE)
    } else {
        None
    }
}

/// The native operator of `fun`.
pub fn map_comparison(fun: Comparison) -> (r: CompareOp)
    ensures
        r == fun.compare_op(),
{
    match fun {
        Comparison::Never => COMPARE_OP_NEVER,
        Comparison::Less => COMPARE_OP_LESS,
        Comparison::LessEqual => COMPARE_OP_LESS_OR_EQUAL,
        Comparison::Equal => COMPARE_OP_EQUAL,
        Comparison::GreaterEqual => COMPARE_OP_GREATER_OR_EQUAL,
        Comparison::Greater => COMPARE_OP_GREATER,
        Comparison::NotEqual => COMPARE_OP_NOT_EQUAL,
        Comparison::Always => COMPARE_OP_ALWAYS,
    }
}

} // verus!
