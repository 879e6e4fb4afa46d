//! Channel swizzles: where each of the four output channels of a view takes
//! its value from.

use vstd::prelude::*;
use crate::native::{
    ComponentSwizzle, COMPONENT_SWIZZLE_A, COMPONENT_SWIZZLE_B, COMPONENT_SWIZZLE_G,
    COMPONENT_SWIZZLE_ONE, COMPONENT_SWIZZLE_R, COMPONENT_SWIZZLE_ZERO,
};

verus! {

/// The source of one output channel: a constant, or one of the four channels
/// of the texel.
#[derive(Clone, Copy, Debug, PartialEq, Eq, Hash, Structural)]
pub enum ChannelSource {
    Zero,
    One,
    X,
    Y,
    Z,
    W,
}

/// The sources of the red, green, blue and alpha output channels, in that
/// order.
#[derive(Clone, Copy, Debug, PartialEq, Eq, Hash, Structural)]
pub struct Swizzle(pub ChannelSource, pub ChannelSource, pub ChannelSource, pub ChannelSource);

/// The native form of a swizzle: one native selector for each output channel.
#[derive(Clone, Copy, Debug, PartialEq, Eq, Hash, Structural)]
pub struct ComponentMapping {
    pub r: ComponentSwizzle,
    pub g: ComponentSwizzle,
    pub b: ComponentSwizzle,
    pub a: ComponentSwizzle,
}

impl ChannelSource {
    /// The native selector that stands for the source.
    pub open spec fn component(self) -> ComponentSwizzle {
        match self {
            ChannelSource::Zero => COMPONENT_SWIZZLE_ZERO,
            ChannelSource::One => COMPONENT_SWIZZLE_ONE,
            ChannelSource::X => COMPONENT_SWIZZLE_R,
            ChannelSource::Y => COMPONENT_SWIZZLE_G,
            ChannelSource::Z => COMPONENT_SWIZZLE_B,
            ChannelSource::W => COMPONENT_SWIZZLE_A,
        }
    }
}

/// Two sources never share a native selector.
pub proof fn lemma_component_is_injective(a: ChannelSource, b: ChannelSource)
    requires
        a.component() == b.component(),
    ensures
        a == b,
{
}

/// The native selector of `source`.
pub fn map_channel_source(source: ChannelSource) -> (r: ComponentSwizzle)
    ensures
        r == source.component(),
{
    match source {
        ChannelSource::Zero => COMPONENT_SWIZZLE_ZERO,
        ChannelSource::One => COMPONENT_SWIZZLE_ONE,
        ChannelSource::X => COMPONENT_SWIZZLE_R,
        ChannelSource::Y => COMPONENT_SWIZZLE_G,
        ChannelSource::Z => COMPONENT_SWIZZLE_B,
        ChannelSource::W => COMPONENT_SWIZZLE_A,
    }
}

/// The native form of `swizzle`: each of the four positions is mapped by
/// itself, and stays in its place.
pub fn map_swizzle(swizzle: Swizzle) -> (r: ComponentMapping)
    ensures
        r.r == swizzle.0.component(),
        r.g == swizzle.1.component(),
        r.b == swizzle.2.component(),
        r.a == swizzle.3.component(),
{
    ComponentMapping {
        r: map_channel_source(swizzle.0),
        g: map_channel_source(swizzle.1),
        b: map_channel_source(swizzle.2),
        a: map_channel_source(swizzle.3),
    }
}

} // verus!
