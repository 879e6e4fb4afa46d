//! Where an image lives and what it is bound as: from the two, the native
//! usage mask and tiling.

use vstd::prelude::*;
use crate::native::{
    has_flag, ImageLayout, ImageTiling, ImageUsageFlags, IMAGE_LAYOUT_GENERAL,
    IMAGE_TILING_LINEAR, IMAGE_TILING_OPTIMAL, IMAGE_USAGE_COLOR_ATTACHMENT_BIT,
    IMAGE_USAGE_DEPTH_STENCIL_ATTACHMENT_BIT, IMAGE_USAGE_SAMPLED_BIT, IMAGE_USAGE_STORAGE_BIT,
    IMAGE_USAGE_TRANSFER_DST_BIT, IMAGE_USAGE_TRANSFER_SRC_BIT,
};

verus! {

/// How the CPU may reach mapped memory.
#[derive(Clone, Copy, Debug, PartialEq, Eq, Hash, Structural)]
pub enum MapAccess {
    /// Reads only.
    Readable,
    /// Writes only.
    Writable,
    /// Reads and writes.
    RW,
}

/// Where a resource lives and who touches it.
#[derive(Clone, Copy, Debug, PartialEq, Eq, Hash, Structural)]
pub enum Usage {
    /// The GPU reads and writes; the CPU only copies.
    GpuOnly,
    /// The GPU reads; nothing changes after creation.
    Const,
    /// The GPU reads; the CPU writes.
    Dynamic,
    /// Staging memory that the CPU maps, copied from and to GPU resources.
    CpuOnly(MapAccess),
}

impl Usage {
    /// Whether a resource of this usage is copied out of.
    pub open spec fn is_transfer_source(self) -> bool {
        self is GpuOnly || self == Usage::CpuOnly(MapAccess::Writable) || self == Usage::CpuOnly(
            MapAccess::RW,
        )
    }

    /// Whether a resource of this usage is copied into.
    pub open spec fn is_transfer_destination(self) -> bool {
        self is GpuOnly || self is Dynamic || self == Usage::CpuOnly(MapAccess::Readable) || self
            == Usage::CpuOnly(MapAccess::RW)
    }
}

/// One way of binding a resource to the pipeline.
#[derive(Clone, Copy, Debug, PartialEq, Eq, Hash, Structural)]
pub enum BindFlag {
    /// Rendered into.
    RenderTarget,
    /// Depth or stencil target.
    DepthStencil,
    /// Read by shaders.
    ShaderResource,
    /// Written by shaders.
    UnorderedAccess,
}

impl BindFlag {
    /// The bit that stands for the flag in a packed set.
    pub open spec fn mask(self) -> u8 {
        match self {
            BindFlag::RenderTarget => 0x1,
            BindFlag::DepthStencil => 0x2,
            BindFlag::ShaderResource => 0x4,
            BindFlag::UnorderedAccess => 0x8,
        }
    }

    /// The native usage bit that the flag asks for.
    pub open spec fn usage_bit(self) -> ImageUsageFlags {
        match self {
            BindFlag::RenderTarget => IMAGE_USAGE_COLOR_ATTACHMENT_BIT,
            BindFlag::DepthStencil => IMAGE_USAGE_DEPTH_STENCIL_ATTACHMENT_BIT,
            BindFlag::ShaderResource => IMAGE_USAGE_SAMPLED_BIT,
            BindFlag::UnorderedAccess => IMAGE_USAGE_STORAGE_BIT,
        }
    }

    fn bit(self) -> (r: u8)
        ensures
            r == self.mask(),
    {
        match self {
            BindFlag::RenderTarget => 0x1,
            BindFlag::DepthStencil => 0x2,
            BindFlag::ShaderResource => 0x4,
            BindFlag::UnorderedAccess => 0x8,
        }
    }
}

/// The flags whose bits are set in `bits`.
pub open spec fn flags_of(bits: u8) -> Set<BindFlag> {
    Set::new(|flag: BindFlag| bits & flag.mask() == flag.mask())
}

/// A set of bind flags, packed into one byte.
#[derive(Clone, Copy, Debug, PartialEq, Eq, Hash, Structural)]
pub struct Bind {
    bits: u8,
}

impl View for Bind {
    type V = Set<BindFlag>;

    open spec fn view(&self) -> Set<BindFlag> {
        flags_of(self.spec_bits())
    }
}

proof fn lemma_no_bits(n: u8)
    by (bit_vector)
    requires
        n == 1 || n == 2 || n == 4 || n == 8,
    ensures
        0u8 & n != n,
{
}

proof fn lemma_bit_test(b: u8, n: u8)
    by (bit_vector)
    requires
        n == 1 || n == 2 || n == 4 || n == 8,
    ensures
        (b & n != 0) == (b & n == n),
{
}

proof fn lemma_joined_bits(a: u8, b: u8, n: u8)
    by (bit_vector)
    requires
        a <= 0xF,
        b <= 0xF,
        n == 1 || n == 2 || n == 4 || n == 8,
    ensures
        a | b <= 0xF,
        ((a | b) & n == n) == ((a & n == n) || (b & n == n)),
{
}

proof fn lemma_single_bit(m: u8, n: u8)
    by (bit_vector)
    requires
        m == 1 || m == 2 || m == 4 || m == 8,
        n == 1 || n == 2 || n == 4 || n == 8,
    ensures
        m <= 0xF,
        (m & n == n) == (m == n),
{
}

impl Bind {
    /// A set never holds a bit that stands for no flag.
    #[verifier::type_invariant]
    spec fn wf(self) -> bool {
        self.bits <= 0xF
    }

    /// The packed form of the set.
    pub closed spec fn spec_bits(&self) -> u8 {
        self.bits
    }

    /// The set without flags.
    pub fn empty() -> (r: Bind)
        ensures
            r@ == Set::<BindFlag>::empty(),
            r.spec_bits() == 0,
    {
        let r = Bind { bits: 0 };
        proof {
            assert forall|flag: BindFlag| !flags_of(0).contains(flag) by {
                lemma_no_bits(flag.mask());
            }
            assert(r@ =~= Set::<BindFlag>::empty());
        }
        r
    }

    /// The set packed in `bits`, unless a bit of it stands for no flag.
    pub fn from_bits(bits: u8) -> (r: Option<Bind>)
        ensures
            r is Some <==> bits <= 0xF,
            r matches Some(bind) ==> bind.spec_bits() == bits,
    {
        if bits <= 0xF {
            Some(Bind { bits })
        } else {
            None
        }
    }

    /// The packed form of the set: one bit for each flag it holds.
    #[verifier::when_used_as_spec(spec_bits)]
    pub fn bits(&self) -> (r: u8)
        ensures
            r == self.spec_bits(),
            r <= 0xF,
    {
        proof {
            use_type_invariant(self);
        }
        self.bits
    }

    /// Whether `flag` is in the set.
    pub fn contains(&self, flag: BindFlag) -> (r: bool)
        ensures
            r == self@.contains(flag),
    {
        let n: u8 = flag.bit();
        proof {
            lemma_bit_test(self.bits, n);
        }
        self.bits & n != 0
    }

    /// Adds `flag` to the set.
    pub fn insert(&mut self, flag: BindFlag)
        ensures
            final(self)@ == old(self)@.insert(flag),
    {
        proof {
            use_type_invariant(&*self);
        }
        let n: u8 = flag.bit();
        let joined: u8 = self.bits | n;
        proof {
            lemma_single_bit(n, n);
            lemma_joined_bits(self.bits, n, n);
            assert forall|other: BindFlag|
                flags_of(joined).contains(other) == (flags_of(self.bits).contains(other) || other
                    == flag) by {
                lemma_single_bit(n, other.mask());
                lemma_joined_bits(self.bits, n, other.mask());
            }
            assert(flags_of(joined) =~= flags_of(self.bits).insert(flag));
        }
        self.bits = joined;
    }

    /// The set of the flags that are in `self` or in `other`.
    pub fn union(self, other: Bind) -> (r: Bind)
        ensures
            r@ == self@.union(other@),
    {
        proof {
            use_type_invariant(&self);
            use_type_invariant(&other);
        }
        let joined: u8 = self.bits | other.bits;
        proof {
            lemma_joined_bits(self.bits, other.bits, 1);
            assert forall|flag: BindFlag|
                flags_of(joined).contains(flag) == (flags_of(self.bits).contains(flag) || flags_of(
                    other.bits,
                ).contains(flag)) by {
                lemma_joined_bits(self.bits, other.bits, flag.mask());
            }
            assert(flags_of(joined) =~= flags_of(self.bits).union(flags_of(other.bits)));
        }
        Bind { bits: joined }
    }
}

/// The usage bit of `flag` where `bind` holds it, no bit where it does not.
pub open spec fn flag_usage(bind: Set<BindFlag>, flag: BindFlag) -> ImageUsageFlags {
    if bind.contains(flag) {
        flag.usage_bit()
    } else {
        0
    }
}

/// The usage bits that a set of bind flags asks for: the bit of each flag in
/// it, each independent of the others.
pub open spec fn bind_usage(bind: Set<BindFlag>) -> ImageUsageFlags {
    flag_usage(bind, BindFlag::RenderTarget) | flag_usage(bind, BindFlag::DepthStencil)
        | flag_usage(bind, BindFlag::ShaderResource) | flag_usage(bind, BindFlag::UnorderedAccess)
}

/// The transfer bits that a usage adds, whatever the resource is bound as.
pub open spec fn transfer_usage(usage: Usage) -> ImageUsageFlags {
    match usage {
        Usage::Const => 0,
        Usage::GpuOnly => IMAGE_USAGE_TRANSFER_SRC_BIT | IMAGE_USAGE_TRANSFER_DST_BIT,
        Usage::Dynamic => IMAGE_USAGE_TRANSFER_DST_BIT,
        Usage::CpuOnly(MapAccess::Readable) => IMAGE_USAGE_TRANSFER_DST_BIT,
        Usage::CpuOnly(MapAccess::Writable) => IMAGE_USAGE_TRANSFER_SRC_BIT,
        Usage::CpuOnly(MapAccess::RW) => IMAGE_USAGE_TRANSFER_SRC_BIT
            | IMAGE_USAGE_TRANSFER_DST_BIT,
    }
}

/// The usage mask of an image: what its bind flags ask for, and on top of it
/// the transfer bits of its usage.
pub open spec fn usage_flags(usage: Usage, bind: Set<BindFlag>) -> ImageUsageFlags {
    bind_usage(bind) | transfer_usage(usage)
}

/// The tiling of an image: optimal where only the GPU touches the texels,
/// linear where the CPU does.
pub open spec fn tiling_of(usage: Usage) -> ImageTiling {
    match usage {
        Usage::Const | Usage::GpuOnly => IMAGE_TILING_OPTIMAL,
        Usage::Dynamic | Usage::CpuOnly(_) => IMAGE_TILING_LINEAR,
    }
}

proof fn lemma_mask_bits(color: u32, depth: u32, sampled: u32, storage: u32, transfer: u32)
    by (bit_vector)
    requires
        color == 0 || color == 0x10,
        depth == 0 || depth == 0x20,
        sampled == 0 || sampled == 0x04,
        storage == 0 || storage == 0x08,
        transfer <= 3,
    ensures
        ((color | depth | sampled | storage | transfer) & 0x10 == 0x10) == (color == 0x10),
        ((color | depth | sampled | storage | transfer) & 0x20 == 0x20) == (depth == 0x20),
        ((color | depth | sampled | storage | transfer) & 0x04 == 0x04) == (sampled == 0x04),
        ((color | depth | sampled | storage | transfer) & 0x08 == 0x08) == (storage == 0x08),
        ((color | depth | sampled | storage | transfer) & 0x01 == 0x01) == (transfer == 1
            || transfer == 3),
        ((color | depth | sampled | storage | transfer) & 0x02 == 0x02) == (transfer == 2
            || transfer == 3),
        (color | depth | sampled | storage | transfer) <= 0x3F,
{
}

proof fn lemma_or_identities(x: u32)
    by (bit_vector)
    ensures
        x | 0 == x,
        0 | x == x,
        x | x == x,
        0x1u32 | 0x2u32 == 3,
{
}

proof fn lemma_joined_masks(a0: u32, a1: u32, a2: u32, a3: u32, b0: u32, b1: u32, b2: u32, b3: u32)
    by (bit_vector)
    ensures
        (a0 | a1 | a2 | a3) | (b0 | b1 | b2 | b3) == (a0 | b0) | (a1 | b1) | (a2 | b2) | (a3 | b3),
{
}

/// Each usage bit is set exactly if the bind flag or the usage that it stands
/// for is present, and no other bit is ever set.
pub proof fn lemma_usage_flags(usage: Usage, bind: Set<BindFlag>)
    ensures
        forall|flag: BindFlag| #[trigger]
            has_flag(usage_flags(usage, bind), flag.usage_bit()) <==> bind.contains(flag),
        has_flag(usage_flags(usage, bind), IMAGE_USAGE_TRANSFER_SRC_BIT)
            <==> usage.is_transfer_source(),
        has_flag(usage_flags(usage, bind), IMAGE_USAGE_TRANSFER_DST_BIT)
            <==> usage.is_transfer_destination(),
        usage_flags(usage, bind) <= 0x3F,
{
    lemma_or_identities(0);
    lemma_mask_bits(
        flag_usage(bind, BindFlag::RenderTarget),
        flag_usage(bind, BindFlag::DepthStencil),
        flag_usage(bind, BindFlag::ShaderResource),
        flag_usage(bind, BindFlag::UnorderedAccess),
        transfer_usage(usage),
    );
}

/// Bind flags add up: the usage bits of a union of two sets are the usage
/// bits of the one together with those of the other, in either order.
pub proof fn lemma_bind_usage_adds_up(a: Set<BindFlag>, b: Set<BindFlag>)
    ensures
        bind_usage(a.union(b)) == bind_usage(a) | bind_usage(b),
        bind_usage(a.union(b)) == bind_usage(b.union(a)),
{
    assert forall|flag: BindFlag| #[trigger]
        flag_usage(a.union(b), flag) == flag_usage(a, flag) | flag_usage(b, flag) by {
        lemma_or_identities(flag.usage_bit());
        lemma_or_identities(0);
    }
    lemma_joined_masks(
        flag_usage(a, BindFlag::RenderTarget),
        flag_usage(a, BindFlag::DepthStencil),
        flag_usage(a, BindFlag::ShaderResource),
        flag_usage(a, BindFlag::UnorderedAccess),
        flag_usage(b, BindFlag::RenderTarget),
        flag_usage(b, BindFlag::DepthStencil),
        flag_usage(b, BindFlag::ShaderResource),
        flag_usage(b, BindFlag::UnorderedAccess),
    );
    assert(a.union(b) =~= b.union(a));
}

/// A GPU-only image can be copied from and copied to, and is tiled optimally,
/// whatever it is bound as.
pub proof fn lemma_gpu_only_transfers_both_ways(bind: Set<BindFlag>)
    ensures
        has_flag(usage_flags(Usage::GpuOnly, bind), IMAGE_USAGE_TRANSFER_SRC_BIT),
        has_flag(usage_flags(Usage::GpuOnly, bind), IMAGE_USAGE_TRANSFER_DST_BIT),
        tiling_of(Usage::GpuOnly) == IMAGE_TILING_OPTIMAL,
{
    lemma_usage_flags(Usage::GpuOnly, bind);
}

/// A staging image that the CPU reads and writes is tiled linearly and can be
/// copied from and copied to, whatever it is bound as.
pub proof fn lemma_cpu_read_write_transfers_both_ways(bind: Set<BindFlag>)
    ensures
        tiling_of(Usage::CpuOnly(MapAccess::RW)) == IMAGE_TILING_LINEAR,
        has_flag(usage_flags(Usage::CpuOnly(MapAccess::RW), bind), IMAGE_USAGE_TRANSFER_SRC_BIT),
        has_flag(usage_flags(Usage::CpuOnly(MapAccess::RW), bind), IMAGE_USAGE_TRANSFER_DST_BIT),
{
    lemma_usage_flags(Usage::CpuOnly(MapAccess::RW), bind);
}

/// The native usage mask and tiling of an image that lives as `usage` says
/// and is bound as `bind` says.
///
/// Each bind flag contributes its own usage bit; the usage decides the tiling
/// and adds the transfer bits.
pub fn map_usage_tiling(usage: Usage, bind: Bind) -> (r: (ImageUsageFlags, ImageTiling))
    ensures
        r.0 == usage_flags(usage, bind@),
        r.1 == tiling_of(usage),
        forall|flag: BindFlag| #[trigger] has_flag(r.0, flag.usage_bit()) <==> bind@.contains(flag),
        has_flag(r.0, IMAGE_USAGE_TRANSFER_SRC_BIT) <==> usage.is_transfer_source(),
        has_flag(r.0, IMAGE_USAGE_TRANSFER_DST_BIT) <==> usage.is_transfer_destination(),
        r.0 <= 0x3F,
{
    let mut flags: ImageUsageFlags = 0;
    if bind.contains(BindFlag::RenderTarget) {
        flags = flags | IMAGE_USAGE_COLOR_ATTACHMENT_BIT;
    }
    proof {
        lemma_or_identities(IMAGE_USAGE_COLOR_ATTACHMENT_BIT);
        lemma_or_identities(flags);
    }
    if bind.contains(BindFlag::DepthStencil) {
        flags = flags | IMAGE_USAGE_DEPTH_STENCIL_ATTACHMENT_BIT;
    }
    proof {
        lemma_or_identities(flags);
    }
    if bind.contains(BindFlag::ShaderResource) {
        flags = flags | IMAGE_USAGE_SAMPLED_BIT;
    }
    proof {
        lemma_or_identities(flags);
    }
    if bind.contains(BindFlag::UnorderedAccess) {
        flags = flags | IMAGE_USAGE_STORAGE_BIT;
    }
    proof {
        lemma_or_identities(flags);
    }
    let tiling: ImageTiling = match usage {
        Usage::Const => IMAGE_TILING_OPTIMAL,
        Usage::GpuOnly => {
            flags = flags | (IMAGE_USAGE_TRANSFER_SRC_BIT | IMAGE_USAGE_TRANSFER_DST_BIT);
            IMAGE_TILING_OPTIMAL
        },
        Usage::Dynamic => {
            flags = flags | IMAGE_USAGE_TRANSFER_DST_BIT;
            IMAGE_TILING_LINEAR
        },
        Usage::CpuOnly(access) => {
            let transfer: ImageUsageFlags = match access {
                MapAccess::Readable => IMAGE_USAGE_TRANSFER_DST_BIT,
                MapAccess::Writable => IMAGE_USAGE_TRANSFER_SRC_BIT,
                MapAccess::RW => IMAGE_USAGE_TRANSFER_SRC_BIT | IMAGE_USAGE_TRANSFER_DST_BIT,
            };
            flags = flags | transfer;
            IMAGE_TILING_LINEAR
        },
    };
    proof {
        lemma_usage_flags(usage, bind@);
    }
    (flags, tiling)
}

/// The layout in which an image bound as `bind` is kept: the general layout,
/// whatever the flags, because the layout of an image cannot be followed once
/// it is bound to a descriptor.
pub fn map_image_layout(bind: Bind) -> (r: ImageLayout)
    ensures
        r == IMAGE_LAYOUT_GENERAL,
{
    IMAGE_LAYOUT_GENERAL
}

} // verus!
