//! The loaded fonts and the bindings that expose them to a draw call.
//!
//! Two layouts are offered. With one bind group per font, a draw picks its
//! font by switching the bind group. With one combined bind group, every
//! font texture sits in a slot of its own and a draw picks its font by a
//! number handed over with its other per-draw state.

use vstd::prelude::*;
use crate::fonts::{Font, FontSize, FontView, FONT_COUNT};

verus! {

/// Size in bytes of the uniform that holds the size of a glyph cell: two
/// 32-bit floats.
pub const CELL_UNIFORM_SIZE: u64 = 8;

/// Size in bytes of the uniform that holds the size of the viewport: two
/// 32-bit floats.
pub const VIEWPORT_UNIFORM_SIZE: u64 = 8;

/// How a texture coordinate outside the texture is handled.
#[derive(Clone, Copy, PartialEq, Eq, Debug, Structural)]
pub enum AddressMode {
    ClampToEdge,
    Repeat,
    MirrorRepeat,
}

/// How texels are combined when a texture is sampled.
#[derive(Clone, Copy, PartialEq, Eq, Debug, Structural)]
pub enum FilterMode {
    Nearest,
    Linear,
}

/// The settings of the sampler that all fonts share.
#[derive(Clone, Copy, PartialEq, Eq, Debug, Structural)]
pub struct SamplerPlan {
    pub address_mode_u: AddressMode,
    pub address_mode_v: AddressMode,
    pub address_mode_w: AddressMode,
    pub mag_filter: FilterMode,
    pub min_filter: FilterMode,
    pub mipmap_filter: FilterMode,
}

/// The font sampler: clamped to the edge on every axis, linear when a glyph
/// is magnified, nearest otherwise (a font sheet has no mip chain).
pub open spec fn font_sampler() -> SamplerPlan {
    SamplerPlan {
        address_mode_u: AddressMode::ClampToEdge,
        address_mode_v: AddressMode::ClampToEdge,
        address_mode_w: AddressMode::ClampToEdge,
        mag_filter: FilterMode::Linear,
        min_filter: FilterMode::Nearest,
        mipmap_filter: FilterMode::Nearest,
    }
}

/// The settings of the sampler that all fonts share.
pub fn sampler_plan() -> (plan: SamplerPlan)
    ensures
        plan == font_sampler(),
{
    SamplerPlan {
        address_mode_u: AddressMode::ClampToEdge,
        address_mode_v: AddressMode::ClampToEdge,
        address_mode_w: AddressMode::ClampToEdge,
        mag_filter: FilterMode::Linear,
        min_filter: FilterMode::Nearest,
        mipmap_filter: FilterMode::Nearest,
    }
}

/// The shader stage that sees a binding.
#[derive(Clone, Copy, PartialEq, Eq, Debug, Structural)]
pub enum Stage {
    Vertex,
    Fragment,
}

/// The kind of resource that a binding slot takes.
#[derive(Clone, Copy, PartialEq, Eq, Debug, Structural)]
pub enum BindingKind {
    /// A two-dimensional texture of filterable floats, not multisampled.
    Texture,
    /// A filtering sampler.
    Sampler,
    /// A uniform buffer of at least `min_size` bytes, bound at a fixed
    /// offset.
    Uniform { min_size: u64 },
    /// A read-only storage buffer of at least `min_size` bytes; `dynamic`
    /// where each draw gives the offset at which it is bound.
    Storage { min_size: u64, dynamic: bool },
}

/// One slot of a bind group layout.
#[derive(Clone, Copy, PartialEq, Eq, Debug, Structural)]
pub struct LayoutEntry {
    pub binding: u32,
    pub visibility: Stage,
    pub kind: BindingKind,
}

/// What is bound to a slot of a font bind group.
#[derive(Clone, Copy, PartialEq, Eq, Debug, Structural)]
pub enum Resource {
    /// The texture of the font at this position in load order.
    FontTexture { font: usize },
    /// The sampler that all fonts share.
    Sampler,
    /// The uniform that holds the cell size of the font at this position.
    CellSize { font: usize },
}

/// One bound slot of a bind group.
#[derive(Clone, Copy, PartialEq, Eq, Debug, Structural)]
pub struct BindGroupEntry {
    pub binding: u32,
    pub resource: Resource,
}

/// The slot of a font texture.
pub open spec fn texture_entry(binding: u32) -> LayoutEntry {
    LayoutEntry { binding, visibility: Stage::Fragment, kind: BindingKind::Texture }
}

/// The slot of the shared sampler.
pub open spec fn sampler_entry(binding: u32) -> LayoutEntry {
    LayoutEntry { binding, visibility: Stage::Fragment, kind: BindingKind::Sampler }
}

/// The slot of a font's cell size.
pub open spec fn cell_size_entry(binding: u32) -> LayoutEntry {
    LayoutEntry {
        binding,
        visibility: Stage::Vertex,
        kind: BindingKind::Uniform { min_size: CELL_UNIFORM_SIZE },
    }
}

/// The layout of a bind group that holds one font: its texture at 0, the
/// sampler at 1, its cell size at 2.
pub open spec fn per_font_layout() -> Seq<LayoutEntry> {
    seq![texture_entry(0), sampler_entry(1), cell_size_entry(2)]
}

/// The layout of the bind group that holds `fonts` fonts at once: the
/// textures at `0..fonts` in load order, the sampler behind them.
pub open spec fn combined_layout(fonts: nat) -> Seq<LayoutEntry> {
    Seq::new(
        fonts + 1,
        |i: int|
            if i < fonts {
                texture_entry(i as u32)
            } else {
                sampler_entry(i as u32)
            },
    )
}

/// The bind group of the font at position `font`, for [`per_font_layout`].
pub open spec fn per_font_group(font: usize) -> Seq<BindGroupEntry> {
    seq![
        BindGroupEntry { binding: 0, resource: Resource::FontTexture { font } },
        BindGroupEntry { binding: 1, resource: Resource::Sampler },
        BindGroupEntry { binding: 2, resource: Resource::CellSize { font } },
    ]
}

/// The one bind group for [`combined_layout`].
pub open spec fn combined_group(fonts: nat) -> Seq<BindGroupEntry> {
    Seq::new(
        fonts + 1,
        |i: int|
            if i < fonts {
                BindGroupEntry { binding: i as u32, resource: Resource::FontTexture { font: i as usize } }
            } else {
                BindGroupEntry { binding: i as u32, resource: Resource::Sampler }
            },
    )
}

/// The layout of the bind group that a frame's draws share: the payload at
/// 0, a read-only storage buffer of `payload_size` bytes, bound at an offset
/// of each draw's own where `dynamic`; the size of the viewport at 1, a
/// uniform of two 32-bit floats. Both are seen by the vertex stage.
pub open spec fn frame_layout(payload_size: u64, dynamic: bool) -> Seq<LayoutEntry> {
    seq![
        LayoutEntry {
            binding: 0,
            visibility: Stage::Vertex,
            kind: BindingKind::Storage { min_size: payload_size, dynamic },
        },
        LayoutEntry {
            binding: 1,
            visibility: Stage::Vertex,
            kind: BindingKind::Uniform { min_size: VIEWPORT_UNIFORM_SIZE },
        },
    ]
}

/// Builds [`frame_layout`].
pub fn build_frame_layout(payload_size: u64, dynamic: bool) -> (layout: Vec<LayoutEntry>)
    ensures
        layout@ == frame_layout(payload_size, dynamic),
{
    let mut layout: Vec<LayoutEntry> = Vec::new();
    layout.push(
        LayoutEntry {
            binding: 0,
            visibility: Stage::Vertex,
            kind: BindingKind::Storage { min_size: payload_size, dynamic },
        },
    );
    layout.push(
        LayoutEntry {
            binding: 1,
            visibility: Stage::Vertex,
            kind: BindingKind::Uniform { min_size: VIEWPORT_UNIFORM_SIZE },
        },
    );
    layout
}

/// Builds [`per_font_layout`].
pub fn build_per_font_layout() -> (layout: Vec<LayoutEntry>)
    ensures
        layout@ == per_font_layout(),
{
    let mut layout: Vec<LayoutEntry> = Vec::new();
    layout.push(LayoutEntry { binding: 0, visibility: Stage::Fragment, kind: BindingKind::Texture });
    layout.push(LayoutEntry { binding: 1, visibility: Stage::Fragment, kind: BindingKind::Sampler });
    layout.push(
        LayoutEntry {
            binding: 2,
            visibility: Stage::Vertex,
            kind: BindingKind::Uniform { min_size: CELL_UNIFORM_SIZE },
        },
    );
    layout
}

/// Builds [`combined_layout`] for `fonts` fonts.
pub fn build_combined_layout(fonts: u32) -> (layout: Vec<LayoutEntry>)
    ensures
        layout@ == combined_layout(fonts as nat),
{
    let mut layout: Vec<LayoutEntry> = Vec::new();
    let mut i: u32 = 0;
    while i < fonts
        invariant
            i <= fonts,
            layout@.len() == i,
            forall|k: int| 0 <= k < i ==> layout@[k] == texture_entry(k as u32),
        decreases fonts - i,
    {
        layout.push(LayoutEntry { binding: i, visibility: Stage::Fragment, kind: BindingKind::Texture });
        i += 1;
    }
    layout.push(LayoutEntry { binding: fonts, visibility: Stage::Fragment, kind: BindingKind::Sampler });
    layout
}

/// Which bind groups expose the fonts.
#[derive(Clone, Copy, PartialEq, Eq, Debug, Structural)]
pub enum BindingPolicy {
    /// One bind group for each font. A draw switches the bind group to pick
    /// its font; the number of fonts is not limited.
    PerFont,
    /// One bind group that holds every font texture. A draw picks its font
    /// by number; the device binds at most `max_textures` textures in one
    /// group.
    Combined { max_textures: u32 },
}

/// Why the registry refused.
#[derive(Clone, Copy, PartialEq, Eq, Debug, Structural)]
pub enum RegistryError {
    /// There are more fonts than the device binds in one group.
    BindingBudget,
    /// No font was loaded at the position that was asked for.
    NotLoaded,
}

/// Where a draw finds its font.
#[derive(Clone, Copy, PartialEq, Eq, Debug, Structural)]
pub struct FontBinding {
    /// Which of the registry's bind groups to set.
    pub group: usize,
    /// The slot of the font's texture in that bind group.
    pub texture: u32,
}

/// Whether `fonts` fonts can be bound under a policy.
pub open spec fn within_budget(policy: BindingPolicy, fonts: nat) -> bool {
    match policy {
        BindingPolicy::PerFont => true,
        BindingPolicy::Combined { max_textures } => fonts <= max_textures,
    }
}

/// The layout of a font bind group under a policy.
pub open spec fn layout_for(policy: BindingPolicy, fonts: nat) -> Seq<LayoutEntry> {
    match policy {
        BindingPolicy::PerFont => per_font_layout(),
        BindingPolicy::Combined { .. } => combined_layout(fonts),
    }
}

/// The bind groups that expose `fonts` fonts under a policy.
pub open spec fn groups_for(policy: BindingPolicy, fonts: nat) -> Seq<Seq<BindGroupEntry>> {
    match policy {
        BindingPolicy::PerFont => Seq::new(fonts, |i: int| per_font_group(i as usize)),
        BindingPolicy::Combined { .. } => seq![combined_group(fonts)],
    }
}

/// Where a draw finds the font at position `slot` under a policy.
pub open spec fn binding_for(policy: BindingPolicy, slot: nat) -> FontBinding {
    match policy {
        BindingPolicy::PerFont => FontBinding { group: slot as usize, texture: 0 },
        BindingPolicy::Combined { .. } => FontBinding { group: 0, texture: slot as u32 },
    }
}

/// Under the combined policy there is one bind group, with one binding for
/// each font and one more for the sampler. Under the other there is one
/// bind group for each font, and no two of them are the same.
pub proof fn lemma_binding_counts(policy: BindingPolicy, fonts: nat)
    requires
        fonts <= usize::MAX,
    ensures
        policy is Combined ==> layout_for(policy, fonts).len() == fonts + 1 && groups_for(
            policy,
            fonts,
        ).len() == 1 && groups_for(policy, fonts)[0].len() == fonts + 1,
        policy is PerFont ==> groups_for(policy, fonts).len() == fonts,
        policy is PerFont ==> forall|i: int, j: int|
            0 <= i < j < fonts ==> #[trigger] groups_for(policy, fonts)[i] != #[trigger] groups_for(
                policy,
                fonts,
            )[j],
{
}

/// Under either policy, the binding of a font names that font and no other:
/// different positions in load order have different bindings.
pub proof fn lemma_binding_unique(policy: BindingPolicy, first: nat, second: nat)
    requires
        first < FONT_COUNT,
        second < FONT_COUNT,
        first != second,
    ensures
        binding_for(policy, first) != binding_for(policy, second),
{
}

/// What each font of a list holds.
pub open spec fn font_views(fonts: Seq<Font>) -> Seq<FontView> {
    Seq::new(fonts.len(), |i: int| fonts[i]@)
}

/// The loaded fonts, in load order, with the bindings that expose them.
/// Nothing is added to a registry, taken from it or replaced in it once it
/// is built.
#[derive(Debug)]
pub struct Fonts {
    bind_group_layout: Vec<LayoutEntry>,
    fonts: Vec<Font>,
    policy: BindingPolicy,
}

/// What a registry holds.
pub struct FontsView {
    pub fonts: Seq<FontView>,
    pub policy: BindingPolicy,
}

impl View for Fonts {
    type V = FontsView;

    closed spec fn view(&self) -> FontsView {
        FontsView { fonts: font_views(self.fonts@), policy: self.policy }
    }
}

impl Fonts {
    #[verifier::type_invariant]
    spec fn inv(&self) -> bool {
        &&& within_budget(self.policy, self.fonts@.len())
        &&& self.bind_group_layout@ == layout_for(self.policy, self.fonts@.len())
    }

    /// Builds the registry of the given fonts, which stay in their order.
    /// Under [`BindingPolicy::Combined`] it refuses more fonts than the
    /// device binds in one group.
    pub fn new(fonts: Vec<Font>, policy: BindingPolicy) -> (result: Result<Fonts, RegistryError>)
        ensures
            match result {
                Ok(registry) => within_budget(policy, fonts@.len())
                    && registry@.fonts == font_views(fonts@)
                    && registry@.policy == policy,
                Err(cause) => !within_budget(policy, fonts@.len())
                    && cause == RegistryError::BindingBudget,
            },
    {
        match policy {
            BindingPolicy::PerFont => {
                Ok(Fonts { bind_group_layout: build_per_font_layout(), fonts, policy })
            },
            BindingPolicy::Combined { max_textures } => {
                if fonts.len() > max_textures as usize {
                    Err(RegistryError::BindingBudget)
                } else {
                    let count: u32 = fonts.len() as u32;
                    Ok(Fonts { bind_group_layout: build_combined_layout(count), fonts, policy })
                }
            },
        }
    }

    /// The policy that the registry was built under.
    pub fn policy(&self) -> (policy: BindingPolicy)
        ensures
            policy == self@.policy,
            within_budget(policy, self@.fonts.len()),
    {
        proof {
            use_type_invariant(self);
        }
        self.policy
    }

    /// The number of loaded fonts.
    pub fn len(&self) -> (count: usize)
        ensures
            count == self@.fonts.len(),
    {
        self.fonts.len()
    }

    /// The loaded fonts, in load order.
    pub fn fonts(&self) -> (fonts: &Vec<Font>)
        ensures
            font_views(fonts@) == self@.fonts,
    {
        &self.fonts
    }

    /// The layout of a font bind group: [`layout_for`] the registry's
    /// policy and number of fonts.
    pub fn bind_group_layout(&self) -> (layout: &Vec<LayoutEntry>)
        ensures
            layout@ == layout_for(self@.policy, self@.fonts.len()),
    {
        proof {
            use_type_invariant(self);
        }
        &self.bind_group_layout
    }

    /// The font at `index` in load order. An index beyond the loaded fonts
    /// is refused.
    pub fn font(&self, index: usize) -> (result: Result<&Font, RegistryError>)
        ensures
            match result {
                Ok(font) => index < self@.fonts.len() && font@ == self@.fonts[index as int],
                Err(cause) => index >= self@.fonts.len() && cause == RegistryError::NotLoaded,
            },
    {
        if index < self.fonts.len() {
            Ok(&self.fonts[index])
        } else {
            Err(RegistryError::NotLoaded)
        }
    }

    /// The font that a selector names: the one at the selector's position
    /// in load order.
    pub fn get(&self, size: FontSize) -> (result: Result<&Font, RegistryError>)
        ensures
            match result {
                Ok(font) => size.slot() < self@.fonts.len()
                    && font@ == self@.fonts[size.slot() as int],
                Err(cause) => size.slot() >= self@.fonts.len()
                    && cause == RegistryError::NotLoaded,
            },
    {
        self.font(size.index())
    }

    /// Where a draw finds the font that a selector names, whichever policy
    /// the registry was built under.
    pub fn select(&self, size: FontSize) -> (result: Result<FontBinding, RegistryError>)
        ensures
            match result {
                Ok(binding) => size.slot() < self@.fonts.len()
                    && binding == binding_for(self@.policy, size.slot()),
                Err(cause) => size.slot() >= self@.fonts.len()
                    && cause == RegistryError::NotLoaded,
            },
    {
        let index: usize = size.index();
        if index >= self.fonts.len() {
            return Err(RegistryError::NotLoaded);
        }
        match self.policy {
            BindingPolicy::PerFont => Ok(FontBinding { group: index, texture: 0 }),
            BindingPolicy::Combined { .. } => Ok(FontBinding { group: 0, texture: index as u32 }),
        }
    }

    /// The bind groups that expose the fonts: [`groups_for`] the registry's
    /// policy and number of fonts.
    pub fn bind_groups(&self) -> (groups: Vec<Vec<BindGroupEntry>>)
        ensures
            groups@.len() == groups_for(self@.policy, self@.fonts.len()).len(),
            forall|g: int|
                0 <= g < groups@.len() ==> (#[trigger] groups@[g])@ == groups_for(
                    self@.policy,
                    self@.fonts.len(),
                )[g],
    {
        proof {
            use_type_invariant(self);
        }
        let count: usize = self.fonts.len();
        let mut groups: Vec<Vec<BindGroupEntry>> = Vec::new();
        match self.policy {
            BindingPolicy::PerFont => {
                let mut font: usize = 0;
                while font < count
                    invariant
                        font <= count,
                        groups@.len() == font,
                        forall|g: int|
                            0 <= g < font ==> (#[trigger] groups@[g])@ == per_font_group(
                                g as usize,
                            ),
                    decreases count - font,
                {
                    let mut group: Vec<BindGroupEntry> = Vec::new();
                    group.push(BindGroupEntry { binding: 0, resource: Resource::FontTexture { font } });
                    group.push(BindGroupEntry { binding: 1, resource: Resource::Sampler });
                    group.push(BindGroupEntry { binding: 2, resource: Resource::CellSize { font } });
                    groups.push(group);
                    font += 1;
                }
            },
            BindingPolicy::Combined { .. } => {
                let mut group: Vec<BindGroupEntry> = Vec::new();
                let mut font: usize = 0;
                while font < count
                    invariant
                        font <= count,
                        count <= u32::MAX,
                        group@.len() == font,
                        forall|k: int|
                            0 <= k < font ==> group@[k] == (BindGroupEntry {
                                binding: k as u32,
                                resource: Resource::FontTexture { font: k as usize },
                            }),
                    decreases count - font,
                {
                    group.push(
                        BindGroupEntry { binding: font as u32, resource: Resource::FontTexture { font } },
                    );
                    font += 1;
                }
                group.push(BindGroupEntry { binding: count as u32, resource: Resource::Sampler });
                groups.push(group);
            },
        }
        groups
    }
}

} // verus!
