//! The sampler, the bind-group layout and the bind group that both pipelines
//! share.
//!
//! The bound resources are named, not numbered: a bind-group entry says which
//! of the renderer's resources stands at a binding index, and the rules below
//! say when such an entry answers the layout's entry at that index.

use vstd::prelude::*;
use crate::rendering::flags::ShaderStages;
use crate::rendering::flags::{
    STAGE_ALL, STAGE_COMPUTE, STAGE_FRAGMENT, TEXTURE_BINDING, TEXTURE_STORAGE_BINDING,
};
use crate::rendering::texture::{
    lemma_pair_wf, Extent3d, TexelFormat, TextureDescriptor, TextureDimension, TexturePair,
};

verus! {

/// Binding index of the texture that the compute stage writes.
pub const OUTPUT_BINDING: u32 = 0;

/// Binding index of the texture that the fragment stage samples.
pub const DISPLAY_BINDING: u32 = 1;

/// Binding index of the sampler.
pub const SAMPLER_BINDING: u32 = 2;

/// What a sampler does with coordinates outside the texture.
#[derive(Clone, Copy, Debug, PartialEq, Eq, Structural)]
pub enum AddressMode {
    ClampToEdge,
    Repeat,
    MirrorRepeat,
    ClampToBorder,
}

/// How a sampler picks a color between texels.
#[derive(Clone, Copy, Debug, PartialEq, Eq, Structural)]
pub enum FilterMode {
    Nearest,
    Linear,
}

/// What a sampler is created from.
#[derive(Clone, Copy, Debug, PartialEq, Eq, Structural)]
pub struct SamplerDescriptor {
    pub address_mode_u: AddressMode,
    pub address_mode_v: AddressMode,
    pub address_mode_w: AddressMode,
    pub mag_filter: FilterMode,
    pub min_filter: FilterMode,
    pub mipmap_filter: FilterMode,
}

/// The shape of the view through which a texture is bound.
#[derive(Clone, Copy, Debug, PartialEq, Eq, Structural)]
pub enum TextureViewDimension {
    D1,
    D2,
    D2Array,
    Cube,
    CubeArray,
    D3,
}

/// What sampling a texture yields.
#[derive(Clone, Copy, Debug, PartialEq, Eq, Structural)]
pub enum TextureSampleType {
    Float { filterable: bool },
    Depth,
    Sint,
    Uint,
}

/// What a shader may do with a storage texture.
#[derive(Clone, Copy, Debug, PartialEq, Eq, Structural)]
pub enum StorageTextureAccess {
    WriteOnly,
    ReadOnly,
    ReadWrite,
}

/// What kind of sampler a binding takes.
#[derive(Clone, Copy, Debug, PartialEq, Eq, Structural)]
pub enum SamplerBindingType {
    Filtering,
    NonFiltering,
    Comparison,
}

/// What kind of resource a binding takes.
#[derive(Clone, Copy, Debug, PartialEq, Eq, Structural)]
pub enum BindingType {
    Sampler(SamplerBindingType),
    Texture { sample_type: TextureSampleType, view_dimension: TextureViewDimension, multisampled: bool },
    StorageTexture { access: StorageTextureAccess, format: TexelFormat, view_dimension: TextureViewDimension },
}

/// One entry of a bind-group layout.
#[derive(Clone, Copy, Debug, PartialEq, Eq, Structural)]
pub struct BindGroupLayoutEntry {
    pub binding: u32,
    pub visibility: ShaderStages,
    pub ty: BindingType,
}

/// The resources of the renderer that can be bound, by name.
#[derive(Clone, Copy, Debug, PartialEq, Eq, Structural)]
pub enum Resource {
    /// A view of the whole texture that the compute stage writes.
    Output,
    /// A view of the whole texture that the display stage samples.
    Display,
    /// The sampler.
    Sampler,
}

/// One entry of a bind group: the resource that stands at a binding index.
#[derive(Clone, Copy, Debug, PartialEq, Eq, Structural)]
pub struct BindGroupEntry {
    pub binding: u32,
    pub resource: Resource,
}

impl Resource {
    /// The binding index at which the resource stands.
    pub open spec fn spec_binding(self) -> u32 {
        match self {
            Resource::Output => OUTPUT_BINDING,
            Resource::Display => DISPLAY_BINDING,
            Resource::Sampler => SAMPLER_BINDING,
        }
    }

    /// The binding index at which the resource stands, in the bind group and
    /// in the shader alike: the output texture at 0, the display texture at
    /// 1, the sampler at 2.
    #[verifier::when_used_as_spec(spec_binding)]
    pub fn binding(self) -> (index: u32)
        ensures
            index == self.spec_binding(),
    {
        match self {
            Resource::Output => OUTPUT_BINDING,
            Resource::Display => DISPLAY_BINDING,
            Resource::Sampler => SAMPLER_BINDING,
        }
    }
}

impl SamplerDescriptor {
    /// The sampler through which the quad reads the display texture.
    pub open spec fn spec_display() -> SamplerDescriptor {
        SamplerDescriptor {
            address_mode_u: AddressMode::ClampToEdge,
            address_mode_v: AddressMode::ClampToEdge,
            address_mode_w: AddressMode::ClampToEdge,
            mag_filter: FilterMode::Linear,
            min_filter: FilterMode::Nearest,
            mipmap_filter: FilterMode::Nearest,
        }
    }

    /// The sampler picks between texels in some direction, so it needs a
    /// binding that takes filtering samplers.
    pub open spec fn filters(self) -> bool {
        ||| self.mag_filter == FilterMode::Linear
        ||| self.min_filter == FilterMode::Linear
        ||| self.mipmap_filter == FilterMode::Linear
    }

    /// The sampler through which the quad reads the display texture: it
    /// clamps to the edge in every direction, magnifies linearly and
    /// minifies to the nearest texel.
    #[verifier::when_used_as_spec(spec_display)]
    pub fn display() -> (sampler: SamplerDescriptor)
        ensures
            sampler == SamplerDescriptor::spec_display(),
    {
        SamplerDescriptor {
            address_mode_u: AddressMode::ClampToEdge,
            address_mode_v: AddressMode::ClampToEdge,
            address_mode_w: AddressMode::ClampToEdge,
            mag_filter: FilterMode::Linear,
            min_filter: FilterMode::Nearest,
            mipmap_filter: FilterMode::Nearest,
        }
    }
}

/// The layout's entry for the texture that the compute stage writes.
pub open spec fn output_layout_entry() -> BindGroupLayoutEntry {
    BindGroupLayoutEntry {
        binding: OUTPUT_BINDING,
        visibility: ShaderStages { bits: STAGE_COMPUTE },
        ty: BindingType::StorageTexture {
            access: StorageTextureAccess::WriteOnly,
            format: TexelFormat::Rgba8Unorm,
            view_dimension: TextureViewDimension::D2,
        },
    }
}

/// The layout's entry for the texture that the fragment stage samples.
pub open spec fn display_layout_entry() -> BindGroupLayoutEntry {
    BindGroupLayoutEntry {
        binding: DISPLAY_BINDING,
        visibility: ShaderStages { bits: STAGE_FRAGMENT },
        ty: BindingType::Texture {
            sample_type: TextureSampleType::Float { filterable: true },
            view_dimension: TextureViewDimension::D2,
            multisampled: false,
        },
    }
}

/// The layout's entry for the sampler.
pub open spec fn sampler_layout_entry() -> BindGroupLayoutEntry {
    BindGroupLayoutEntry {
        binding: SAMPLER_BINDING,
        visibility: ShaderStages { bits: STAGE_ALL },
        ty: BindingType::Sampler(SamplerBindingType::Filtering),
    }
}

/// The bind-group layout that both pipelines are built on.
pub open spec fn spec_bind_group_layout() -> Seq<BindGroupLayoutEntry> {
    seq![output_layout_entry(), display_layout_entry(), sampler_layout_entry()]
}

/// The bind group that both passes bind.
pub open spec fn spec_bind_group() -> Seq<BindGroupEntry> {
    seq![
        BindGroupEntry { binding: OUTPUT_BINDING, resource: Resource::Output },
        BindGroupEntry { binding: DISPLAY_BINDING, resource: Resource::Display },
        BindGroupEntry { binding: SAMPLER_BINDING, resource: Resource::Sampler },
    ]
}

/// A view of the whole of `texture` has the shape `view`.
pub open spec fn default_view_is(texture: TextureDescriptor, view: TextureViewDimension) -> bool {
    match texture.dimension {
        TextureDimension::D1 => view == TextureViewDimension::D1,
        TextureDimension::D2 => if texture.size.depth_or_array_layers == 1 {
            view == TextureViewDimension::D2
        } else {
            view == TextureViewDimension::D2Array
        },
        TextureDimension::D3 => view == TextureViewDimension::D3,
    }
}

/// A view of the whole of `texture` can stand at a binding of the kind `ty`.
pub open spec fn texture_answers(ty: BindingType, texture: TextureDescriptor) -> bool {
    match ty {
        BindingType::Sampler(_) => false,
        BindingType::Texture { sample_type, view_dimension, multisampled } => {
            &&& texture.usage.bits & TEXTURE_BINDING == TEXTURE_BINDING
            &&& default_view_is(texture, view_dimension)
            &&& multisampled == (texture.sample_count > 1)
            &&& sample_type is Float
        },
        BindingType::StorageTexture { access, format, view_dimension } => {
            &&& texture.usage.bits & TEXTURE_STORAGE_BINDING == TEXTURE_STORAGE_BINDING
            &&& default_view_is(texture, view_dimension)
            &&& texture.format == format
            &&& texture.sample_count == 1
        },
    }
}

/// `sampler` can stand at a binding of the kind `ty`.
pub open spec fn sampler_answers(ty: BindingType, sampler: SamplerDescriptor) -> bool {
    match ty {
        BindingType::Sampler(SamplerBindingType::Filtering) => true,
        BindingType::Sampler(SamplerBindingType::NonFiltering) => !sampler.filters(),
        _ => false,
    }
}

/// The resource named `resource` can stand at a binding of the kind `ty`.
pub open spec fn resource_answers(
    ty: BindingType,
    resource: Resource,
    textures: TexturePair,
    sampler: SamplerDescriptor,
) -> bool {
    match resource {
        Resource::Output => texture_answers(ty, textures.output),
        Resource::Display => texture_answers(ty, textures.display),
        Resource::Sampler => sampler_answers(ty, sampler),
    }
}

/// The bind group `group` answers the layout `layout`: entry by entry the
/// binding indices agree and the named resource can stand at the binding, and
/// no binding index occurs twice.
pub open spec fn group_answers_layout(
    layout: Seq<BindGroupLayoutEntry>,
    group: Seq<BindGroupEntry>,
    textures: TexturePair,
    sampler: SamplerDescriptor,
) -> bool {
    &&& group.len() == layout.len()
    &&& forall|i: int|
        0 <= i < layout.len() ==> {
            &&& (#[trigger] group[i]).binding == layout[i].binding
            &&& resource_answers(layout[i].ty, group[i].resource, textures, sampler)
        }
    &&& forall|i: int, j: int|
        0 <= i < j < layout.len() ==> (#[trigger] layout[i]).binding != (#[trigger] layout[j]).binding
}

/// The bind-group layout that both pipelines are built on. It has three
/// entries: at 0 a write-only RGBA8 storage texture that the compute stage
/// sees, at 1 a filterable float texture that the fragment stage sees, at 2 a
/// filtering sampler that every stage sees.
pub fn bind_group_layout() -> (entries: Vec<BindGroupLayoutEntry>)
    ensures
        entries@ == spec_bind_group_layout(),
{
    let mut entries: Vec<BindGroupLayoutEntry> = Vec::new();
    entries.push(
        BindGroupLayoutEntry {
            binding: OUTPUT_BINDING,
            visibility: ShaderStages::compute(),
            ty: BindingType::StorageTexture {
                access: StorageTextureAccess::WriteOnly,
                format: TexelFormat::Rgba8Unorm,
                view_dimension: TextureViewDimension::D2,
            },
        },
    );
    entries.push(
        BindGroupLayoutEntry {
            binding: DISPLAY_BINDING,
            visibility: ShaderStages::fragment(),
            ty: BindingType::Texture {
                sample_type: TextureSampleType::Float { filterable: true },
                view_dimension: TextureViewDimension::D2,
                multisampled: false,
            },
        },
    );
    entries.push(
        BindGroupLayoutEntry {
            binding: SAMPLER_BINDING,
            visibility: ShaderStages::all(),
            ty: BindingType::Sampler(SamplerBindingType::Filtering),
        },
    );
    assert(entries@ =~= spec_bind_group_layout());
    entries
}

/// The bind group that both passes bind: the output texture at 0, the
/// display texture at 1 and the sampler at 2.
pub fn bind_group() -> (entries: Vec<BindGroupEntry>)
    ensures
        entries@ == spec_bind_group(),
{
    let mut entries: Vec<BindGroupEntry> = Vec::new();
    entries.push(BindGroupEntry { binding: Resource::Output.binding(), resource: Resource::Output });
    entries.push(BindGroupEntry { binding: Resource::Display.binding(), resource: Resource::Display });
    entries.push(BindGroupEntry { binding: Resource::Sampler.binding(), resource: Resource::Sampler });
    assert(entries@ =~= spec_bind_group());
    entries
}

/// The layout has exactly three entries, at the binding indices 0, 1 and 2:
/// a write-only storage texture that the compute stage sees and no other
/// stage, a sampled texture that the fragment stage sees and no other stage,
/// and a sampler that the vertex, fragment and compute stages see.
pub proof fn lemma_layout_shape()
    ensures
        spec_bind_group_layout().len() == 3,
        spec_bind_group_layout()[0].binding == 0,
        spec_bind_group_layout()[0].visibility.bits == STAGE_COMPUTE,
        spec_bind_group_layout()[0].ty matches BindingType::StorageTexture { access, .. }
            && access == StorageTextureAccess::WriteOnly,
        spec_bind_group_layout()[1].binding == 1,
        spec_bind_group_layout()[1].visibility.bits == STAGE_FRAGMENT,
        (spec_bind_group_layout()[1].ty is Texture),
        spec_bind_group_layout()[2].binding == 2,
        spec_bind_group_layout()[2].visibility.bits == STAGE_ALL,
        (spec_bind_group_layout()[2].ty is Sampler),
{
}

/// Each stage sees what it uses and nothing that belongs to the other pass:
/// the compute stage sees the output texture and not the display texture,
/// the fragment stage sees the display texture and not the output texture,
/// and both see the sampler.
pub proof fn lemma_stages_see_their_bindings()
    ensures
        output_layout_entry().visibility.spec_contains(ShaderStages { bits: STAGE_COMPUTE }),
        !output_layout_entry().visibility.spec_contains(ShaderStages { bits: STAGE_FRAGMENT }),
        display_layout_entry().visibility.spec_contains(ShaderStages { bits: STAGE_FRAGMENT }),
        !display_layout_entry().visibility.spec_contains(ShaderStages { bits: STAGE_COMPUTE }),
        sampler_layout_entry().visibility.spec_contains(ShaderStages { bits: STAGE_FRAGMENT }),
        sampler_layout_entry().visibility.spec_contains(ShaderStages { bits: STAGE_COMPUTE }),
{
    assert(0x04u32 & 0x04u32 == 0x04u32) by (bit_vector);
    assert(0x04u32 & 0x02u32 != 0x02u32) by (bit_vector);
    assert(0x02u32 & 0x02u32 == 0x02u32) by (bit_vector);
    assert(0x02u32 & 0x04u32 != 0x04u32) by (bit_vector);
    assert(0x07u32 & 0x02u32 == 0x02u32) by (bit_vector);
    assert(0x07u32 & 0x04u32 == 0x04u32) by (bit_vector);
}

/// Each resource stands at its own binding index, in the bind group and in
/// the layout: the entry at that index names the resource, and no other
/// entry does.
pub proof fn lemma_resources_at_their_bindings(resource: Resource)
    ensures
        0 <= resource.spec_binding() < 3,
        spec_bind_group()[resource.spec_binding() as int].resource == resource,
        spec_bind_group()[resource.spec_binding() as int].binding == resource.spec_binding(),
        spec_bind_group_layout()[resource.spec_binding() as int].binding == resource.spec_binding(),
        forall|i: int|
            0 <= i < 3 && (#[trigger] spec_bind_group()[i]).resource == resource ==> i
                == resource.spec_binding(),
{
}

/// Whatever the size of the two textures, the bind group answers the layout.
pub proof fn lemma_group_answers_layout(size: Extent3d)
    requires
        size.depth_or_array_layers == 1,
    ensures
        group_answers_layout(
            spec_bind_group_layout(),
            spec_bind_group(),
            TexturePair::spec_new(size),
            SamplerDescriptor::spec_display(),
        ),
{
    lemma_pair_wf(size);
    let layout = spec_bind_group_layout();
    let group = spec_bind_group();
    let textures = TexturePair::spec_new(size);
    let sampler = SamplerDescriptor::spec_display();
    assert forall|i: int| 0 <= i < layout.len() implies {
        &&& (#[trigger] group[i]).binding == layout[i].binding
        &&& resource_answers(layout[i].ty, group[i].resource, textures, sampler)
    } by {
        if i == 0 {
            assert(texture_answers(layout[0].ty, textures.output));
        } else if i == 1 {
            assert(texture_answers(layout[1].ty, textures.display));
        } else {
            assert(sampler_answers(layout[2].ty, sampler));
        }
    }
}

} // verus!
