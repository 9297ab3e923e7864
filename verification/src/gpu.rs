//! Plain descriptions of GPU resources and commands.

use vstd::prelude::*;

verus! {

/// Texel formats of the images that the viewer creates.
#[derive(Clone, Copy, Debug, PartialEq, Eq, Structural)]
pub enum TextureFormat {
    /// Four 8-bit normalized channels: the offscreen color target.
    Rgba8Unorm,
    /// One 32-bit scalar per texel: the sampled volume.
    R32Float,
    /// 32-bit depth.
    Depth32Float,
    /// Whatever format the presentable surface was configured with.
    Surface,
}

#[derive(Clone, Copy, Debug, PartialEq, Eq, Structural)]
pub enum TextureDimension {
    D2,
    D3,
}

/// Ways in which an image may be used, one flag each.
#[derive(Clone, Copy, Debug, PartialEq, Eq, Structural)]
pub struct TextureUsages {
    pub copy_src: bool,
    pub copy_dst: bool,
    pub texture_binding: bool,
    pub storage_binding: bool,
    pub render_attachment: bool,
}

#[derive(Clone, Copy, Debug, PartialEq, Eq, Structural)]
pub struct Extent3d {
    pub width: u32,
    pub height: u32,
    pub depth_or_array_layers: u32,
}

/// Everything the device needs to know to create an image.
#[derive(Clone, Copy, Debug, PartialEq, Eq, Structural)]
pub struct TextureDescriptor {
    pub size: Extent3d,
    pub mip_level_count: u32,
    pub sample_count: u32,
    pub dimension: TextureDimension,
    pub format: TextureFormat,
    pub usage: TextureUsages,
}

/// The size of the viewport, as the viewport-size uniform holds it.
#[derive(Clone, Copy, Debug, PartialEq, Eq, Structural)]
pub struct Viewport {
    pub width: u32,
    pub height: u32,
}

/// A view of a whole image, with the image's own format and dimension.
#[derive(Clone, Copy, Debug, PartialEq, Eq, Structural)]
pub struct TextureView {
    pub texture: TextureDescriptor,
}

/// The offscreen color target for a surface of the given size: an image
/// that compute programs write as storage and that the composite stage
/// samples.
pub open spec fn offscreen_target(width: u32, height: u32) -> TextureDescriptor {
    TextureDescriptor {
        size: Extent3d { width, height, depth_or_array_layers: 1 },
        mip_level_count: 1,
        sample_count: 1,
        dimension: TextureDimension::D2,
        format: TextureFormat::Rgba8Unorm,
        usage: TextureUsages {
            copy_src: false,
            copy_dst: true,
            texture_binding: true,
            storage_binding: true,
            render_attachment: false,
        },
    }
}

/// The offscreen target may be written as a storage image and sampled as a
/// texture, and it is no attachment that a render pass draws to.
pub proof fn lemma_offscreen_target_usage(width: u32, height: u32)
    ensures
        offscreen_target(width, height).usage.storage_binding,
        offscreen_target(width, height).usage.texture_binding,
        !offscreen_target(width, height).usage.render_attachment,
        offscreen_target(width, height).size == (Extent3d {
            width,
            height,
            depth_or_array_layers: 1,
        }),
{
}

/// Builds the descriptor of the offscreen color target.
pub fn create_offscreen_target(width: u32, height: u32) -> (t: TextureDescriptor)
    ensures
        t == offscreen_target(width, height),
{
    TextureDescriptor {
        size: Extent3d { width, height, depth_or_array_layers: 1 },
        mip_level_count: 1,
        sample_count: 1,
        dimension: TextureDimension::D2,
        format: TextureFormat::Rgba8Unorm,
        usage: TextureUsages {
            copy_src: false,
            copy_dst: true,
            texture_binding: true,
            storage_binding: true,
            render_attachment: false,
        },
    }
}

#[derive(Clone, Copy, Debug, PartialEq, Eq, Structural)]
pub enum AddressMode {
    ClampToEdge,
}

#[derive(Clone, Copy, Debug, PartialEq, Eq, Structural)]
pub enum FilterMode {
    Nearest,
    Linear,
}

/// A sampler, without its level-of-detail range.
#[derive(Clone, Copy, Debug, PartialEq, Eq, Structural)]
pub struct SamplerDescriptor {
    pub address_mode_u: AddressMode,
    pub address_mode_v: AddressMode,
    pub address_mode_w: AddressMode,
    pub mag_filter: FilterMode,
    pub min_filter: FilterMode,
    pub mipmap_filter: FilterMode,
    pub anisotropy_clamp: u16,
}

/// The one sampler that the viewer uses: it clamps coordinates to the
/// edge and returns the nearest texel, without interpolation within a
/// level or between levels and without anisotropy.
pub open spec fn nearest_sampler() -> SamplerDescriptor {
    SamplerDescriptor {
        address_mode_u: AddressMode::ClampToEdge,
        address_mode_v: AddressMode::ClampToEdge,
        address_mode_w: AddressMode::ClampToEdge,
        mag_filter: FilterMode::Nearest,
        min_filter: FilterMode::Nearest,
        mipmap_filter: FilterMode::Nearest,
        anisotropy_clamp: 1,
    }
}

impl SamplerDescriptor {
    /// Builds `nearest_sampler`.
    pub fn nearest() -> (s: SamplerDescriptor)
        ensures
            s == nearest_sampler(),
    {
        SamplerDescriptor {
            address_mode_u: AddressMode::ClampToEdge,
            address_mode_v: AddressMode::ClampToEdge,
            address_mode_w: AddressMode::ClampToEdge,
            mag_filter: FilterMode::Nearest,
            min_filter: FilterMode::Nearest,
            mipmap_filter: FilterMode::Nearest,
            anisotropy_clamp: 1,
        }
    }
}

#[derive(Clone, Copy, Debug, PartialEq, Eq, Structural)]
pub enum ShaderStage {
    Vertex,
    Fragment,
    Compute,
}

/// What a program expects at one binding.
#[derive(Clone, Copy, Debug, PartialEq, Eq, Structural)]
pub enum BindingType {
    /// A uniform buffer without dynamic offset.
    UniformBuffer,
    /// A storage buffer that the program may only read.
    ReadOnlyStorageBuffer,
    /// A two-dimensional storage image that the program may only write.
    WriteOnlyStorageTexture { format: TextureFormat },
    /// A sampled image of unfilterable floats, one sample per texel.
    Texture { view_dimension: TextureDimension },
    /// A sampler that does not filter.
    NonFilteringSampler,
}

#[derive(Clone, Copy, Debug, PartialEq, Eq, Structural)]
pub struct BindGroupLayoutEntry {
    pub binding: u32,
    pub visibility: ShaderStage,
    pub ty: BindingType,
}

/// The resources of a frame that a binding can name.
#[derive(Clone, Copy, Debug, PartialEq, Eq, Structural)]
pub enum BindingResource {
    /// A view of the offscreen color target.
    OffscreenTarget,
    /// A view of the three-dimensional scalar volume.
    Volume,
    /// The buffer that holds the camera uniform.
    CameraUniform,
    /// The buffer that holds the viewport size.
    ViewportSize,
    /// The buffer that holds the analytic primitives.
    Primitives,
    /// The nearest-texel sampler.
    Sampler,
}

#[derive(Clone, Copy, Debug, PartialEq, Eq, Structural)]
pub struct BindGroupEntry {
    pub binding: u32,
    pub resource: BindingResource,
}

/// Whether a resource can stand at a binding of type `ty`.
pub open spec fn fits(ty: BindingType, resource: BindingResource) -> bool {
    match ty {
        BindingType::UniformBuffer => resource == BindingResource::CameraUniform || resource
            == BindingResource::ViewportSize,
        BindingType::ReadOnlyStorageBuffer => resource == BindingResource::Primitives,
        BindingType::WriteOnlyStorageTexture { format } => resource
            == BindingResource::OffscreenTarget,
        BindingType::Texture { view_dimension } => match view_dimension {
            TextureDimension::D2 => resource == BindingResource::OffscreenTarget,
            TextureDimension::D3 => resource == BindingResource::Volume,
        },
        BindingType::NonFilteringSampler => resource == BindingResource::Sampler,
    }
}

/// A layout numbers its bindings from zero, in order, and shows all of them
/// to the one stage `stage`.
pub open spec fn layout_wf(layout: Seq<BindGroupLayoutEntry>, stage: ShaderStage) -> bool {
    forall|i: int|
        0 <= i < layout.len() ==> (#[trigger] layout[i]).binding == i && layout[i].visibility
            == stage
}

/// A bind group fills every binding of its layout, in order, with a resource
/// that fits.
pub open spec fn group_fits(layout: Seq<BindGroupLayoutEntry>, group: Seq<BindGroupEntry>) -> bool {
    &&& group.len() == layout.len()
    &&& forall|i: int|
        0 <= i < group.len() ==> (#[trigger] group[i]).binding == layout[i].binding && fits(
            layout[i].ty,
            group[i].resource,
        )
}

/// Whether a program bound through `layout` and `group` can write the
/// offscreen target.
pub open spec fn writes_target(layout: Seq<BindGroupLayoutEntry>, group: Seq<BindGroupEntry>) -> bool {
    exists|i: int|
        0 <= i < group.len() && i < layout.len() && (#[trigger] group[i]).resource
            == BindingResource::OffscreenTarget && layout[i].ty
            is WriteOnlyStorageTexture
}

/// Whether a program bound through `layout` and `group` can sample the
/// offscreen target.
pub open spec fn samples_target(layout: Seq<BindGroupLayoutEntry>, group: Seq<BindGroupEntry>) -> bool {
    exists|i: int|
        0 <= i < group.len() && i < layout.len() && (#[trigger] group[i]).resource
            == BindingResource::OffscreenTarget && layout[i].ty is Texture
}

/// Edge length, in invocations, of the square workgroup that the compute
/// programs declare.
pub const WORKGROUP_EDGE: u32 = 8;

/// Number of workgroups along one axis that cover `extent` invocations.
pub open spec fn covering_groups(extent: nat) -> nat {
    (extent + 7) / 8
}

/// `covering_groups(extent)` workgroups cover `extent` invocations, and no
/// smaller number `n` of workgroups does.
pub proof fn lemma_covering_groups_least(extent: nat, n: nat)
    ensures
        covering_groups(extent) * 8 >= extent,
        n * 8 >= extent ==> n >= covering_groups(extent),
{
}

/// One compute dispatch, counted in workgroups.
#[derive(Clone, Copy, Debug, PartialEq, Eq, Structural)]
pub struct Dispatch {
    pub x: u32,
    pub y: u32,
    pub z: u32,
}

/// Workgroups along one axis of a target that is `extent` texels long.
pub fn workgroups(extent: u32) -> (n: u32)
    ensures
        n == covering_groups(extent as nat),
{
    let whole: u32 = extent / WORKGROUP_EDGE;
    if extent % WORKGROUP_EDGE == 0 {
        whole
    } else {
        whole + 1
    }
}

/// The dispatch that covers a `width` by `height` target with one layer of
/// workgroups.
pub open spec fn covering_dispatch(width: u32, height: u32) -> Dispatch {
    Dispatch {
        x: covering_groups(width as nat) as u32,
        y: covering_groups(height as nat) as u32,
        z: 1,
    }
}

/// Computes `covering_dispatch`.
pub fn dispatch_for(width: u32, height: u32) -> (d: Dispatch)
    ensures
        d == covering_dispatch(width, height),
        d.x == covering_groups(width as nat),
        d.y == covering_groups(height as nat),
{
    Dispatch { x: workgroups(width), y: workgroups(height), z: 1 }
}

} // verus!
