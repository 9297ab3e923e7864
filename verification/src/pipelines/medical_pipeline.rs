//! The volume-sampling compute stage.

use crate::gpu::{
    covering_dispatch, create_offscreen_target, dispatch_for, group_fits, layout_wf,
    nearest_sampler, offscreen_target, samples_target, writes_target, BindGroupEntry,
    BindGroupLayoutEntry, BindingResource, BindingType, Dispatch, Extent3d, SamplerDescriptor,
    ShaderStage, TextureDescriptor, TextureDimension, TextureFormat, TextureUsages, TextureView, Viewport,
};
use vstd::prelude::*;

verus! {

/// Bytes of one scalar of the volume.
pub const BYTES_PER_SCALAR: u32 = 4;

/// How the scalars of a volume are laid out for their one upload: rows of
/// `width` scalars, `height` rows to a slice, `depth` slices, with no
/// padding between them.
#[derive(Clone, Copy, Debug, PartialEq, Eq, Structural)]
pub struct VolumeUpload {
    pub bytes_per_row: u32,
    pub rows_per_image: u32,
    pub size: Extent3d,
}

/// The extents that a volume's shape declares: its first axis is the
/// width, its second the height, its third the depth.
pub open spec fn shape_extent(shape: Seq<usize>) -> Option<Extent3d> {
    if shape.len() == 3 && shape[0] <= u32::MAX && shape[1] <= u32::MAX && shape[2] <= u32::MAX {
        Some(
            Extent3d {
                width: shape[0] as u32,
                height: shape[1] as u32,
                depth_or_array_layers: shape[2] as u32,
            },
        )
    } else {
        None
    }
}

/// Reads the extents of a volume from its shape. A shape with another
/// number of axes than three, or with an axis longer than an image can be,
/// has none.
pub fn volume_extent(shape: &Vec<usize>) -> (e: Option<Extent3d>)
    ensures
        e == shape_extent(shape@),
{
    if shape.len() != 3 {
        return None;
    }
    let w: usize = shape[0];
    let h: usize = shape[1];
    let d: usize = shape[2];
    if w > u32::MAX as usize || h > u32::MAX as usize || d > u32::MAX as usize {
        return None;
    }
    Some(Extent3d { width: w as u32, height: h as u32, depth_or_array_layers: d as u32 })
}

/// Number of scalars in a volume of the given extents.
pub open spec fn scalar_count(size: Extent3d) -> nat {
    (size.width * size.height * size.depth_or_array_layers) as nat
}

/// Whether `scalars` values, stored row by row and slice by slice, are
/// exactly a volume of extents `size` whose rows can be addressed.
pub open spec fn upload_fits(size: Extent3d, scalars: nat) -> bool {
    &&& scalars == scalar_count(size)
    &&& size.width * BYTES_PER_SCALAR <= u32::MAX
}

/// The layout with which a volume of extents `size` is uploaded.
pub open spec fn upload_layout(size: Extent3d) -> VolumeUpload {
    VolumeUpload {
        bytes_per_row: (size.width * BYTES_PER_SCALAR) as u32,
        rows_per_image: size.height,
        size,
    }
}

/// Where the scalar of the voxel (`x`, `y`, `z`) stands in the data of a
/// volume of extents `size`: rows follow each other within a slice, and
/// slices follow each other.
pub open spec fn scalar_index(size: Extent3d, x: nat, y: nat, z: nat) -> int {
    (z * size.height + y) * size.width + x
}

/// The byte at which an upload with the given layout takes the texel
/// (`x`, `y`, `z`) from.
pub open spec fn texel_offset(upload: VolumeUpload, x: nat, y: nat, z: nat) -> int {
    (z * upload.rows_per_image + y) * upload.bytes_per_row + x * BYTES_PER_SCALAR
}

/// With the layout of the upload, every texel of the volume is taken from
/// the scalar of its voxel, and that scalar is one of the data.
pub proof fn lemma_upload_reads_each_voxel(size: Extent3d, x: nat, y: nat, z: nat)
    requires
        size.width * BYTES_PER_SCALAR <= u32::MAX,
        x < size.width,
        y < size.height,
        z < size.depth_or_array_layers,
    ensures
        texel_offset(upload_layout(size), x, y, z) == BYTES_PER_SCALAR * scalar_index(size, x, y, z),
        scalar_index(size, x, y, z) < scalar_count(size),
{
    let w = size.width as int;
    let h = size.height as int;
    let d = size.depth_or_array_layers as int;
    assert((z * h + y) * (w * 4) + x * 4 == 4 * ((z * h + y) * w + x)) by (nonlinear_arith);
    assert((z * h + y) * w + x < w * h * d) by (nonlinear_arith)
        requires
            0 <= x < w,
            0 <= y < h,
            0 <= z < d,
    ;
}

/// The image that holds the volume.
pub open spec fn volume_texture(size: Extent3d) -> TextureDescriptor {
    TextureDescriptor {
        size,
        mip_level_count: 1,
        sample_count: 1,
        dimension: TextureDimension::D3,
        format: TextureFormat::R32Float,
        usage: TextureUsages {
            copy_src: true,
            copy_dst: true,
            texture_binding: true,
            storage_binding: false,
            render_attachment: false,
        },
    }
}

/// What the volume-sampling program expects, binding by binding: the
/// offscreen target to write, the volume to sample, the camera, the
/// viewport size, and the sampler.
pub open spec fn medical_layout() -> Seq<BindGroupLayoutEntry> {
    seq![
        BindGroupLayoutEntry {
            binding: 0,
            visibility: ShaderStage::Compute,
            ty: BindingType::WriteOnlyStorageTexture { format: TextureFormat::Rgba8Unorm },
        },
        BindGroupLayoutEntry {
            binding: 1,
            visibility: ShaderStage::Compute,
            ty: BindingType::Texture { view_dimension: TextureDimension::D3 },
        },
        BindGroupLayoutEntry {
            binding: 2,
            visibility: ShaderStage::Compute,
            ty: BindingType::UniformBuffer,
        },
        BindGroupLayoutEntry {
            binding: 3,
            visibility: ShaderStage::Compute,
            ty: BindingType::UniformBuffer,
        },
        BindGroupLayoutEntry {
            binding: 4,
            visibility: ShaderStage::Compute,
            ty: BindingType::NonFilteringSampler,
        },
    ]
}

/// The resources that the stage binds, in the order of `medical_layout`.
pub open spec fn medical_bindings() -> Seq<BindGroupEntry> {
    seq![
        BindGroupEntry { binding: 0, resource: BindingResource::OffscreenTarget },
        BindGroupEntry { binding: 1, resource: BindingResource::Volume },
        BindGroupEntry { binding: 2, resource: BindingResource::CameraUniform },
        BindGroupEntry { binding: 3, resource: BindingResource::ViewportSize },
        BindGroupEntry { binding: 4, resource: BindingResource::Sampler },
    ]
}

/// The bindings of the volume-sampling stage are numbered from zero and
/// seen by the compute stage only, each holds a resource of its kind, and
/// the stage writes the offscreen target without ever sampling it.
pub proof fn lemma_medical_bindings_sound()
    ensures
        layout_wf(medical_layout(), ShaderStage::Compute),
        group_fits(medical_layout(), medical_bindings()),
        writes_target(medical_layout(), medical_bindings()),
        !samples_target(medical_layout(), medical_bindings()),
{
    assert(medical_bindings()[0].resource == BindingResource::OffscreenTarget);
}

/// The volume-sampling compute stage, as the resources it needs.
#[derive(Clone, Copy, Debug, PartialEq, Eq, Structural)]
pub struct MedicalPipeline {
    /// The offscreen color target that the stage writes.
    pub texture: TextureDescriptor,
    /// The image that holds the volume.
    pub volume: TextureDescriptor,
    /// The layout of the volume's upload.
    pub upload: VolumeUpload,
    /// The sampler through which the program reads the volume.
    pub sampler: SamplerDescriptor,
    /// Width and height that the viewport-size uniform holds.
    pub viewport: Viewport,
}

impl MedicalPipeline {
    /// The stage for a surface of `surface_width` by `surface_height` and a
    /// volume of extents `size`.
    pub open spec fn planned(surface_width: u32, surface_height: u32, size: Extent3d) -> MedicalPipeline {
        MedicalPipeline {
            texture: offscreen_target(surface_width, surface_height),
            volume: volume_texture(size),
            upload: upload_layout(size),
            sampler: nearest_sampler(),
            viewport: Viewport { width: surface_width, height: surface_height },
        }
    }

    /// Plans the stage for a surface of the given size and a volume of
    /// extents `size` that comes as `scalars` values. There is no stage for
    /// data that does not fill the extents exactly, nor for rows too long to
    /// address.
    pub fn new(surface_width: u32, surface_height: u32, size: Extent3d, scalars: usize) -> (p:
        Option<MedicalPipeline>)
        ensures
            p == if upload_fits(size, scalars as nat) {
                Some(MedicalPipeline::planned(surface_width, surface_height, size))
            } else {
                None
            },
    {
        if size.width > u32::MAX / BYTES_PER_SCALAR {
            return None;
        }
        assert(size.width * size.height <= 0xffff_ffff * 0xffff_ffff) by (nonlinear_arith)
            requires
                size.width <= 0xffff_ffff,
                size.height <= 0xffff_ffff,
        ;
        let per_slice: u128 = size.width as u128 * size.height as u128;
        assert(per_slice * size.depth_or_array_layers <= 0xffff_ffff * 0xffff_ffff * 0xffff_ffff)
            by (nonlinear_arith)
            requires
                per_slice <= 0xffff_ffff * 0xffff_ffff,
                size.depth_or_array_layers <= 0xffff_ffff,
        ;
        let expected: u128 = per_slice * size.depth_or_array_layers as u128;
        if scalars as u128 != expected {
            return None;
        }
        Some(
            MedicalPipeline {
                texture: create_offscreen_target(surface_width, surface_height),
                volume: TextureDescriptor {
                    size,
                    mip_level_count: 1,
                    sample_count: 1,
                    dimension: TextureDimension::D3,
                    format: TextureFormat::R32Float,
                    usage: TextureUsages {
                        copy_src: true,
                        copy_dst: true,
                        texture_binding: true,
                        storage_binding: false,
                        render_attachment: false,
                    },
                },
                upload: VolumeUpload {
                    bytes_per_row: size.width * BYTES_PER_SCALAR,
                    rows_per_image: size.height,
                    size,
                },
                sampler: SamplerDescriptor::nearest(),
                viewport: Viewport { width: surface_width, height: surface_height },
            },
        )
    }

    /// The stage after the surface took the given size: the offscreen
    /// target and the viewport follow the surface, the volume stays.
    pub open spec fn resized(self, surface_width: u32, surface_height: u32) -> MedicalPipeline {
        MedicalPipeline {
            texture: offscreen_target(surface_width, surface_height),
            viewport: Viewport { width: surface_width, height: surface_height },
            ..self
        }
    }

    /// Plans the stage anew for a surface of the given size.
    pub fn resize(&mut self, surface_width: u32, surface_height: u32)
        ensures
            *final(self) == old(self).resized(surface_width, surface_height),
    {
        self.texture = create_offscreen_target(surface_width, surface_height);
        self.viewport = Viewport { width: surface_width, height: surface_height };
    }

    /// What the program of the stage expects at its bindings.
    pub fn bind_group_layout(&self) -> (layout: Vec<BindGroupLayoutEntry>)
        ensures
            layout@ == medical_layout(),
    {
        let layout: Vec<BindGroupLayoutEntry> = vec![
            BindGroupLayoutEntry {
                binding: 0,
                visibility: ShaderStage::Compute,
                ty: BindingType::WriteOnlyStorageTexture { format: TextureFormat::Rgba8Unorm },
            },
            BindGroupLayoutEntry {
                binding: 1,
                visibility: ShaderStage::Compute,
                ty: BindingType::Texture { view_dimension: TextureDimension::D3 },
            },
            BindGroupLayoutEntry {
                binding: 2,
                visibility: ShaderStage::Compute,
                ty: BindingType::UniformBuffer,
            },
            BindGroupLayoutEntry {
                binding: 3,
                visibility: ShaderStage::Compute,
                ty: BindingType::UniformBuffer,
            },
            BindGroupLayoutEntry {
                binding: 4,
                visibility: ShaderStage::Compute,
                ty: BindingType::NonFilteringSampler,
            },
        ];
        assert(layout@ =~= medical_layout());
        layout
    }

    /// The resources that the stage binds.
    pub fn bind_group(&self) -> (group: Vec<BindGroupEntry>)
        ensures
            group@ == medical_bindings(),
    {
        let group: Vec<BindGroupEntry> = vec![
            BindGroupEntry { binding: 0, resource: BindingResource::OffscreenTarget },
            BindGroupEntry { binding: 1, resource: BindingResource::Volume },
            BindGroupEntry { binding: 2, resource: BindingResource::CameraUniform },
            BindGroupEntry { binding: 3, resource: BindingResource::ViewportSize },
            BindGroupEntry { binding: 4, resource: BindingResource::Sampler },
        ];
        assert(group@ =~= medical_bindings());
        group
    }

    /// The view of the offscreen target through which a later stage
    /// samples what this one wrote.
    pub fn create_view(&self) -> (v: TextureView)
        ensures
            v.texture == self.texture,
    {
        TextureView { texture: self.texture }
    }

    /// The one dispatch of the stage: square workgroups that cover the
    /// offscreen target.
    pub fn pass(&self) -> (d: Dispatch)
        ensures
            d == covering_dispatch(self.texture.size.width, self.texture.size.height),
    {
        dispatch_for(self.texture.size.width, self.texture.size.height)
    }
}

} // verus!
