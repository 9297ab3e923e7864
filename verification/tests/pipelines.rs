use wgpu_raycaster::gpu::{
    BindGroupEntry, BindGroupLayoutEntry, BindingResource, BindingType, Dispatch, Extent3d,
    AddressMode, FilterMode, SamplerDescriptor, ShaderStage, TextureDescriptor, TextureDimension,
    TextureFormat, TextureUsages, TextureView, Viewport,
};
use wgpu_raycaster::pipelines::medical_pipeline::{volume_extent, MedicalPipeline, VolumeUpload};
use wgpu_raycaster::pipelines::raytrace_pipeline::{RaytracePipeline, Sphere};
use wgpu_raycaster::pipelines::sampletexture_pipeline::{
    Blit, ClearColor, Fraction, Quad, SampleTexturePipeline,
};
use wgpu_raycaster::pipelines::{Pass, Pipelines, Stage};

fn target(width: u32, height: u32) -> TextureDescriptor {
    TextureDescriptor {
        size: Extent3d { width, height, depth_or_array_layers: 1 },
        mip_level_count: 1,
        sample_count: 1,
        dimension: TextureDimension::D2,
        format: TextureFormat::Rgba8Unorm,
        usage: TextureUsages {
            copy_src: false,
            copy_dst: true,
            texture_binding: true,
            storage_binding: true,
            render_attachment: false,
        },
    }
}

fn nearest() -> SamplerDescriptor {
    SamplerDescriptor {
        address_mode_u: AddressMode::ClampToEdge,
        address_mode_v: AddressMode::ClampToEdge,
        address_mode_w: AddressMode::ClampToEdge,
        mag_filter: FilterMode::Nearest,
        min_filter: FilterMode::Nearest,
        mipmap_filter: FilterMode::Nearest,
        anisotropy_clamp: 1,
    }
}

fn full_quad_of(side: u128) -> Quad {
    Quad {
        x: Fraction { num: 0, den: 2 * side },
        y: Fraction { num: 0, den: 1 },
        w: Fraction { num: side, den: side },
        h: Fraction { num: 1, den: 1 },
    }
}

fn sphere(pos: [f32; 3], radius: f32, material: [f32; 4]) -> Sphere {
    Sphere {
        pos: [pos[0].to_bits(), pos[1].to_bits(), pos[2].to_bits()],
        radius: radius.to_bits(),
        material: [
            material[0].to_bits(),
            material[1].to_bits(),
            material[2].to_bits(),
            material[3].to_bits(),
        ],
    }
}

#[test]
fn raytrace_stage_writes_a_target_of_the_surface_size() {
    let p = RaytracePipeline::new(1000, 600);
    assert_eq!(p.texture, target(1000, 600));
    assert_eq!(p.viewport, Viewport { width: 1000, height: 600 });
    assert_eq!(p.create_view(), TextureView { texture: target(1000, 600) });
}

#[test]
fn raytrace_stage_dispatches_over_its_target() {
    assert_eq!(RaytracePipeline::new(500, 500).pass(), Dispatch { x: 63, y: 63, z: 1 });
    assert_eq!(RaytracePipeline::new(1000, 1000).pass(), Dispatch { x: 125, y: 125, z: 1 });
    assert_eq!(RaytracePipeline::new(1, 17).pass(), Dispatch { x: 1, y: 3, z: 1 });
    assert_eq!(
        RaytracePipeline::new(u32::MAX, 8).pass(),
        Dispatch { x: 536_870_912, y: 1, z: 1 }
    );
}

#[test]
fn raytrace_bindings_follow_the_program() {
    let p = RaytracePipeline::new(8, 8);
    assert_eq!(
        p.bind_group_layout(),
        vec![
            BindGroupLayoutEntry {
                binding: 0,
                visibility: ShaderStage::Compute,
                ty: BindingType::WriteOnlyStorageTexture { format: TextureFormat::Rgba8Unorm },
            },
            BindGroupLayoutEntry {
                binding: 1,
                visibility: ShaderStage::Compute,
                ty: BindingType::ReadOnlyStorageBuffer,
            },
            BindGroupLayoutEntry {
                binding: 2,
                visibility: ShaderStage::Compute,
                ty: BindingType::UniformBuffer,
            },
            BindGroupLayoutEntry {
                binding: 3,
                visibility: ShaderStage::Compute,
                ty: BindingType::UniformBuffer,
            },
        ]
    );
    assert_eq!(
        p.bind_group(),
        vec![
            BindGroupEntry { binding: 0, resource: BindingResource::OffscreenTarget },
            BindGroupEntry { binding: 1, resource: BindingResource::Primitives },
            BindGroupEntry { binding: 2, resource: BindingResource::CameraUniform },
            BindGroupEntry { binding: 3, resource: BindingResource::ViewportSize },
        ]
    );
}

#[test]
fn raytrace_scene_is_three_spheres() {
    let p = RaytracePipeline::new(8, 8);
    assert_eq!(
        p.spheres(),
        vec![
            sphere([-0.5, 0.0, -1.0], 0.5, [1.0, 0.0, 0.0, 1.0]),
            sphere([0.5, 0.0, 0.0], 0.5, [0.0, 0.0, 1.0, 1.0]),
            sphere([0.0, -25.5, -1.0], 25.0, [1.0, 1.0, 1.0, 1.0]),
        ]
    );
}

#[test]
fn primitives_are_laid_out_record_by_record() {
    let spheres = vec![
        Sphere { pos: [1, 2, 3], radius: 4, material: [5, 6, 7, 8] },
        Sphere { pos: [9, 10, 11], radius: 12, material: [13, 14, 15, 16] },
    ];
    let words: Vec<u32> = (1..=16).collect();
    assert_eq!(RaytracePipeline::primitive_words(&spheres), words);
    assert_eq!(RaytracePipeline::primitive_words(&Vec::new()), Vec::<u32>::new());
}

#[test]
fn primitive_bytes_are_the_records_in_memory() {
    let p = RaytracePipeline::new(8, 8);
    let bytes = p.primitive_bytes();
    assert_eq!(bytes.len(), 3 * 32);
    let numbers: [f32; 24] = [
        -0.5, 0.0, -1.0, 0.5, 1.0, 0.0, 0.0, 1.0, 0.5, 0.0, 0.0, 0.5, 0.0, 0.0, 1.0, 1.0, 0.0, -25.5,
        -1.0, 25.0, 1.0, 1.0, 1.0, 1.0,
    ];
    let mut expected = Vec::new();
    for n in numbers {
        expected.extend_from_slice(&n.to_ne_bytes());
    }
    assert_eq!(bytes, expected);
}

#[test]
fn raytrace_stage_follows_a_resize() {
    let mut p = RaytracePipeline::new(100, 100);
    p.resize(640, 480);
    assert_eq!(p, RaytracePipeline::new(640, 480));
    assert_eq!(p.pass(), Dispatch { x: 80, y: 60, z: 1 });
}

#[test]
fn volume_extents_come_from_a_shape_of_three_axes() {
    assert_eq!(
        volume_extent(&vec![512, 512, 130]),
        Some(Extent3d { width: 512, height: 512, depth_or_array_layers: 130 })
    );
    assert_eq!(
        volume_extent(&vec![0, 1, 2]),
        Some(Extent3d { width: 0, height: 1, depth_or_array_layers: 2 })
    );
    assert_eq!(volume_extent(&vec![512, 512]), None);
    assert_eq!(volume_extent(&vec![4, 4, 4, 2]), None);
    assert_eq!(volume_extent(&Vec::new()), None);
    assert_eq!(
        volume_extent(&vec![u32::MAX as usize, 1, 1]),
        Some(Extent3d { width: u32::MAX, height: 1, depth_or_array_layers: 1 })
    );
}

#[test]
fn volume_extents_must_fit_an_image() {
    if usize::BITS > 32 {
        let long = u32::MAX as usize + 1;
        assert_eq!(volume_extent(&vec![long, 1, 1]), None);
        assert_eq!(volume_extent(&vec![1, long, 1]), None);
        assert_eq!(volume_extent(&vec![1, 1, long]), None);
    }
}

#[test]
fn medical_stage_is_planned_for_data_that_fills_its_extents() {
    let size = Extent3d { width: 4, height: 3, depth_or_array_layers: 2 };
    let p = MedicalPipeline::new(800, 600, size, 24).unwrap();
    assert_eq!(p.texture, target(800, 600));
    assert_eq!(p.viewport, Viewport { width: 800, height: 600 });
    assert_eq!(
        p.volume,
        TextureDescriptor {
            size,
            mip_level_count: 1,
            sample_count: 1,
            dimension: TextureDimension::D3,
            format: TextureFormat::R32Float,
            usage: TextureUsages {
                copy_src: true,
                copy_dst: true,
                texture_binding: true,
                storage_binding: false,
                render_attachment: false,
            },
        }
    );
    assert_eq!(p.upload, VolumeUpload { bytes_per_row: 16, rows_per_image: 3, size });
    assert_eq!(p.sampler, nearest());
    assert_eq!(p.create_view(), TextureView { texture: target(800, 600) });
    assert_eq!(p.pass(), Dispatch { x: 100, y: 75, z: 1 });
}

#[test]
fn medical_stage_refuses_data_that_does_not_fill_its_extents() {
    let size = Extent3d { width: 4, height: 3, depth_or_array_layers: 2 };
    assert_eq!(MedicalPipeline::new(800, 600, size, 23), None);
    assert_eq!(MedicalPipeline::new(800, 600, size, 25), None);
    assert_eq!(MedicalPipeline::new(800, 600, size, 0), None);
}

#[test]
fn medical_stage_takes_an_empty_volume_for_no_data() {
    let size = Extent3d { width: 0, height: 3, depth_or_array_layers: 2 };
    assert!(MedicalPipeline::new(800, 600, size, 0).is_some());
    assert_eq!(MedicalPipeline::new(800, 600, size, 6), None);
}

#[test]
fn medical_stage_refuses_rows_too_long_to_address() {
    let size = Extent3d { width: 0x4000_0000, height: 1, depth_or_array_layers: 1 };
    assert_eq!(MedicalPipeline::new(8, 8, size, 0x4000_0000), None);
    let size = Extent3d { width: 0x3fff_ffff, height: 1, depth_or_array_layers: 1 };
    let p = MedicalPipeline::new(8, 8, size, 0x3fff_ffff).unwrap();
    assert_eq!(p.upload.bytes_per_row, 0xffff_fffc);
}

#[test]
fn medical_bindings_follow_the_program() {
    let size = Extent3d { width: 1, height: 1, depth_or_array_layers: 1 };
    let p = MedicalPipeline::new(8, 8, size, 1).unwrap();
    assert_eq!(
        p.bind_group_layout(),
        vec![
            BindGroupLayoutEntry {
                binding: 0,
                visibility: ShaderStage::Compute,
                ty: BindingType::WriteOnlyStorageTexture { format: TextureFormat::Rgba8Unorm },
            },
            BindGroupLayoutEntry {
                binding: 1,
                visibility: ShaderStage::Compute,
                ty: BindingType::Texture { view_dimension: TextureDimension::D3 },
            },
            BindGroupLayoutEntry {
                binding: 2,
                visibility: ShaderStage::Compute,
                ty: BindingType::UniformBuffer,
            },
            BindGroupLayoutEntry {
                binding: 3,
                visibility: ShaderStage::Compute,
                ty: BindingType::UniformBuffer,
            },
            BindGroupLayoutEntry {
                binding: 4,
                visibility: ShaderStage::Compute,
                ty: BindingType::NonFilteringSampler,
            },
        ]
    );
    assert_eq!(
        p.bind_group(),
        vec![
            BindGroupEntry { binding: 0, resource: BindingResource::OffscreenTarget },
            BindGroupEntry { binding: 1, resource: BindingResource::Volume },
            BindGroupEntry { binding: 2, resource: BindingResource::CameraUniform },
            BindGroupEntry { binding: 3, resource: BindingResource::ViewportSize },
            BindGroupEntry { binding: 4, resource: BindingResource::Sampler },
        ]
    );
}

#[test]
fn medical_stage_keeps_its_volume_through_a_resize() {
    let size = Extent3d { width: 4, height: 3, depth_or_array_layers: 2 };
    let mut p = MedicalPipeline::new(800, 600, size, 24).unwrap();
    p.resize(320, 200);
    assert_eq!(Some(p), MedicalPipeline::new(320, 200, size, 24));
}

#[test]
fn composite_stage_samples_the_view_it_was_given() {
    let view = RaytracePipeline::new(640, 480).create_view();
    let p = SampleTexturePipeline::new(view);
    assert_eq!(p.sample_view, view);
    assert_eq!(p.target_format, TextureFormat::Surface);
    assert_eq!(p.sampler, nearest());
}

#[test]
fn composite_bindings_follow_the_program() {
    let p = SampleTexturePipeline::new(RaytracePipeline::new(8, 8).create_view());
    assert_eq!(
        p.bind_group_layout(),
        vec![
            BindGroupLayoutEntry {
                binding: 0,
                visibility: ShaderStage::Fragment,
                ty: BindingType::NonFilteringSampler,
            },
            BindGroupLayoutEntry {
                binding: 1,
                visibility: ShaderStage::Fragment,
                ty: BindingType::Texture { view_dimension: TextureDimension::D2 },
            },
        ]
    );
    assert_eq!(
        p.bind_group(),
        vec![
            BindGroupEntry { binding: 0, resource: BindingResource::Sampler },
            BindGroupEntry { binding: 1, resource: BindingResource::OffscreenTarget },
        ]
    );
}

#[test]
fn composite_stage_clears_to_white_and_draws_two_triangles() {
    let p = SampleTexturePipeline::new(RaytracePipeline::new(100, 100).create_view());
    assert_eq!(
        p.pass(100, 100),
        Some(Blit { clear: ClearColor::OpaqueWhite, quad: full_quad_of(100), vertices: 6, instances: 1 })
    );
    assert_eq!(p.pass(0, 100), None);
    assert_eq!(p.pass(100, 0), None);
}

#[test]
fn a_frame_is_the_compute_passes_and_then_the_composite_pass() {
    let p = Pipelines::new(500, 500);
    let frame = p.render(500, 500).unwrap();
    assert_eq!(
        frame,
        vec![
            Pass::Compute { stage: Stage::Raytrace, dispatch: Dispatch { x: 63, y: 63, z: 1 } },
            Pass::Composite {
                blit: Blit {
                    clear: ClearColor::OpaqueWhite,
                    quad: full_quad_of(500),
                    vertices: 6,
                    instances: 1
                }
            },
        ]
    );
}

#[test]
fn a_loaded_volume_is_sampled_between_tracing_and_compositing() {
    let mut p = Pipelines::new(1000, 1000);
    let size = Extent3d { width: 2, height: 2, depth_or_array_layers: 2 };
    assert!(p.load_volume(size, 8));
    assert_eq!(p.medical_pipeline, MedicalPipeline::new(1000, 1000, size, 8));
    let frame = p.render(1000, 1000).unwrap();
    assert_eq!(frame.len(), 3);
    assert_eq!(
        frame[0],
        Pass::Compute { stage: Stage::Raytrace, dispatch: Dispatch { x: 125, y: 125, z: 1 } }
    );
    assert_eq!(
        frame[1],
        Pass::Compute { stage: Stage::Medical, dispatch: Dispatch { x: 125, y: 125, z: 1 } }
    );
    assert!(matches!(frame[2], Pass::Composite { .. }));
}

#[test]
fn a_volume_that_does_not_fit_is_not_loaded() {
    let mut p = Pipelines::new(1000, 1000);
    let before = p;
    let size = Extent3d { width: 2, height: 2, depth_or_array_layers: 2 };
    assert!(!p.load_volume(size, 7));
    assert_eq!(p, before);
    assert_eq!(p.render(1000, 1000).unwrap().len(), 2);
}

#[test]
fn there_is_no_frame_on_a_surface_without_area() {
    let p = Pipelines::new(10, 10);
    assert_eq!(p.render(0, 10), None);
    assert_eq!(p.render(10, 0), None);
    assert_eq!(p.render(0, 0), None);
}

#[test]
fn every_stage_follows_a_resize() {
    let mut p = Pipelines::new(100, 100);
    let size = Extent3d { width: 2, height: 2, depth_or_array_layers: 2 };
    assert!(p.load_volume(size, 8));
    p.resize(640, 480);
    assert_eq!(p.raytrace_pipeline, RaytracePipeline::new(640, 480));
    assert_eq!(p.medical_pipeline, MedicalPipeline::new(640, 480, size, 8));
    assert_eq!(p.sample_pipeline.sample_view, TextureView { texture: target(640, 480) });
    let again = p;
    p.resize(640, 480);
    assert_eq!(p, again);
}
