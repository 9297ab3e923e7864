//! The ray-tracing compute stage.

use crate::gpu::{
    covering_dispatch, create_offscreen_target, dispatch_for, group_fits, layout_wf,
    offscreen_target, samples_target, writes_target, BindGroupEntry, BindGroupLayoutEntry,
    BindingResource, BindingType, Dispatch, ShaderStage, TextureDescriptor, TextureFormat,
    TextureView, Viewport,
};
use crate::words::{cast_words, is_memory_image};
use vstd::prelude::*;

verus! {

/// Words that one primitive takes in the primitives buffer.
pub const WORDS_PER_SPHERE: usize = 8;

/// An analytic sphere. Every field is a binary32 number, held as its bit
/// pattern.
#[derive(Clone, Copy, Debug, PartialEq, Eq)]
pub struct Sphere {
    pub pos: [u32; 3],
    pub radius: u32,
    pub material: [u32; 4],
}

impl Sphere {
    /// The record of the sphere as the program reads it: position, radius,
    /// material.
    pub open spec fn words(self) -> Seq<u32> {
        seq![
            self.pos[0],
            self.pos[1],
            self.pos[2],
            self.radius,
            self.material[0],
            self.material[1],
            self.material[2],
            self.material[3],
        ]
    }
}

/// The records of `spheres`, one after the other.
pub open spec fn sphere_words(spheres: Seq<Sphere>) -> Seq<u32> {
    Seq::new(
        spheres.len() * WORDS_PER_SPHERE as nat,
        |i: int| spheres[i / WORDS_PER_SPHERE as int].words()[i % WORDS_PER_SPHERE as int],
    )
}

/// The scene that the viewer traces: a red sphere at (-0.5, 0, -1) and a
/// blue one at (0.5, 0, 0), both of radius 0.5, on a white sphere of radius
/// 25 centered at (0, -25.5, -1). Materials are opaque colors.
pub open spec fn default_scene() -> Seq<Sphere> {
    seq![
        Sphere {
            pos: [0xbf00_0000u32, 0u32, 0xbf80_0000u32],
            radius: 0x3f00_0000,
            material: [0x3f80_0000u32, 0u32, 0u32, 0x3f80_0000u32],
        },
        Sphere {
            pos: [0x3f00_0000u32, 0u32, 0u32],
            radius: 0x3f00_0000,
            material: [0u32, 0u32, 0x3f80_0000u32, 0x3f80_0000u32],
        },
        Sphere {
            pos: [0u32, 0xc1cc_0000u32, 0xbf80_0000u32],
            radius: 0x41c8_0000,
            material: [0x3f80_0000u32, 0x3f80_0000u32, 0x3f80_0000u32, 0x3f80_0000u32],
        },
    ]
}

/// What the ray-tracing program expects, binding by binding: the offscreen
/// target to write, the primitives to read, the camera, and the viewport
/// size.
pub open spec fn raytrace_layout() -> Seq<BindGroupLayoutEntry> {
    seq![
        BindGroupLayoutEntry {
            binding: 0,
            visibility: ShaderStage::Compute,
            ty: BindingType::WriteOnlyStorageTexture { format: TextureFormat::Rgba8Unorm },
        },
        BindGroupLayoutEntry {
            binding: 1,
            visibility: ShaderStage::Compute,
            ty: BindingType::ReadOnlyStorageBuffer,
        },
        BindGroupLayoutEntry {
            binding: 2,
            visibility: ShaderStage::Compute,
            ty: BindingType::UniformBuffer,
        },
        BindGroupLayoutEntry {
            binding: 3,
            visibility: ShaderStage::Compute,
            ty: BindingType::UniformBuffer,
        },
    ]
}

/// The resources that the stage binds, in the order of `raytrace_layout`.
pub open spec fn raytrace_bindings() -> Seq<BindGroupEntry> {
    seq![
        BindGroupEntry { binding: 0, resource: BindingResource::OffscreenTarget },
        BindGroupEntry { binding: 1, resource: BindingResource::Primitives },
        BindGroupEntry { binding: 2, resource: BindingResource::CameraUniform },
        BindGroupEntry { binding: 3, resource: BindingResource::ViewportSize },
    ]
}

/// The bindings of the ray-tracing stage are numbered from zero and seen by
/// the compute stage only, each holds a resource of its kind, and the stage
/// writes the offscreen target without ever sampling it.
pub proof fn lemma_raytrace_bindings_sound()
    ensures
        layout_wf(raytrace_layout(), ShaderStage::Compute),
        group_fits(raytrace_layout(), raytrace_bindings()),
        writes_target(raytrace_layout(), raytrace_bindings()),
        !samples_target(raytrace_layout(), raytrace_bindings()),
{
    assert(raytrace_bindings()[0].resource == BindingResource::OffscreenTarget);
}

/// The ray-tracing compute stage, as the resources it needs.
#[derive(Clone, Copy, Debug, PartialEq, Eq, Structural)]
pub struct RaytracePipeline {
    /// The offscreen color target that the stage writes.
    pub texture: TextureDescriptor,
    /// Width and height that the viewport-size uniform holds.
    pub viewport: Viewport,
}

impl RaytracePipeline {
    /// The stage for a surface of `surface_width` by `surface_height`.
    pub open spec fn planned(surface_width: u32, surface_height: u32) -> RaytracePipeline {
        RaytracePipeline {
            texture: offscreen_target(surface_width, surface_height),
            viewport: Viewport { width: surface_width, height: surface_height },
        }
    }

    /// Plans the stage for a surface of the given size.
    pub fn new(surface_width: u32, surface_height: u32) -> (p: RaytracePipeline)
        ensures
            p == RaytracePipeline::planned(surface_width, surface_height),
    {
        RaytracePipeline {
            texture: create_offscreen_target(surface_width, surface_height),
            viewport: Viewport { width: surface_width, height: surface_height },
        }
    }

    /// The primitives that the program traces.
    pub fn spheres(&self) -> (spheres: Vec<Sphere>)
        ensures
            spheres@ == default_scene(),
    {
        let spheres: Vec<Sphere> = vec![
            Sphere {
                pos: [0xbf00_0000u32, 0u32, 0xbf80_0000u32],
                radius: 0x3f00_0000,
                material: [0x3f80_0000u32, 0u32, 0u32, 0x3f80_0000u32],
            },
            Sphere {
                pos: [0x3f00_0000u32, 0u32, 0u32],
                radius: 0x3f00_0000,
                material: [0u32, 0u32, 0x3f80_0000u32, 0x3f80_0000u32],
            },
            Sphere {
                pos: [0u32, 0xc1cc_0000u32, 0xbf80_0000u32],
                radius: 0x41c8_0000,
                material: [0x3f80_0000u32, 0x3f80_0000u32, 0x3f80_0000u32, 0x3f80_0000u32],
            },
        ];
        assert(spheres@ =~= default_scene());
        spheres
    }

    /// What the program of the stage expects at its bindings.
    pub fn bind_group_layout(&self) -> (layout: Vec<BindGroupLayoutEntry>)
        ensures
            layout@ == raytrace_layout(),
    {
        let layout: Vec<BindGroupLayoutEntry> = vec![
            BindGroupLayoutEntry {
                binding: 0,
                visibility: ShaderStage::Compute,
                ty: BindingType::WriteOnlyStorageTexture { format: TextureFormat::Rgba8Unorm },
            },
            BindGroupLayoutEntry {
                binding: 1,
                visibility: ShaderStage::Compute,
                ty: BindingType::ReadOnlyStorageBuffer,
            },
            BindGroupLayoutEntry {
                binding: 2,
                visibility: ShaderStage::Compute,
                ty: BindingType::UniformBuffer,
            },
            BindGroupLayoutEntry {
                binding: 3,
                visibility: ShaderStage::Compute,
                ty: BindingType::UniformBuffer,
            },
        ];
        assert(layout@ =~= raytrace_layout());
        layout
    }

    /// The resources that the stage binds.
    pub fn bind_group(&self) -> (group: Vec<BindGroupEntry>)
        ensures
            group@ == raytrace_bindings(),
    {
        let group: Vec<BindGroupEntry> = vec![
            BindGroupEntry { binding: 0, resource: BindingResource::OffscreenTarget },
            BindGroupEntry { binding: 1, resource: BindingResource::Primitives },
            BindGroupEntry { binding: 2, resource: BindingResource::CameraUniform },
            BindGroupEntry { binding: 3, resource: BindingResource::ViewportSize },
        ];
        assert(group@ =~= raytrace_bindings());
        group
    }

    /// Plans the stage anew for a surface of the given size.
    pub fn resize(&mut self, surface_width: u32, surface_height: u32)
        ensures
            *final(self) == RaytracePipeline::planned(surface_width, surface_height),
    {
        self.texture = create_offscreen_target(surface_width, surface_height);
        self.viewport = Viewport { width: surface_width, height: surface_height };
    }

    /// The view of the offscreen target through which a later stage
    /// samples what this one wrote.
    pub fn create_view(&self) -> (v: TextureView)
        ensures
            v.texture == self.texture,
    {
        TextureView { texture: self.texture }
    }

    /// The words of a primitives buffer: the record of each sphere, in
    /// order.
    pub fn primitive_words(spheres: &Vec<Sphere>) -> (words: Vec<u32>)
        ensures
            words@ == sphere_words(spheres@),
    {
        let mut words: Vec<u32> = Vec::new();
        let n: usize = spheres.len();
        let mut i: usize = 0;
        while i < n
            invariant
                n == spheres@.len(),
                i <= n,
                words@ == sphere_words(spheres@.take(i as int)),
            decreases n - i,
        {
            let s: Sphere = spheres[i];
            words.push(s.pos[0]);
            words.push(s.pos[1]);
            words.push(s.pos[2]);
            words.push(s.radius);
            words.push(s.material[0]);
            words.push(s.material[1]);
            words.push(s.material[2]);
            words.push(s.material[3]);
            i += 1;
            assert(words@ =~= sphere_words(spheres@.take(i as int)));
        }
        assert(spheres@.take(n as int) =~= spheres@);
        words
    }

    /// The bytes of the primitives buffer of the stage.
    pub fn primitive_bytes(&self) -> (bytes: Vec<u8>)
        ensures
            is_memory_image(bytes@, sphere_words(default_scene())),
            bytes@.len() == 4 * WORDS_PER_SPHERE * default_scene().len(),
    {
        let spheres: Vec<Sphere> = self.spheres();
        let words: Vec<u32> = RaytracePipeline::primitive_words(&spheres);
        cast_words(&words)
    }

    /// The one dispatch of the stage: square workgroups that cover the
    /// offscreen target.
    pub fn pass(&self) -> (d: Dispatch)
        ensures
            d == covering_dispatch(self.texture.size.width, self.texture.size.height),
    {
        dispatch_for(self.texture.size.width, self.texture.size.height)
    }
}

} // verus!
