//! The stages of a frame, and their order.

pub mod medical_pipeline;
pub mod raytrace_pipeline;
pub mod sampletexture_pipeline;

use crate::gpu::{covering_dispatch, Dispatch, Extent3d};
use crate::pipelines::medical_pipeline::{upload_fits, MedicalPipeline};
use crate::pipelines::raytrace_pipeline::RaytracePipeline;
use crate::pipelines::sampletexture_pipeline::{letterboxed, Blit, ClearColor, SampleTexturePipeline};
use vstd::prelude::*;

verus! {

/// The compute stages that a frame can hold.
#[derive(Clone, Copy, Debug, PartialEq, Eq, Structural)]
pub enum Stage {
    Raytrace,
    Medical,
}

/// One pass of a frame.
#[derive(Clone, Copy, Debug, PartialEq, Eq, Structural)]
pub enum Pass {
    /// A compute pass: the program of `stage`, dispatched once.
    Compute { stage: Stage, dispatch: Dispatch },
    /// The render pass that draws the offscreen image onto the surface.
    Composite { blit: Blit },
}

/// The stages of a frame: the ray tracer, the volume sampler where a
/// volume was loaded, and the composite stage.
#[derive(Clone, Copy, Debug, PartialEq, Eq)]
pub struct Pipelines {
    pub raytrace_pipeline: RaytracePipeline,
    pub medical_pipeline: Option<MedicalPipeline>,
    pub sample_pipeline: SampleTexturePipeline,
}

impl Pipelines {
    /// The stages for a surface of the given size, before any volume is
    /// loaded. The composite stage samples the target that the compute
    /// stages write.
    pub open spec fn planned(surface_width: u32, surface_height: u32) -> Pipelines {
        let raytrace_pipeline = RaytracePipeline::planned(surface_width, surface_height);
        Pipelines {
            raytrace_pipeline,
            medical_pipeline: None,
            sample_pipeline: SampleTexturePipeline::planned(
                crate::gpu::TextureView { texture: raytrace_pipeline.texture },
            ),
        }
    }

    /// The stages after the surface took the given size: every stage is
    /// planned anew for it, and the volume stays.
    pub open spec fn resized(self, surface_width: u32, surface_height: u32) -> Pipelines {
        let fresh = Pipelines::planned(surface_width, surface_height);
        Pipelines {
            medical_pipeline: match self.medical_pipeline {
                Some(m) => Some(m.resized(surface_width, surface_height)),
                None => None,
            },
            ..fresh
        }
    }

    /// The stages with the volume-sampling stage for a volume of extents
    /// `size`, in place of any that was there.
    pub open spec fn with_volume(self, size: Extent3d) -> Pipelines {
        Pipelines {
            medical_pipeline: Some(
                MedicalPipeline::planned(
                    self.raytrace_pipeline.viewport.width,
                    self.raytrace_pipeline.viewport.height,
                    size,
                ),
            ),
            ..self
        }
    }

    /// Every stage is planned for a surface of the given size: the compute
    /// stages write an offscreen target of that size and know it as their
    /// viewport, and the composite stage samples that target.
    pub open spec fn sized_for(self, surface_width: u32, surface_height: u32) -> bool {
        &&& self.raytrace_pipeline == RaytracePipeline::planned(surface_width, surface_height)
        &&& self.sample_pipeline == Pipelines::planned(surface_width, surface_height).sample_pipeline
        &&& match self.medical_pipeline {
            Some(m) => m == m.resized(surface_width, surface_height),
            None => true,
        }
    }

    /// The passes of a frame on a surface of the given size, in the order
    /// in which they are recorded: each compute stage, then the composite
    /// stage.
    pub open spec fn frame(self, surface_width: u32, surface_height: u32) -> Seq<Pass> {
        let trace = seq![
            Pass::Compute {
                stage: Stage::Raytrace,
                dispatch: covering_dispatch(
                    self.raytrace_pipeline.texture.size.width,
                    self.raytrace_pipeline.texture.size.height,
                ),
            },
        ];
        let sample = match self.medical_pipeline {
            Some(m) => seq![
                Pass::Compute {
                    stage: Stage::Medical,
                    dispatch: covering_dispatch(m.texture.size.width, m.texture.size.height),
                },
            ],
            None => Seq::<Pass>::empty(),
        };
        let composite = seq![
            Pass::Composite {
                blit: Blit {
                    clear: ClearColor::OpaqueWhite,
                    quad: letterboxed(1, 1, surface_width as nat, surface_height as nat),
                    vertices: 6,
                    instances: 1,
                },
            },
        ];
        trace + sample + composite
    }

    /// Plans the stages for a surface of the given size.
    pub fn new(surface_width: u32, surface_height: u32) -> (p: Pipelines)
        ensures
            p == Pipelines::planned(surface_width, surface_height),
    {
        let raytrace_pipeline: RaytracePipeline = RaytracePipeline::new(
            surface_width,
            surface_height,
        );
        let sample_pipeline: SampleTexturePipeline = SampleTexturePipeline::new(
            raytrace_pipeline.create_view(),
        );
        Pipelines { raytrace_pipeline, medical_pipeline: None, sample_pipeline }
    }

    /// Adds the volume-sampling stage for a volume of extents `size` that
    /// comes as `scalars` values, in place of any that was there. Data that
    /// does not fit its extents adds nothing.
    pub fn load_volume(&mut self, size: Extent3d, scalars: usize) -> (loaded: bool)
        ensures
            loaded == upload_fits(size, scalars as nat),
            loaded ==> *final(self) == old(self).with_volume(size),
            !loaded ==> *final(self) == *old(self),
    {
        match MedicalPipeline::new(
            self.raytrace_pipeline.viewport.width,
            self.raytrace_pipeline.viewport.height,
            size,
            scalars,
        ) {
            Some(m) => {
                self.medical_pipeline = Some(m);
                true
            },
            None => false,
        }
    }

    /// Plans every stage anew for a surface of the given size.
    pub fn resize(&mut self, surface_width: u32, surface_height: u32)
        ensures
            *final(self) == old(self).resized(surface_width, surface_height),
    {
        self.raytrace_pipeline.resize(surface_width, surface_height);
        self.sample_pipeline = SampleTexturePipeline::new(self.raytrace_pipeline.create_view());
        match self.medical_pipeline {
            Some(m) => {
                let mut m: MedicalPipeline = m;
                m.resize(surface_width, surface_height);
                self.medical_pipeline = Some(m);
            },
            None => {},
        }
    }

    /// The passes of one frame on a surface of the given size, in the
    /// order in which they are to be recorded. A surface without area has
    /// no frame.
    pub fn render(&self, surface_width: u32, surface_height: u32) -> (passes: Option<Vec<Pass>>)
        ensures
            passes is Some <==> surface_width > 0 && surface_height > 0,
            passes is Some ==> passes->0@ == self.frame(surface_width, surface_height),
    {
        let blit: Blit = match self.sample_pipeline.pass(surface_width, surface_height) {
            Some(blit) => blit,
            None => {
                return None;
            },
        };
        let mut passes: Vec<Pass> = Vec::new();
        passes.push(Pass::Compute { stage: Stage::Raytrace, dispatch: self.raytrace_pipeline.pass() });
        match self.medical_pipeline {
            Some(m) => {
                passes.push(Pass::Compute { stage: Stage::Medical, dispatch: m.pass() });
            },
            None => {},
        }
        passes.push(Pass::Composite { blit });
        assert(passes@ =~= self.frame(surface_width, surface_height));
        Some(passes)
    }
}

/// A frame ends with its one composite pass, and every pass before it is a
/// compute pass: what the composite stage samples was written in the same
/// frame.
pub proof fn lemma_frame_order(p: Pipelines, surface_width: u32, surface_height: u32)
    ensures
        ({
            let frame = p.frame(surface_width, surface_height);
            &&& frame.len() >= 2
            &&& frame.last() is Composite
            &&& forall|i: int| 0 <= i < frame.len() - 1 ==> #[trigger] frame[i] is Compute
            &&& frame[0] matches Pass::Compute { stage, .. } && stage == Stage::Raytrace
        }),
{
}

/// Stages planned for a size are sized for it; resizing sizes any stages
/// for the new size; and resizing to the same size again changes nothing.
pub proof fn lemma_resized_is_sized(p: Pipelines, surface_width: u32, surface_height: u32)
    ensures
        Pipelines::planned(surface_width, surface_height).sized_for(surface_width, surface_height),
        p.resized(surface_width, surface_height).sized_for(surface_width, surface_height),
        p.resized(surface_width, surface_height).resized(surface_width, surface_height)
            == p.resized(surface_width, surface_height),
        p.sized_for(surface_width, surface_height) ==> p.resized(surface_width, surface_height) == p,
        p.sized_for(surface_width, surface_height) ==> forall|size: Extent3d|
            (#[trigger] p.with_volume(size)).sized_for(surface_width, surface_height),
{
}

} // verus!
