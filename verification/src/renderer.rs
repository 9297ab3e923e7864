//! The renderer: the surface, the stages of a frame, and what a change of
//! size does to them.

use crate::camera::{Camera, CameraView};
use crate::fpscounter::{decimal, ticked, FPSCounter};
use crate::gpu::{Extent3d, TextureDescriptor, TextureDimension, TextureFormat, TextureUsages};
use crate::input::{PadEvent, TickInput};
use crate::pipelines::medical_pipeline::upload_fits;
use crate::pipelines::{lemma_resized_is_sized, Pass, Pipelines};
use vstd::prelude::*;

verus! {

/// Why `wgpu` could not hand out the next image of a surface. The renderer
/// hands such an error on as it got it.
#[verifier::external_type_specification]
#[verifier::external_body]
pub struct ExSurfaceError(wgpu::SurfaceError);

/// Samples per texel of the multisampled attachments.
pub const SAMPLE_COUNT: u32 = 4;

/// Frames that may be in flight at the surface.
pub const FRAME_LATENCY: u32 = 2;

/// When the surface shows a finished frame.
#[derive(Clone, Copy, Debug, PartialEq, Eq, Structural)]
pub enum PresentMode {
    /// At the display's refresh, where the surface can.
    AutoVsync,
}

/// How the presentable surface is configured.
#[derive(Clone, Copy, Debug, PartialEq, Eq, Structural)]
pub struct SurfaceConfiguration {
    pub usage: TextureUsages,
    pub format: TextureFormat,
    pub width: u32,
    pub height: u32,
    pub present_mode: PresentMode,
    pub desired_maximum_frame_latency: u32,
}

/// The configuration of a surface of the given size: a render attachment
/// in the surface's own format, shown at the display's refresh.
pub open spec fn surface_configuration(width: u32, height: u32) -> SurfaceConfiguration {
    SurfaceConfiguration {
        usage: TextureUsages {
            copy_src: false,
            copy_dst: false,
            texture_binding: false,
            storage_binding: false,
            render_attachment: true,
        },
        format: TextureFormat::Surface,
        width,
        height,
        present_mode: PresentMode::AutoVsync,
        desired_maximum_frame_latency: 2,
    }
}

/// A multisampled color attachment for a surface of the given size.
pub open spec fn multisampled_framebuffer(width: u32, height: u32, sample_count: u32) -> TextureDescriptor {
    TextureDescriptor {
        size: Extent3d { width, height, depth_or_array_layers: 1 },
        mip_level_count: 1,
        sample_count,
        dimension: TextureDimension::D2,
        format: TextureFormat::Surface,
        usage: TextureUsages {
            copy_src: false,
            copy_dst: false,
            texture_binding: false,
            storage_binding: false,
            render_attachment: true,
        },
    }
}

/// A multisampled depth attachment for a surface of the given size.
pub open spec fn depthbuffer(width: u32, height: u32) -> TextureDescriptor {
    TextureDescriptor {
        size: Extent3d { width, height, depth_or_array_layers: 1 },
        mip_level_count: 1,
        sample_count: 4,
        dimension: TextureDimension::D2,
        format: TextureFormat::Depth32Float,
        usage: TextureUsages {
            copy_src: false,
            copy_dst: false,
            texture_binding: false,
            storage_binding: false,
            render_attachment: true,
        },
    }
}

/// The position of the first `true` in `flags`, or their number where
/// none is `true`.
pub open spec fn first_true(flags: Seq<bool>) -> nat
    decreases flags.len(),
{
    if flags.len() == 0 || flags[0] {
        0
    } else {
        1 + first_true(flags.drop_first())
    }
}

/// The format to configure a surface with: the first of its formats that is
/// sRGB, or its first format where none is. `srgb[i]` says whether format
/// `i` is sRGB.
pub open spec fn preferred_format(srgb: Seq<bool>) -> nat {
    if first_true(srgb) < srgb.len() {
        first_true(srgb)
    } else {
        0
    }
}

/// Nothing before the first `true` is `true`, and what stands there is.
pub proof fn lemma_first_true(flags: Seq<bool>)
    ensures
        first_true(flags) <= flags.len(),
        forall|i: int| 0 <= i < first_true(flags) ==> !#[trigger] flags[i],
        first_true(flags) < flags.len() ==> flags[first_true(flags) as int],
    decreases flags.len(),
{
    if flags.len() > 0 && !flags[0] {
        let rest = flags.drop_first();
        lemma_first_true(rest);
        assert forall|i: int| 0 <= i < first_true(flags) implies !#[trigger] flags[i] by {
            if i > 0 {
                assert(flags[i] == rest[i - 1]);
            }
        }
        if first_true(flags) < flags.len() {
            assert(flags[first_true(flags) as int] == rest[first_true(rest) as int]);
        }
    }
}

/// Picks the format to configure the surface with. A surface without
/// formats has none.
pub fn pick_surface_format(srgb: &Vec<bool>) -> (index: Option<usize>)
    ensures
        index == if srgb@.len() > 0 {
            Some(preferred_format(srgb@) as usize)
        } else {
            None
        },
{
    let n: usize = srgb.len();
    if n == 0 {
        return None;
    }
    proof {
        lemma_first_true(srgb@);
    }
    let mut i: usize = 0;
    while i < n
        invariant
            n == srgb@.len(),
            i <= n,
            i <= first_true(srgb@),
            first_true(srgb@) <= n,
            first_true(srgb@) < n ==> srgb@[first_true(srgb@) as int],
            forall|k: int| 0 <= k < first_true(srgb@) ==> !#[trigger] srgb@[k],
        decreases n - i,
    {
        if srgb[i] {
            return Some(i);
        }
        i += 1;
    }
    Some(0)
}

/// Everything whose size follows the surface's, with the surface's
/// configuration.
#[derive(Clone, Copy, Debug, PartialEq, Eq)]
pub struct FrameResources {
    pub surface_config: SurfaceConfiguration,
    pub pipelines: Pipelines,
    pub multisample_framebuffer: TextureDescriptor,
    pub depthbuffer: TextureDescriptor,
}

impl FrameResources {
    /// The surface has area, and everything whose size follows the surface
    /// has the surface's size: no resource is left from another size.
    pub open spec fn wf(self) -> bool {
        let width = self.surface_config.width;
        let height = self.surface_config.height;
        &&& width > 0 && height > 0
        &&& self.pipelines.sized_for(width, height)
        &&& self.multisample_framebuffer == multisampled_framebuffer(width, height, 4)
        &&& self.depthbuffer == depthbuffer(width, height)
    }

    /// The resources for a new surface of the given size.
    pub open spec fn planned(width: u32, height: u32) -> FrameResources {
        FrameResources {
            surface_config: surface_configuration(width, height),
            pipelines: Pipelines::planned(width, height),
            multisample_framebuffer: multisampled_framebuffer(width, height, 4),
            depthbuffer: depthbuffer(width, height),
        }
    }

    /// The resources after a request to take the given size. A size without
    /// area changes nothing. Any other is taken by the surface and by
    /// everything that follows it.
    pub open spec fn resized(self, width: u32, height: u32) -> FrameResources {
        if width > 0 && height > 0 {
            FrameResources {
                surface_config: SurfaceConfiguration { width, height, ..self.surface_config },
                pipelines: self.pipelines.resized(width, height),
                multisample_framebuffer: multisampled_framebuffer(width, height, 4),
                depthbuffer: depthbuffer(width, height),
            }
        } else {
            self
        }
    }

    /// The passes of one frame, in the order in which they are recorded.
    pub open spec fn frame(self) -> Seq<Pass> {
        self.pipelines.frame(self.surface_config.width, self.surface_config.height)
    }
}

/// Taking the same size twice is taking it once: the second request finds
/// every resource as the first one left it. A request for a size without
/// area is none. Resources that follow their surface still do so after any
/// request, and a request for the size that they have changes nothing.
pub proof fn lemma_resize_round_trip(r: FrameResources, width: u32, height: u32)
    ensures
        r.resized(width, height).resized(width, height) == r.resized(width, height),
        width == 0 || height == 0 ==> r.resized(width, height) == r,
        width > 0 && height > 0 ==> r.resized(width, height).wf(),
        r.wf() ==> r.resized(width, height).wf(),
        r.wf() ==> r.resized(r.surface_config.width, r.surface_config.height) == r,
{
    lemma_resized_is_sized(r.pipelines, width, height);
    lemma_resized_is_sized(r.pipelines, r.surface_config.width, r.surface_config.height);
}

/// The place where the resources of the frame are kept. What is in it
/// follows its surface at all times: a change of size puts a whole new set
/// in the place of the old one, and nothing is changed in place.
pub struct Installed {
    current: FrameResources,
}

impl View for Installed {
    type V = FrameResources;

    closed spec fn view(&self) -> FrameResources {
        self.current
    }
}

impl Installed {
    #[verifier::type_invariant]
    spec fn follows_surface(self) -> bool {
        self.current.wf()
    }

    /// The resources for a new surface whose window is `width` by
    /// `height` inside. An extent of zero counts as one.
    pub fn new(width: u32, height: u32) -> (installed: Installed)
        ensures
            installed@ == FrameResources::planned(
                if width == 0 {
                    1u32
                } else {
                    width
                },
                if height == 0 {
                    1u32
                } else {
                    height
                },
            ),
    {
        let width: u32 = if width == 0 {
            1
        } else {
            width
        };
        let height: u32 = if height == 0 {
            1
        } else {
            height
        };
        proof {
            lemma_resized_is_sized(Pipelines::planned(width, height), width, height);
        }
        Installed {
            current: FrameResources {
                surface_config: SurfaceConfiguration {
                    usage: TextureUsages {
                        copy_src: false,
                        copy_dst: false,
                        texture_binding: false,
                        storage_binding: false,
                        render_attachment: true,
                    },
                    format: TextureFormat::Surface,
                    width,
                    height,
                    present_mode: PresentMode::AutoVsync,
                    desired_maximum_frame_latency: FRAME_LATENCY,
                },
                pipelines: Pipelines::new(width, height),
                multisample_framebuffer: Renderer::create_multisampled_framebuffer(
                    width,
                    height,
                    SAMPLE_COUNT,
                ),
                depthbuffer: Renderer::create_depthbuffer(width, height),
            },
        }
    }

    /// What is installed. It follows its surface.
    pub fn get(&self) -> (current: FrameResources)
        ensures
            current == self@,
            current.wf(),
    {
        proof {
            use_type_invariant(self);
        }
        self.current
    }

    /// Takes a new size for the surface: installs resources of that size
    /// in place of the old ones, and returns whether it did. It does so for
    /// every size that has area, the old size too.
    pub fn resize(&mut self, width: u32, height: u32) -> (changed: bool)
        ensures
            changed == (width > 0 && height > 0),
            final(self)@ == old(self)@.resized(width, height),
    {
        if width > 0 && height > 0 {
            let mut pipelines: Pipelines = self.current.pipelines;
            pipelines.resize(width, height);
            proof {
                lemma_resize_round_trip(self.current, width, height);
            }
            self.current = FrameResources {
                surface_config: SurfaceConfiguration {
                    usage: self.current.surface_config.usage,
                    format: self.current.surface_config.format,
                    width,
                    height,
                    present_mode: self.current.surface_config.present_mode,
                    desired_maximum_frame_latency:
                        self.current.surface_config.desired_maximum_frame_latency,
                },
                pipelines,
                multisample_framebuffer: Renderer::create_multisampled_framebuffer(
                    width,
                    height,
                    SAMPLE_COUNT,
                ),
                depthbuffer: Renderer::create_depthbuffer(width, height),
            };
            true
        } else {
            false
        }
    }

    /// Adds the volume-sampling stage for a volume of extents `size` that
    /// comes as `scalars` values. Data that does not fit its extents adds
    /// nothing.
    pub fn load_volume(&mut self, size: Extent3d, scalars: usize) -> (loaded: bool)
        ensures
            loaded == upload_fits(size, scalars as nat),
            loaded ==> final(self)@ == (FrameResources {
                pipelines: old(self)@.pipelines.with_volume(size),
                ..old(self)@
            }),
            !loaded ==> final(self)@ == old(self)@,
    {
        proof {
            use_type_invariant(&*self);
        }
        let mut pipelines: Pipelines = self.current.pipelines;
        let loaded: bool = pipelines.load_volume(size, scalars);
        if loaded {
            self.current = FrameResources {
                surface_config: self.current.surface_config,
                pipelines,
                multisample_framebuffer: self.current.multisample_framebuffer,
                depthbuffer: self.current.depthbuffer,
            };
        }
        loaded
    }
}

/// The renderer, as plain values.
pub struct RendererView {
    pub resources: FrameResources,
    /// When each frame of the last second was shown.
    pub frames: Seq<u128>,
    pub camera: CameraView,
}

/// The renderer.
pub struct Renderer {
    pub resources: Installed,
    pub fpscounter: FPSCounter,
    pub camera: Camera,
}

impl View for Renderer {
    type V = RendererView;

    open spec fn view(&self) -> RendererView {
        RendererView {
            resources: self.resources@,
            frames: self.fpscounter@,
            camera: self.camera@,
        }
    }
}

impl Renderer {
    /// The renderer for a window whose inner size is `width` by `height`,
    /// with the given camera, before any frame. An extent of zero counts as
    /// one.
    pub fn new(width: u32, height: u32, camera: Camera) -> (r: Renderer)
        ensures
            r@ == (RendererView {
                resources: FrameResources::planned(
                    if width == 0 {
                        1u32
                    } else {
                        width
                    },
                    if height == 0 {
                        1u32
                    } else {
                        height
                    },
                ),
                frames: Seq::empty(),
                camera: camera@,
            }),
    {
        Renderer { resources: Installed::new(width, height), fpscounter: FPSCounter::new(), camera }
    }

    /// Describes a multisampled color attachment for a surface of the
    /// given size.
    pub fn create_multisampled_framebuffer(width: u32, height: u32, sample_count: u32) -> (t:
        TextureDescriptor)
        ensures
            t == multisampled_framebuffer(width, height, sample_count),
    {
        TextureDescriptor {
            size: Extent3d { width, height, depth_or_array_layers: 1 },
            mip_level_count: 1,
            sample_count,
            dimension: TextureDimension::D2,
            format: TextureFormat::Surface,
            usage: TextureUsages {
                copy_src: false,
                copy_dst: false,
                texture_binding: false,
                storage_binding: false,
                render_attachment: true,
            },
        }
    }

    /// Describes the depth attachment for a surface of the given size.
    pub fn create_depthbuffer(width: u32, height: u32) -> (t: TextureDescriptor)
        ensures
            t == depthbuffer(width, height),
    {
        TextureDescriptor {
            size: Extent3d { width, height, depth_or_array_layers: 1 },
            mip_level_count: 1,
            sample_count: SAMPLE_COUNT,
            dimension: TextureDimension::D2,
            format: TextureFormat::Depth32Float,
            usage: TextureUsages {
                copy_src: false,
                copy_dst: false,
                texture_binding: false,
                storage_binding: false,
                render_attachment: true,
            },
        }
    }

    /// Plans one frame. Where the surface handed out its next image, the
    /// frame is the passes to record into one submission, in order. Where
    /// it did not, there is no frame in this tick, and the surface's error
    /// goes to the caller as it came.
    pub fn render(&self, acquired: Result<(), wgpu::SurfaceError>) -> (frame: Result<
        Vec<Pass>,
        wgpu::SurfaceError,
    >)
        ensures
            match acquired {
                Ok(_) => frame is Ok && frame->Ok_0@ == self@.resources.frame(),
                Err(e) => frame == Err::<Vec<Pass>, wgpu::SurfaceError>(e),
            },
    {
        match acquired {
            Ok(_) => {
                let current: FrameResources = self.resources.get();
                match current.pipelines.render(
                    current.surface_config.width,
                    current.surface_config.height,
                ) {
                    Some(passes) => Ok(passes),
                    None => vstd::pervasive::unreached(),
                }
            },
            Err(e) => Err(e),
        }
    }

    /// Notes that a frame was presented, and returns the number of frames
    /// of the last second. Whatever the clock reads, the frame is counted
    /// at that reading; nothing else changes.
    pub fn presented(&mut self) -> (count: usize)
        ensures
            exists|now: u128| final(self)@.frames == #[trigger] ticked(old(self)@.frames, now),
            final(self)@ == (RendererView { frames: final(self)@.frames, ..old(self)@ }),
            count == final(self)@.frames.len(),
    {
        let ghost before: Seq<u128> = self.fpscounter@;
        let count: usize = self.fpscounter.tick();
        proof {
            let now = choose|now: u128| self.fpscounter@ == #[trigger] ticked(before, now);
            assert(self@.frames == ticked(old(self)@.frames, now));
        }
        count
    }

    /// Starts a tick of the camera, for the measured frame time `dt` and
    /// the gamepad events that came in since the tick before.
    pub fn update(&mut self, dt: u32, events: &Vec<PadEvent>) -> (input: TickInput)
        ensures
            input@ == old(self)@.camera.heard(events@).snapshot(dt),
            final(self)@ == (RendererView {
                camera: old(self)@.camera.heard(events@).drained(),
                ..old(self)@
            }),
    {
        self.camera.update(dt, events)
    }

    /// The frame count as text.
    pub fn get_fps(&self) -> (text: String)
        ensures
            text@ == if self@.frames.len() >= 2 {
                decimal(self@.frames.len())
            } else {
                seq!['?']
            },
    {
        self.fpscounter.print()
    }

    /// Takes a new size for the surface. Returns whether the surface is to
    /// be configured anew and every size-dependent resource replaced: so it
    /// is for every size that has area. A size without area changes
    /// nothing.
    pub fn resize(&mut self, width: u32, height: u32) -> (changed: bool)
        ensures
            changed == (width > 0 && height > 0),
            final(self)@ == (RendererView {
                resources: old(self)@.resources.resized(width, height),
                ..old(self)@
            }),
    {
        self.resources.resize(width, height)
    }
}

} // verus!
