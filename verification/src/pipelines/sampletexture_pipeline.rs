//! The composite stage: the offscreen image drawn onto the surface.

use crate::gpu::{
    group_fits, layout_wf, nearest_sampler, samples_target, writes_target, BindGroupEntry,
    BindGroupLayoutEntry, BindingResource, BindingType, SamplerDescriptor, ShaderStage,
    TextureDimension, TextureFormat, TextureView,
};
use vstd::prelude::*;

verus! {

/// A part of a whole, as an exact ratio.
#[derive(Clone, Copy, Debug, PartialEq, Eq, Structural)]
pub struct Fraction {
    pub num: u128,
    pub den: u128,
}

impl Fraction {
    /// The ratio is defined and lies between zero and one.
    pub open spec fn in_unit(self) -> bool {
        0 < self.den && self.num <= self.den
    }
}

/// A rectangle on the surface. Origin and size are fractions of the
/// surface's width (`x`, `w`) and height (`y`, `h`).
#[derive(Clone, Copy, Debug, PartialEq, Eq, Structural)]
pub struct Quad {
    pub x: Fraction,
    pub y: Fraction,
    pub w: Fraction,
    pub h: Fraction,
}

/// Whether an image of `source_w` by `source_h` is wider, for its height,
/// than a surface of `width` by `height`.
pub open spec fn source_is_wider(source_w: nat, source_h: nat, width: nat, height: nat) -> bool {
    source_w * height > width * source_h
}

/// Where an image of `source_w` by `source_h` sits on a surface of `width`
/// by `height` when it is scaled, without distortion, until it touches the
/// surface's border, and centered. A wider image spans the whole width and
/// leaves equal bars above and below; any other spans the whole height and
/// leaves equal bars left and right.
pub open spec fn letterboxed(source_w: nat, source_h: nat, width: nat, height: nat) -> Quad {
    if source_is_wider(source_w, source_h, width, height) {
        Quad {
            x: Fraction { num: 0, den: 1 },
            y: Fraction {
                num: (source_w * height - width * source_h) as u128,
                den: (2 * source_w * height) as u128,
            },
            w: Fraction { num: 1, den: 1 },
            h: Fraction { num: (width * source_h) as u128, den: (source_w * height) as u128 },
        }
    } else {
        Quad {
            x: Fraction {
                num: (width * source_h - source_w * height) as u128,
                den: (2 * width * source_h) as u128,
            },
            y: Fraction { num: 0, den: 1 },
            w: Fraction { num: (source_w * height) as u128, den: (width * source_h) as u128 },
            h: Fraction { num: 1, den: 1 },
        }
    }
}

/// Computes `letterboxed`. There is no rectangle for an image or a surface
/// without area.
pub fn letterbox(source_w: u32, source_h: u32, width: u32, height: u32) -> (q: Option<Quad>)
    ensures
        q is Some <==> source_w > 0 && source_h > 0 && width > 0 && height > 0,
        q is Some ==> q->0 == letterboxed(
            source_w as nat,
            source_h as nat,
            width as nat,
            height as nat,
        ),
{
    if source_w == 0 || source_h == 0 || width == 0 || height == 0 {
        return None;
    }
    assert(source_w * height <= 0xffff_ffff * 0xffff_ffff) by (nonlinear_arith)
        requires
            source_w <= 0xffff_ffff,
            height <= 0xffff_ffff,
    ;
    assert(width * source_h <= 0xffff_ffff * 0xffff_ffff) by (nonlinear_arith)
        requires
            width <= 0xffff_ffff,
            source_h <= 0xffff_ffff,
    ;
    let across: u128 = source_w as u128 * height as u128;
    let along: u128 = width as u128 * source_h as u128;
    let one: Fraction = Fraction { num: 1, den: 1 };
    let zero: Fraction = Fraction { num: 0, den: 1 };
    assert(2 * source_w * height == 2 * across) by (nonlinear_arith)
        requires
            across == source_w * height,
    ;
    assert(2 * width * source_h == 2 * along) by (nonlinear_arith)
        requires
            along == width * source_h,
    ;
    if across > along {
        Some(
            Quad {
                x: zero,
                y: Fraction { num: across - along, den: 2 * across },
                w: one,
                h: Fraction { num: along, den: across },
            },
        )
    } else {
        Some(
            Quad {
                x: Fraction { num: along - across, den: 2 * along },
                y: zero,
                w: Fraction { num: across, den: along },
                h: one,
            },
        )
    }
}

/// A letterboxed rectangle lies on the surface, is centered on it, spans
/// one of its axes, and has the proportions of the image.
pub proof fn lemma_letterboxed_fits(source_w: nat, source_h: nat, width: nat, height: nat)
    requires
        0 < source_w <= u32::MAX,
        0 < source_h <= u32::MAX,
        0 < width <= u32::MAX,
        0 < height <= u32::MAX,
    ensures
        ({
            let q = letterboxed(source_w, source_h, width, height);
            &&& q.x.in_unit() && q.y.in_unit() && q.w.in_unit() && q.h.in_unit()
            // centered: the bar before the rectangle is half of what the rectangle leaves free
            &&& 2 * q.x.num * q.w.den == (q.w.den - q.w.num) * q.x.den
            &&& 2 * q.y.num * q.h.den == (q.h.den - q.h.num) * q.y.den
            // spans one axis
            &&& q.w.num == q.w.den || q.h.num == q.h.den
            // proportions: (w * width) : (h * height) is source_w : source_h
            &&& q.w.num * width * source_h * q.h.den == q.h.num * height * source_w * q.w.den
        }),
{
    let across: int = (source_w * height) as int;
    let along: int = (width * source_h) as int;
    assert(0 < across <= 0xffff_ffff * 0xffff_ffff) by (nonlinear_arith)
        requires
            across == source_w * height,
            0 < source_w <= 0xffff_ffff,
            0 < height <= 0xffff_ffff,
    ;
    assert(0 < along <= 0xffff_ffff * 0xffff_ffff) by (nonlinear_arith)
        requires
            along == width * source_h,
            0 < width <= 0xffff_ffff,
            0 < source_h <= 0xffff_ffff,
    ;
    assert(2 * source_w * height == 2 * across) by (nonlinear_arith)
        requires
            across == source_w * height,
    ;
    assert(2 * width * source_h == 2 * along) by (nonlinear_arith)
        requires
            along == width * source_h,
    ;
    let q = letterboxed(source_w, source_h, width, height);
    if across > along {
        assert(q.y.num == across - along);
        assert(q.y.den == 2 * across);
        assert(q.h.num == along && q.h.den == across);
        assert(2 * (across - along) * across == (across - along) * (2 * across))
            by (nonlinear_arith);
        assert(1 * width * source_h * across == along * height * source_w * 1)
            by (nonlinear_arith)
            requires
                across == source_w * height,
                along == width * source_h,
        ;
    } else {
        assert(q.x.num == along - across);
        assert(q.x.den == 2 * along);
        assert(q.w.num == across && q.w.den == along);
        assert(2 * (along - across) * along == (along - across) * (2 * along))
            by (nonlinear_arith);
        assert(across * width * source_h * 1 == 1 * height * source_w * along)
            by (nonlinear_arith)
            requires
                across == source_w * height,
                along == width * source_h,
        ;
    }
}

/// What the composite program expects, binding by binding: the sampler,
/// then the offscreen image.
pub open spec fn composite_layout() -> Seq<BindGroupLayoutEntry> {
    seq![
        BindGroupLayoutEntry {
            binding: 0,
            visibility: ShaderStage::Fragment,
            ty: BindingType::NonFilteringSampler,
        },
        BindGroupLayoutEntry {
            binding: 1,
            visibility: ShaderStage::Fragment,
            ty: BindingType::Texture { view_dimension: TextureDimension::D2 },
        },
    ]
}

/// The resources that the stage binds, in the order of `composite_layout`.
pub open spec fn composite_bindings() -> Seq<BindGroupEntry> {
    seq![
        BindGroupEntry { binding: 0, resource: BindingResource::Sampler },
        BindGroupEntry { binding: 1, resource: BindingResource::OffscreenTarget },
    ]
}

/// The bindings of the composite stage are numbered from zero and seen by
/// the fragment stage only, each holds a resource of its kind, and the
/// stage samples the offscreen target without ever writing it.
pub proof fn lemma_composite_bindings_sound()
    ensures
        layout_wf(composite_layout(), ShaderStage::Fragment),
        group_fits(composite_layout(), composite_bindings()),
        samples_target(composite_layout(), composite_bindings()),
        !writes_target(composite_layout(), composite_bindings()),
{
    assert(composite_bindings()[1].resource == BindingResource::OffscreenTarget);
}

/// What the surface shows where the rectangle is not.
#[derive(Clone, Copy, Debug, PartialEq, Eq, Structural)]
pub enum ClearColor {
    /// Red, green, blue and alpha all one.
    OpaqueWhite,
}

/// One draw of the composite stage.
#[derive(Clone, Copy, Debug, PartialEq, Eq, Structural)]
pub struct Blit {
    /// The color that the surface is cleared to before the draw.
    pub clear: ClearColor,
    /// Where the image is drawn.
    pub quad: Quad,
    /// Vertices of the draw: two triangles.
    pub vertices: u32,
    /// Instances of the draw.
    pub instances: u32,
}

/// The composite stage, as the resources it needs.
#[derive(Clone, Copy, Debug, PartialEq, Eq, Structural)]
pub struct SampleTexturePipeline {
    /// The format of the color target that the stage draws to.
    pub target_format: TextureFormat,
    /// The view through which the stage samples the offscreen image.
    pub sample_view: TextureView,
    pub sampler: SamplerDescriptor,
}

impl SampleTexturePipeline {
    /// The stage that draws what `sample_view` shows onto the surface.
    pub open spec fn planned(sample_view: TextureView) -> SampleTexturePipeline {
        SampleTexturePipeline {
            target_format: TextureFormat::Surface,
            sample_view,
            sampler: nearest_sampler(),
        }
    }

    /// Plans the stage that draws what `sample_view` shows onto the
    /// surface.
    pub fn new(sample_view: TextureView) -> (p: SampleTexturePipeline)
        ensures
            p == SampleTexturePipeline::planned(sample_view),
    {
        SampleTexturePipeline {
            target_format: TextureFormat::Surface,
            sample_view,
            sampler: SamplerDescriptor::nearest(),
        }
    }

    /// What the program of the stage expects at its bindings.
    pub fn bind_group_layout(&self) -> (layout: Vec<BindGroupLayoutEntry>)
        ensures
            layout@ == composite_layout(),
    {
        let layout: Vec<BindGroupLayoutEntry> = vec![
            BindGroupLayoutEntry {
                binding: 0,
                visibility: ShaderStage::Fragment,
                ty: BindingType::NonFilteringSampler,
            },
            BindGroupLayoutEntry {
                binding: 1,
                visibility: ShaderStage::Fragment,
                ty: BindingType::Texture { view_dimension: TextureDimension::D2 },
            },
        ];
        assert(layout@ =~= composite_layout());
        layout
    }

    /// The resources that the stage binds.
    pub fn bind_group(&self) -> (group: Vec<BindGroupEntry>)
        ensures
            group@ == composite_bindings(),
    {
        let group: Vec<BindGroupEntry> = vec![
            BindGroupEntry { binding: 0, resource: BindingResource::Sampler },
            BindGroupEntry { binding: 1, resource: BindingResource::OffscreenTarget },
        ];
        assert(group@ =~= composite_bindings());
        group
    }

    /// Where the image is drawn on a surface of the given size. The image
    /// counts as square, whatever the size of the offscreen target.
    pub fn get_screen_quad(&self, surface_width: u32, surface_height: u32) -> (q: Option<Quad>)
        ensures
            q is Some <==> surface_width > 0 && surface_height > 0,
            q is Some ==> q->0 == letterboxed(1, 1, surface_width as nat, surface_height as nat),
    {
        letterbox(1, 1, surface_width, surface_height)
    }

    /// The one draw of the stage on a surface of the given size: the
    /// surface cleared to white, then the image as two triangles.
    pub fn pass(&self, surface_width: u32, surface_height: u32) -> (b: Option<Blit>)
        ensures
            b is Some <==> surface_width > 0 && surface_height > 0,
            b is Some ==> b->0 == (Blit {
                clear: ClearColor::OpaqueWhite,
                quad: letterboxed(1, 1, surface_width as nat, surface_height as nat),
                vertices: 6,
                instances: 1,
            }),
    {
        match self.get_screen_quad(surface_width, surface_height) {
            Some(quad) => Some(Blit { clear: ClearColor::OpaqueWhite, quad, vertices: 6, instances: 1 }),
            None => None,
        }
    }
}

} // verus!
