//! The camera controller.
//!
//! Numbers that come from input devices or go to GPU programs are binary32
//! and are held as their bit patterns (see `binary32`). The controller
//! keeps the camera's pose, latches buttons and sticks, collects pointer
//! motion and wheel steps between ticks, and hands each tick one snapshot
//! of all of it, with dead zones applied and the frame time bounded. The
//! arithmetic that leads from a snapshot to the next pose is done outside
//! this library, which takes the result, holds the pitch within its limit
//! and lays out what is published.

use crate::binary32::ZERO;
use crate::gpu::{
    group_fits, layout_wf, BindGroupEntry, BindGroupLayoutEntry, BindingResource, BindingType,
    ShaderStage,
};
use crate::input::{Gamepad, Inversion, PadEvent, TickInput, TickInputView};
use crate::limits::{
    bounded_frame_time, clamped_pitch, deadzone, frame_time, pitch_within_limit, Orientation,
    DEFAULT_FRAME_TIME,
};
use crate::words::{cast_words, is_memory_image};
use vstd::prelude::*;

verus! {

/// How the camera projects the scene.
#[derive(Clone, Copy, Debug, PartialEq, Eq, Structural)]
pub enum Projection {
    Orthographic,
    Perspective,
}

impl Projection {
    /// The number by which GPU programs know the projection.
    pub open spec fn spec_tag(self) -> u32 {
        match self {
            Projection::Orthographic => 0,
            Projection::Perspective => 1,
        }
    }

    /// The number by which GPU programs know the projection.
    pub fn tag(&self) -> (t: u32)
        ensures
            t == self.spec_tag(),
    {
        match self {
            Projection::Orthographic => 0,
            Projection::Perspective => 1,
        }
    }
}

/// What the camera publishes to GPU programs. Vectors and scalars are
/// binary32 words.
#[derive(Clone, Copy, Debug, PartialEq, Eq)]
pub struct CameraUniform {
    pub eye: [u32; 3],
    pub lens_radius: u32,
    /// Camera "right".
    pub u_axis: [u32; 3],
    pub z_near: u32,
    /// Camera "up".
    pub v_axis: [u32; 3],
    pub z_far: u32,
    /// The camera looks "backwards" along this axis.
    pub w_axis: [u32; 3],
    pub projection: u32,
    pub horizontal: [u32; 3],
    pub vertical: [u32; 3],
    pub lower_left_corner: [u32; 3],
}

/// Words of the uniform as GPU programs read it.
pub const UNIFORM_WORDS: usize = 28;

impl CameraUniform {
    /// The uniform with every word zero.
    pub open spec fn zeroed() -> CameraUniform {
        CameraUniform {
            eye: [0u32, 0u32, 0u32],
            lens_radius: 0,
            u_axis: [0u32, 0u32, 0u32],
            z_near: 0,
            v_axis: [0u32, 0u32, 0u32],
            z_far: 0,
            w_axis: [0u32, 0u32, 0u32],
            projection: 0,
            horizontal: [0u32, 0u32, 0u32],
            vertical: [0u32, 0u32, 0u32],
            lower_left_corner: [0u32, 0u32, 0u32],
        }
    }

    /// The layout that GPU programs expect: each vector starts at a
    /// multiple of four words and is followed by one scalar, or by one word
    /// of padding where there is no scalar left.
    pub open spec fn words(self) -> Seq<u32> {
        seq![
            self.eye[0],
            self.eye[1],
            self.eye[2],
            self.lens_radius,
            self.u_axis[0],
            self.u_axis[1],
            self.u_axis[2],
            self.z_near,
            self.v_axis[0],
            self.v_axis[1],
            self.v_axis[2],
            self.z_far,
            self.w_axis[0],
            self.w_axis[1],
            self.w_axis[2],
            self.projection,
            self.horizontal[0],
            self.horizontal[1],
            self.horizontal[2],
            0u32,
            self.vertical[0],
            self.vertical[1],
            self.vertical[2],
            0u32,
            self.lower_left_corner[0],
            self.lower_left_corner[1],
            self.lower_left_corner[2],
            0u32,
        ]
    }

    /// Lays the uniform out as words.
    pub fn to_words(&self) -> (words: Vec<u32>)
        ensures
            words@ == self.words(),
            words@.len() == UNIFORM_WORDS,
    {
        let words: Vec<u32> = vec![
            self.eye[0],
            self.eye[1],
            self.eye[2],
            self.lens_radius,
            self.u_axis[0],
            self.u_axis[1],
            self.u_axis[2],
            self.z_near,
            self.v_axis[0],
            self.v_axis[1],
            self.v_axis[2],
            self.z_far,
            self.w_axis[0],
            self.w_axis[1],
            self.w_axis[2],
            self.projection,
            self.horizontal[0],
            self.horizontal[1],
            self.horizontal[2],
            0u32,
            self.vertical[0],
            self.vertical[1],
            self.vertical[2],
            0u32,
            self.lower_left_corner[0],
            self.lower_left_corner[1],
            self.lower_left_corner[2],
            0u32,
        ];
        assert(words@ =~= self.words());
        words
    }

    /// The bytes that are uploaded: the whole uniform, every time.
    pub fn bytes(&self) -> (bytes: Vec<u8>)
        ensures
            is_memory_image(bytes@, self.words()),
            bytes@.len() == 4 * UNIFORM_WORDS,
    {
        let words: Vec<u32> = self.to_words();
        cast_words(&words)
    }
}

impl Default for CameraUniform {
    fn default() -> (u: CameraUniform)
        ensures
            u == CameraUniform::zeroed(),
    {
        CameraUniform {
            eye: [0u32, 0u32, 0u32],
            lens_radius: 0,
            u_axis: [0u32, 0u32, 0u32],
            z_near: 0,
            v_axis: [0u32, 0u32, 0u32],
            z_far: 0,
            w_axis: [0u32, 0u32, 0u32],
            projection: 0,
            horizontal: [0u32, 0u32, 0u32],
            vertical: [0u32, 0u32, 0u32],
            lower_left_corner: [0u32, 0u32, 0u32],
        }
    }
}

/// The camera controller.
pub struct Camera {
    pub eye: [u32; 3],
    pub target: [u32; 3],
    pub up: [u32; 3],
    pub aspect: u32,
    pub fovy: u32,
    pub znear: u32,
    pub zfar: u32,
    pub aperture: u32,
    pub focus_distance: u32,
    pub projection: Projection,
    pub orientation: Orientation,
    /// Units per second.
    pub move_speed: u32,
    /// Radians per second at full deflection.
    pub look_sensitivity: u32,
    /// What was last published.
    pub uniform: CameraUniform,
    pub gamepad: Gamepad,
    pub mouse_right_down: bool,
    pub mouse_middle_down: bool,
    /// Radians per pixel.
    pub mouse_look_sensitivity: u32,
    /// Units per pixel.
    pub mouse_pan_sensitivity: u32,
    /// Units per wheel step.
    pub scroll_speed: u32,
    pub invert: Inversion,
    /// Pointer motion that no tick has consumed yet, oldest first.
    pub motion: Vec<(u32, u32)>,
    /// Wheel steps that no tick has consumed yet, oldest first.
    pub scroll: Vec<u32>,
}

/// A `Camera` as plain values.
pub struct CameraView {
    pub eye: [u32; 3],
    pub target: [u32; 3],
    pub up: [u32; 3],
    pub aspect: u32,
    pub fovy: u32,
    pub znear: u32,
    pub zfar: u32,
    pub aperture: u32,
    pub focus_distance: u32,
    pub projection: Projection,
    pub yaw: u32,
    pub pitch: u32,
    pub move_speed: u32,
    pub look_sensitivity: u32,
    pub uniform: CameraUniform,
    pub gamepad: Gamepad,
    pub mouse_right_down: bool,
    pub mouse_middle_down: bool,
    pub mouse_look_sensitivity: u32,
    pub mouse_pan_sensitivity: u32,
    pub scroll_speed: u32,
    pub invert: Inversion,
    pub motion: Seq<(u32, u32)>,
    pub scroll: Seq<u32>,
}

impl View for Camera {
    type V = CameraView;

    open spec fn view(&self) -> CameraView {
        CameraView {
            eye: self.eye,
            target: self.target,
            up: self.up,
            aspect: self.aspect,
            fovy: self.fovy,
            znear: self.znear,
            zfar: self.zfar,
            aperture: self.aperture,
            focus_distance: self.focus_distance,
            projection: self.projection,
            yaw: self.orientation.spec_yaw(),
            pitch: self.orientation.spec_pitch(),
            move_speed: self.move_speed,
            look_sensitivity: self.look_sensitivity,
            uniform: self.uniform,
            gamepad: self.gamepad,
            mouse_right_down: self.mouse_right_down,
            mouse_middle_down: self.mouse_middle_down,
            mouse_look_sensitivity: self.mouse_look_sensitivity,
            mouse_pan_sensitivity: self.mouse_pan_sensitivity,
            scroll_speed: self.scroll_speed,
            invert: self.invert,
            motion: self.motion@,
            scroll: self.scroll@,
        }
    }
}

impl CameraView {
    /// The controller as it starts, for a surface of aspect ratio `aspect`
    /// and a camera that looks along `yaw` and `pitch`. The eye is at
    /// (0, 0.8, 2.5) and looks at (0, 0.6, 1.5), with up along -y; the
    /// field of view is 45 degrees, near and far planes are at 1 and 1000,
    /// the aperture is 0.5 and the focus distance 1. The camera moves 0.8
    /// units and turns 0.8 radians per second, 0.0035 radians and 0.003
    /// units per pixel, and 0.6 units per wheel step. It is a perspective
    /// camera that has published nothing, its gamepad is at rest, no
    /// button is held, nothing is pending, and every direction of pointer
    /// motion is turned around.
    pub open spec fn initial(aspect: u32, yaw: u32, pitch: u32) -> CameraView {
        CameraView {
            eye: [0u32, 0x3f4c_cccdu32, 0x4020_0000u32],
            target: [0u32, 0x3f19_999au32, 0x3fc0_0000u32],
            up: [0x8000_0000u32, 0xbf80_0000u32, 0x8000_0000u32],
            aspect,
            fovy: 0x4234_0000,
            znear: 0x3f80_0000,
            zfar: 0x447a_0000,
            aperture: 0x3f00_0000,
            focus_distance: 0x3f80_0000,
            projection: Projection::Perspective,
            yaw,
            pitch: clamped_pitch(pitch),
            move_speed: 0x3f4c_cccd,
            look_sensitivity: 0x3f4c_cccd,
            uniform: CameraUniform::zeroed(),
            gamepad: Gamepad::at_rest(),
            mouse_right_down: false,
            mouse_middle_down: false,
            mouse_look_sensitivity: 0x3b65_6042,
            mouse_pan_sensitivity: 0x3b44_9ba6,
            scroll_speed: 0x3f19_999a,
            invert: Inversion { look_x: true, look_y: true, pan_x: true, pan_y: true },
            motion: Seq::empty(),
            scroll: Seq::empty(),
        }
    }

    /// The controller after a run of gamepad events, first to last.
    pub open spec fn heard(self, events: Seq<PadEvent>) -> CameraView {
        CameraView { gamepad: self.gamepad.after_all(events), ..self }
    }

    /// What a tick with measured frame time `dt` consumes.
    pub open spec fn snapshot(self, dt: u32) -> TickInputView {
        TickInputView {
            dt: bounded_frame_time(dt),
            gamepad: self.gamepad.deadzoned(),
            look: self.mouse_right_down,
            pan: self.mouse_middle_down,
            invert: self.invert,
            motion: self.motion,
            scroll: self.scroll,
        }
    }

    /// The controller after the start of a tick: pointer motion and wheel
    /// steps are used up and the aperture is closed; buttons and sticks
    /// stay as they are.
    pub open spec fn drained(self) -> CameraView {
        CameraView { aperture: ZERO, motion: Seq::empty(), scroll: Seq::empty(), ..self }
    }
}

/// What a program expects where the camera is bound by itself: the uniform
/// at binding 0, seen by the vertex stage.
pub open spec fn camera_layout() -> Seq<BindGroupLayoutEntry> {
    seq![
        BindGroupLayoutEntry {
            binding: 0,
            visibility: ShaderStage::Vertex,
            ty: BindingType::UniformBuffer,
        },
    ]
}

/// The one resource of the camera's own bind group.
pub open spec fn camera_bindings() -> Seq<BindGroupEntry> {
    seq![BindGroupEntry { binding: 0, resource: BindingResource::CameraUniform }]
}

/// The camera's own bind group fills its layout.
pub proof fn lemma_camera_bindings_sound()
    ensures
        layout_wf(camera_layout(), ShaderStage::Vertex),
        group_fits(camera_layout(), camera_bindings()),
{
}

impl Camera {
    /// The controller as it starts, for a surface of aspect ratio `aspect`
    /// and a camera that looks along `yaw` and `pitch`.
    pub fn new(aspect: u32, yaw: u32, pitch: u32) -> (c: Camera)
        ensures
            c@ == CameraView::initial(aspect, yaw, pitch),
    {
        Camera {
            eye: [0u32, 0x3f4c_cccdu32, 0x4020_0000u32],
            target: [0u32, 0x3f19_999au32, 0x3fc0_0000u32],
            up: [0x8000_0000u32, 0xbf80_0000u32, 0x8000_0000u32],
            aspect,
            fovy: 0x4234_0000,
            znear: 0x3f80_0000,
            zfar: 0x447a_0000,
            aperture: 0x3f00_0000,
            focus_distance: 0x3f80_0000,
            projection: Projection::Perspective,
            orientation: Orientation::new(yaw, pitch),
            move_speed: 0x3f4c_cccd,
            look_sensitivity: 0x3f4c_cccd,
            uniform: CameraUniform::default(),
            gamepad: Gamepad {
                dpaddown: false,
                dpadup: false,
                left_x: ZERO,
                left_y: ZERO,
                right_x: ZERO,
                right_y: ZERO,
            },
            mouse_right_down: false,
            mouse_middle_down: false,
            mouse_look_sensitivity: 0x3b65_6042,
            mouse_pan_sensitivity: 0x3b44_9ba6,
            scroll_speed: 0x3f19_999a,
            invert: Inversion { look_x: true, look_y: true, pan_x: true, pan_y: true },
            motion: Vec::new(),
            scroll: Vec::new(),
        }
    }

    /// The layout of the camera's own bind group.
    pub fn bind_group_layout(&self) -> (layout: Vec<BindGroupLayoutEntry>)
        ensures
            layout@ == camera_layout(),
    {
        let layout: Vec<BindGroupLayoutEntry> = vec![
            BindGroupLayoutEntry {
                binding: 0,
                visibility: ShaderStage::Vertex,
                ty: BindingType::UniformBuffer,
            },
        ];
        assert(layout@ =~= camera_layout());
        layout
    }

    /// The camera's own bind group.
    pub fn bind_group(&self) -> (group: Vec<BindGroupEntry>)
        ensures
            group@ == camera_bindings(),
    {
        let group: Vec<BindGroupEntry> = vec![
            BindGroupEntry { binding: 0, resource: BindingResource::CameraUniform },
        ];
        assert(group@ =~= camera_bindings());
        group
    }

    /// Notes that the pointer moved by (`dx`, `dy`).
    pub fn mouse_motion(&mut self, dx: u32, dy: u32)
        ensures
            final(self)@ == (CameraView { motion: old(self)@.motion.push((dx, dy)), ..old(self)@ }),
    {
        self.motion.push((dx, dy));
    }

    /// Notes which pointer buttons are held.
    pub fn mouse_buttons(&mut self, right: bool, middle: bool)
        ensures
            final(self)@ == (CameraView {
                mouse_right_down: right,
                mouse_middle_down: middle,
                ..old(self)@
            }),
    {
        self.mouse_right_down = right;
        self.mouse_middle_down = middle;
    }

    /// Notes that the wheel turned by `delta`.
    pub fn mouse_wheel(&mut self, delta: u32)
        ensures
            final(self)@ == (CameraView { scroll: old(self)@.scroll.push(delta), ..old(self)@ }),
    {
        self.scroll.push(delta);
    }

    /// Takes in one gamepad event.
    pub fn gamepad_event(&mut self, event: PadEvent)
        ensures
            final(self)@ == (CameraView { gamepad: old(self)@.gamepad.after(event), ..old(self)@ }),
    {
        self.gamepad.apply(event);
    }

    /// Takes in a run of gamepad events, first to last.
    pub fn gamepad_events(&mut self, events: &Vec<PadEvent>)
        ensures
            final(self)@ == old(self)@.heard(events@),
    {
        let n: usize = events.len();
        let mut i: usize = 0;
        while i < n
            invariant
                n == events@.len(),
                i <= n,
                self@ == old(self)@.heard(events@.take(i as int)),
            decreases n - i,
        {
            self.gamepad.apply(events[i]);
            assert(events@.take(i + 1).drop_last() =~= events@.take(i as int));
            i += 1;
        }
        assert(events@.take(n as int) =~= events@);
    }

    /// Starts a tick, for the measured frame time `dt` and the gamepad
    /// events that came in since the tick before: takes in the events, hands
    /// out what the tick consumes, uses up the pending pointer motion and
    /// wheel steps, and closes the aperture.
    pub fn update(&mut self, dt: u32, events: &Vec<PadEvent>) -> (input: TickInput)
        ensures
            input@ == old(self)@.heard(events@).snapshot(dt),
            final(self)@ == old(self)@.heard(events@).drained(),
    {
        self.gamepad_events(events);
        self.aperture = ZERO;
        let mut motion: Vec<(u32, u32)> = Vec::new();
        let mut scroll: Vec<u32> = Vec::new();
        std::mem::swap(&mut motion, &mut self.motion);
        std::mem::swap(&mut scroll, &mut self.scroll);
        TickInput {
            dt: frame_time(dt),
            gamepad: Gamepad {
                dpaddown: self.gamepad.dpaddown,
                dpadup: self.gamepad.dpadup,
                left_x: deadzone(self.gamepad.left_x),
                left_y: deadzone(self.gamepad.left_y),
                right_x: deadzone(self.gamepad.right_x),
                right_y: deadzone(self.gamepad.right_y),
            },
            look: self.mouse_right_down,
            pan: self.mouse_middle_down,
            invert: self.invert,
            motion,
            scroll,
        }
    }

    /// The yaw.
    pub fn yaw(&self) -> (yaw: u32)
        ensures
            yaw == self@.yaw,
    {
        self.orientation.yaw()
    }

    /// The pitch. It is within the limit, whatever the camera went through.
    pub fn pitch(&self) -> (pitch: u32)
        ensures
            pitch == self@.pitch,
            pitch_within_limit(pitch),
    {
        self.orientation.pitch()
    }

    /// Turns the camera to the given yaw, and to the given pitch as far as
    /// the limit lets it go. Returns the pitch that the camera took.
    pub fn turn(&mut self, yaw: u32, pitch: u32) -> (taken: u32)
        ensures
            taken == clamped_pitch(pitch),
            pitch_within_limit(taken),
            final(self)@ == (CameraView { yaw, pitch: taken, ..old(self)@ }),
    {
        self.orientation = Orientation::new(yaw, pitch);
        self.orientation.pitch()
    }

    /// Puts the eye at `eye`, looking at `target`.
    pub fn move_to(&mut self, eye: [u32; 3], target: [u32; 3])
        ensures
            final(self)@ == (CameraView { eye, target, ..old(self)@ }),
    {
        self.eye = eye;
        self.target = target;
    }

    /// Publishes a uniform: keeps it, with the camera's projection written
    /// into it, and hands out the bytes to upload.
    pub fn publish(&mut self, uniform: CameraUniform) -> (bytes: Vec<u8>)
        ensures
            final(self)@ == (CameraView {
                uniform: (CameraUniform { projection: old(self).projection.spec_tag(), ..uniform }),
                ..old(self)@
            }),
            is_memory_image(bytes@, final(self).uniform.words()),
    {
        self.uniform = uniform;
        self.uniform.projection = self.projection.tag();
        self.uniform.bytes()
    }
}

/// Pointer motion and wheel steps are consumed once. After the start of a
/// tick, and as long as no input comes in, every tick finds the pointer
/// still and finds what the tick before it found of buttons, sticks and
/// frame time; and none of these ticks changes the controller any more. A
/// tick for which no time has passed takes the default frame time.
pub proof fn lemma_tick_consumes_once(c: CameraView, dt: u32)
    ensures
        ({
            let none = Seq::<PadEvent>::empty();
            let after = c.drained();
            &&& after.heard(none) == after
            &&& after.snapshot(dt).pointer_is_still()
            &&& after.snapshot(dt) == (TickInputView {
                motion: Seq::empty(),
                scroll: Seq::empty(),
                ..c.snapshot(dt)
            })
            &&& after.heard(none).drained() == after
            &&& after.heard(none).drained().heard(none).snapshot(dt) == after.heard(none).snapshot(dt)
            &&& after.snapshot(ZERO).dt == DEFAULT_FRAME_TIME
        }),
{
}

} // verus!
