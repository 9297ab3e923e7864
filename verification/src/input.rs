//! What reaches the camera: gamepad events, and the snapshot that a tick
//! consumes.

use crate::binary32::ZERO;
use crate::limits::deadzoned;
use vstd::prelude::*;

verus! {

/// The buttons of a gamepad that the camera listens to.
#[derive(Clone, Copy, Debug, PartialEq, Eq, Structural)]
pub enum PadButton {
    DPadDown,
    DPadUp,
    /// Any other button.
    Other,
}

/// The stick axes of a gamepad that the camera listens to.
#[derive(Clone, Copy, Debug, PartialEq, Eq, Structural)]
pub enum PadAxis {
    LeftStickX,
    LeftStickY,
    RightStickX,
    RightStickY,
    /// Any other axis.
    Other,
}

/// One event from a gamepad.
#[derive(Clone, Copy, Debug, PartialEq, Eq, Structural)]
pub enum PadEvent {
    ButtonPressed(PadButton),
    ButtonReleased(PadButton),
    /// An axis moved to a deflection, a binary32 word.
    AxisChanged(PadAxis, u32),
    /// Any other event.
    Other,
}

/// What the gamepad last reported: the two buttons as held or not, the
/// four axes as deflections.
#[derive(Clone, Copy, Debug, PartialEq, Eq, Structural)]
pub struct Gamepad {
    pub dpaddown: bool,
    pub dpadup: bool,
    pub left_x: u32,
    pub left_y: u32,
    pub right_x: u32,
    pub right_y: u32,
}

impl Gamepad {
    /// A gamepad at rest.
    pub open spec fn at_rest() -> Gamepad {
        Gamepad {
            dpaddown: false,
            dpadup: false,
            left_x: ZERO,
            left_y: ZERO,
            right_x: ZERO,
            right_y: ZERO,
        }
    }

    /// The state after one event: a button is held from its press to its
    /// release, an axis keeps its last deflection, and nothing else
    /// changes.
    pub open spec fn after(self, event: PadEvent) -> Gamepad {
        match event {
            PadEvent::ButtonPressed(PadButton::DPadDown) => Gamepad { dpaddown: true, ..self },
            PadEvent::ButtonReleased(PadButton::DPadDown) => Gamepad { dpaddown: false, ..self },
            PadEvent::ButtonPressed(PadButton::DPadUp) => Gamepad { dpadup: true, ..self },
            PadEvent::ButtonReleased(PadButton::DPadUp) => Gamepad { dpadup: false, ..self },
            PadEvent::AxisChanged(PadAxis::LeftStickX, val) => Gamepad { left_x: val, ..self },
            PadEvent::AxisChanged(PadAxis::LeftStickY, val) => Gamepad { left_y: val, ..self },
            PadEvent::AxisChanged(PadAxis::RightStickX, val) => Gamepad { right_x: val, ..self },
            PadEvent::AxisChanged(PadAxis::RightStickY, val) => Gamepad { right_y: val, ..self },
            _ => self,
        }
    }

    /// The state after a run of events, first to last.
    pub open spec fn after_all(self, events: Seq<PadEvent>) -> Gamepad
        decreases events.len(),
    {
        if events.len() == 0 {
            self
        } else {
            self.after_all(events.drop_last()).after(events.last())
        }
    }

    /// The state with the dead zone applied to each axis.
    pub open spec fn deadzoned(self) -> Gamepad {
        Gamepad {
            left_x: deadzoned(self.left_x),
            left_y: deadzoned(self.left_y),
            right_x: deadzoned(self.right_x),
            right_y: deadzoned(self.right_y),
            ..self
        }
    }

    /// Takes in one event.
    pub fn apply(&mut self, event: PadEvent)
        ensures
            *final(self) == old(self).after(event),
    {
        match event {
            PadEvent::ButtonPressed(PadButton::DPadDown) => {
                self.dpaddown = true;
            },
            PadEvent::ButtonReleased(PadButton::DPadDown) => {
                self.dpaddown = false;
            },
            PadEvent::ButtonPressed(PadButton::DPadUp) => {
                self.dpadup = true;
            },
            PadEvent::ButtonReleased(PadButton::DPadUp) => {
                self.dpadup = false;
            },
            PadEvent::AxisChanged(PadAxis::LeftStickX, val) => {
                self.left_x = val;
            },
            PadEvent::AxisChanged(PadAxis::LeftStickY, val) => {
                self.left_y = val;
            },
            PadEvent::AxisChanged(PadAxis::RightStickX, val) => {
                self.right_x = val;
            },
            PadEvent::AxisChanged(PadAxis::RightStickY, val) => {
                self.right_y = val;
            },
            _ => {},
        }
    }
}

/// Which directions of pointer motion are turned around.
#[derive(Clone, Copy, Debug, PartialEq, Eq, Structural)]
pub struct Inversion {
    pub look_x: bool,
    pub look_y: bool,
    pub pan_x: bool,
    pub pan_y: bool,
}

/// Everything that one tick of the camera consumes.
pub struct TickInput {
    /// The frame time to integrate over, in seconds.
    pub dt: u32,
    /// The gamepad, with the dead zone applied to its axes.
    pub gamepad: Gamepad,
    /// Pointer motion turns the camera: the right button is held.
    pub look: bool,
    /// Pointer motion shifts the camera: the middle button is held.
    pub pan: bool,
    pub invert: Inversion,
    /// Pointer motion since the tick before, as (dx, dy), oldest first.
    pub motion: Vec<(u32, u32)>,
    /// Wheel steps since the tick before, oldest first.
    pub scroll: Vec<u32>,
}

/// A `TickInput` as plain values.
pub struct TickInputView {
    pub dt: u32,
    pub gamepad: Gamepad,
    pub look: bool,
    pub pan: bool,
    pub invert: Inversion,
    pub motion: Seq<(u32, u32)>,
    pub scroll: Seq<u32>,
}

impl View for TickInput {
    type V = TickInputView;

    open spec fn view(&self) -> TickInputView {
        TickInputView {
            dt: self.dt,
            gamepad: self.gamepad,
            look: self.look,
            pan: self.pan,
            invert: self.invert,
            motion: self.motion@,
            scroll: self.scroll@,
        }
    }
}

impl TickInputView {
    /// The pointer moves nothing in this tick: there was neither motion nor
    /// a wheel step to consume.
    pub open spec fn pointer_is_still(self) -> bool {
        self.motion.len() == 0 && self.scroll.len() == 0
    }
}

} // verus!
