//! The events that the harness sends to the simulated window.

use vstd::prelude::*;

use crate::geometry::{Float64, LogicalPosition, PhysicalPosition, PhysicalSize};

verus! {

/// The outside type `winit::event::KeyEvent`: one press or release of a key.
/// It is only passed on.
#[verifier::external_type_specification]
#[verifier::external_body]
pub struct ExKeyEvent(winit::event::KeyEvent);

/// The outside type `winit::keyboard::ModifiersState`: which modifier keys are
/// held. It is only passed on.
#[verifier::external_type_specification]
#[verifier::external_body]
pub struct ExModifiersState(winit::keyboard::ModifiersState);

/// Whether an event was consumed by a widget.
#[derive(Clone, Copy, Debug, PartialEq, Eq, Structural)]
pub enum Handled {
    Yes,
    No,
}

/// A button of a pointing device.
#[derive(Clone, Copy, Debug, PartialEq, Eq, Structural)]
pub enum PointerButton {
    Primary,
    Secondary,
    Auxiliary,
    X1,
    X2,
    Other,
}

/// The set of buttons that are held down.
#[derive(Clone, Copy, Debug, PartialEq, Eq, Structural)]
pub struct PointerButtons {
    pub primary: bool,
    pub secondary: bool,
    pub auxiliary: bool,
    pub x1: bool,
    pub x2: bool,
    pub other: bool,
}

impl PointerButtons {
    /// Whether `button` is in the set.
    pub open spec fn has(self, button: PointerButton) -> bool {
        match button {
            PointerButton::Primary => self.primary,
            PointerButton::Secondary => self.secondary,
            PointerButton::Auxiliary => self.auxiliary,
            PointerButton::X1 => self.x1,
            PointerButton::X2 => self.x2,
            PointerButton::Other => self.other,
        }
    }

    /// The set that has `button` exactly if `held`, and every other button as
    /// before.
    pub open spec fn with(self, button: PointerButton, held: bool) -> Self {
        match button {
            PointerButton::Primary => PointerButtons { primary: held, ..self },
            PointerButton::Secondary => PointerButtons { secondary: held, ..self },
            PointerButton::Auxiliary => PointerButtons { auxiliary: held, ..self },
            PointerButton::X1 => PointerButtons { x1: held, ..self },
            PointerButton::X2 => PointerButtons { x2: held, ..self },
            PointerButton::Other => PointerButtons { other: held, ..self },
        }
    }

    /// The set without any button.
    pub open spec fn none() -> Self {
        PointerButtons {
            primary: false,
            secondary: false,
            auxiliary: false,
            x1: false,
            x2: false,
            other: false,
        }
    }

    /// The set without any button.
    pub fn new() -> (buttons: Self)
        ensures
            buttons == Self::none(),
            forall|b: PointerButton| !buttons.has(b),
    {
        PointerButtons {
            primary: false,
            secondary: false,
            auxiliary: false,
            x1: false,
            x2: false,
            other: false,
        }
    }

    /// Whether `button` is in the set.
    pub fn contains(&self, button: PointerButton) -> (found: bool)
        ensures
            found == self.has(button),
    {
        match button {
            PointerButton::Primary => self.primary,
            PointerButton::Secondary => self.secondary,
            PointerButton::Auxiliary => self.auxiliary,
            PointerButton::X1 => self.x1,
            PointerButton::X2 => self.x2,
            PointerButton::Other => self.other,
        }
    }

    fn set(&mut self, button: PointerButton, held: bool)
        ensures
            *final(self) == old(self).with(button, held),
    {
        match button {
            PointerButton::Primary => {
                self.primary = held;
            },
            PointerButton::Secondary => {
                self.secondary = held;
            },
            PointerButton::Auxiliary => {
                self.auxiliary = held;
            },
            PointerButton::X1 => {
                self.x1 = held;
            },
            PointerButton::X2 => {
                self.x2 = held;
            },
            PointerButton::Other => {
                self.other = held;
            },
        }
    }

    /// Puts `button` into the set.
    pub fn insert(&mut self, button: PointerButton)
        ensures
            *final(self) == old(self).with(button, true),
    {
        self.set(button, true);
    }

    /// Takes `button` out of the set.
    pub fn remove(&mut self, button: PointerButton)
        ensures
            *final(self) == old(self).with(button, false),
    {
        self.set(button, false);
    }
}

/// Where the pointer is and which of its buttons are held down.
#[derive(Clone, Copy, Debug, PartialEq, Eq, Structural)]
pub struct PointerState {
    pub physical_position: PhysicalPosition,
    pub position: LogicalPosition,
    pub buttons: PointerButtons,
}

impl PointerState {
    /// A pointer at the origin with no button held.
    pub open spec fn at_origin() -> Self {
        PointerState {
            physical_position: PhysicalPosition {
                x: Float64 { bits: 0 },
                y: Float64 { bits: 0 },
            },
            position: LogicalPosition { x: Float64 { bits: 0 }, y: Float64 { bits: 0 } },
            buttons: PointerButtons::none(),
        }
    }

    /// A pointer at the origin with no button held.
    pub fn empty() -> (state: Self)
        ensures
            state == Self::at_origin(),
    {
        let zero = Float64 { bits: 0 };
        PointerState {
            physical_position: PhysicalPosition { x: zero, y: zero },
            position: LogicalPosition { x: zero, y: zero },
            buttons: PointerButtons::new(),
        }
    }
}

/// What a pointing device did.
#[derive(Debug, PartialEq)]
pub enum PointerEvent {
    PointerDown(PointerButton, PointerState),
    PointerUp(PointerButton, PointerState),
    PointerMove(PointerState),
    PointerEnter(PointerState),
    PointerLeave(PointerState),
    /// The wheel turned by so many logical pixels.
    MouseWheel(LogicalPosition, PointerState),
    /// A file, given by its path, is being dragged over the window.
    HoverFile(String, PointerState),
    /// A file, given by its path, was dropped on the window.
    DropFile(String, PointerState),
    HoverFileCancel(PointerState),
    /// A pinch gesture changed the magnification by so much.
    Pinch(Float64, PointerState),
}

/// What an input method did.
#[derive(Debug, PartialEq)]
pub enum Ime {
    Enabled,
    /// The text being composed, and the byte range of the cursor in it.
    Preedit(String, Option<(usize, usize)>),
    /// Text to insert.
    Commit(String),
    Disabled,
}

/// What a keyboard or an input method did.
#[derive(Debug, PartialEq)]
pub enum TextEvent {
    KeyboardKey(winit::event::KeyEvent, winit::keyboard::ModifiersState),
    Ime(Ime),
    ModifierChange(winit::keyboard::ModifiersState),
    FocusChange(bool),
}

/// What happened to the window.
#[derive(Clone, Copy, Debug, PartialEq, Eq, Structural)]
pub enum WindowEvent {
    /// The scale factor changed.
    Rescale(Float64),
    /// The window has a new size.
    Resize(PhysicalSize),
    /// A frame of animation is due.
    AnimFrame,
    /// The accessibility tree must be built anew.
    RebuildAccessTree,
}

/// A button is in a set exactly if it was put in last, or was there before and was
/// not taken out; no other button is touched, and the empty set has none.
pub proof fn law_buttons_form_a_set(
    buttons: PointerButtons,
    button: PointerButton,
    held: bool,
    other: PointerButton,
)
    ensures
        buttons.with(button, held).has(button) == held,
        other != button ==> buttons.with(button, held).has(other) == buttons.has(other),
        !PointerButtons::none().has(button),
{
}

/// Each button has a flag of its own, so that sets with the same buttons are the
/// same.
pub proof fn law_each_button_has_a_flag(a: PointerButtons, b: PointerButtons)
    ensures
        a.has(PointerButton::Primary) == a.primary,
        a.has(PointerButton::Secondary) == a.secondary,
        a.has(PointerButton::Auxiliary) == a.auxiliary,
        a.has(PointerButton::X1) == a.x1,
        a.has(PointerButton::X2) == a.x2,
        a.has(PointerButton::Other) == a.other,
        (forall|button: PointerButton| #[trigger] a.has(button) == b.has(button)) ==> a == b,
{
    if forall|button: PointerButton| #[trigger] a.has(button) == b.has(button) {
        assert(a.has(PointerButton::Primary) == b.has(PointerButton::Primary));
        assert(a.has(PointerButton::Secondary) == b.has(PointerButton::Secondary));
        assert(a.has(PointerButton::Auxiliary) == b.has(PointerButton::Auxiliary));
        assert(a.has(PointerButton::X1) == b.has(PointerButton::X1));
        assert(a.has(PointerButton::X2) == b.has(PointerButton::X2));
        assert(a.has(PointerButton::Other) == b.has(PointerButton::Other));
    }
}

} // verus!
