//! What the widget tree asks of the window that it lives in.

use vstd::prelude::*;

use crate::geometry::{LogicalPosition, LogicalSize, PhysicalSize};
use crate::widget::WidgetId;

verus! {

/// The outside type `winit::window::ResizeDirection`: the edge or corner by
/// which a window is resized. It is only passed on.
#[verifier::external_type_specification]
#[verifier::external_body]
pub struct ExResizeDirection(winit::window::ResizeDirection);

/// A request of the widget tree to its surroundings. `A` is the type of the
/// actions that widgets emit; the harness never looks inside one.
pub enum RenderRootSignal<A> {
    /// A widget emitted an action.
    Action(A, WidgetId),
    /// An input method session starts.
    StartIme,
    /// The input method session ends.
    EndIme,
    /// The area that the input method should keep clear has moved.
    ImeMoved(LogicalPosition, LogicalSize),
    /// The window needs painting.
    RequestRedraw,
    /// The window needs an animation frame.
    RequestAnimFrame,
    /// The window wants keyboard focus.
    TakeFocus,
    /// The cursor icon changed.
    SetCursor(cursor_icon::CursorIcon),
    /// The window should have this size.
    SetSize(PhysicalSize),
    /// The window should have this title.
    SetTitle(String),
    /// The user drags the window.
    DragWindow,
    /// The user drags an edge or a corner of the window.
    DragResizeWindow(winit::window::ResizeDirection),
    /// Maximize the window, or undo that.
    ToggleMaximized,
    /// Minimize the window.
    Minimize,
    /// Close the application.
    Exit,
    /// Show the menu of the window at this place.
    ShowWindowMenu(LogicalPosition),
}

} // verus!
