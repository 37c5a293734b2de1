//! The harness as a mathematical value, and what each of its operations does
//! to that value.

use vstd::prelude::*;

use crate::event::{
    Handled, Ime, PointerButton, PointerEvent, PointerState, TextEvent, WindowEvent,
};
use crate::geometry::{
    Color, Float64, LogicalPosition, LogicalSize, PhysicalPosition, PhysicalSize, Point, Vec2,
};
use crate::signal::RenderRootSignal;
use crate::widget::{RenderRoot, WidgetId, WidgetNode};

verus! {

/// A piece of work that the harness wants done on the widget tree.
#[derive(Debug, PartialEq)]
pub enum Request {
    /// Let the tree handle an event of the window, and report whether it did.
    Window(WindowEvent),
    /// Let the tree handle an event of the pointer, and report whether it did.
    Pointer(PointerEvent),
    /// Let the tree handle an event of the keyboard, and report whether it did.
    Text(TextEvent),
    /// Name the widget that is to be focused next.
    SetNextFocusedWidget(Option<WidgetId>),
    /// Run the animation pass for so many nanoseconds.
    RunAnimationPass(u64),
    /// Run the passes that bring the tree up to date.
    RunRewritePasses,
    /// Paint the window.
    Redraw,
    /// Take the oldest signal that the tree has sent, and report it.
    PopSignal,
}

/// What a harness knows and what it still wants done.
#[verifier::ext_equal]
pub struct HarnessState<A> {
    /// The widget tree, as it was last reported.
    pub render_root: RenderRoot,
    pub mouse_state: PointerState,
    pub window_size: PhysicalSize,
    pub background_color: Color,
    /// The actions that were emitted and not yet popped, oldest first.
    pub actions: Seq<(A, WidgetId)>,
    pub has_ime_session: bool,
    pub ime_rect: (LogicalPosition, LogicalSize),
    pub title: Seq<char>,
    /// The first outcome that the tree has reported since events were last sent.
    pub handled: Option<Handled>,
    /// The work that is still to be done, in this order.
    pub agenda: Seq<Request>,
}

impl<A> HarnessState<A> {
    /// A harness that has just been made: nothing has happened in it, and the
    /// widget tree is about to learn the size of the window.
    pub open spec fn created(
        render_root: RenderRoot,
        window_size: PhysicalSize,
        background_color: Color,
    ) -> Self {
        let zero = Float64 { bits: 0 };
        HarnessState {
            render_root,
            mouse_state: PointerState::at_origin(),
            window_size,
            background_color,
            actions: Seq::empty(),
            has_ime_session: false,
            ime_rect: (
                LogicalPosition { x: zero, y: zero },
                LogicalSize { width: zero, height: zero },
            ),
            title: Seq::empty(),
            handled: None,
            agenda: seq![
                Request::Window(WindowEvent::Resize(window_size)),
                Request::PopSignal,
            ],
        }
    }

    /// More work is to be done, after all that was asked for before.
    pub open spec fn scheduled(self, requests: Seq<Request>) -> Self {
        HarnessState { agenda: self.agenda + requests, ..self }
    }

    /// An event goes to the widget tree, after which the signals of the tree are
    /// looked at.
    pub open spec fn sent(self, event: Request) -> Self {
        (HarnessState { handled: None, ..self }).scheduled(seq![event, Request::PopSignal])
    }

    /// The pointer moves.
    pub open spec fn mouse_moved(self, pos: Point) -> Self {
        let mouse_state = PointerState {
            physical_position: PhysicalPosition { x: pos.x, y: pos.y },
            position: LogicalPosition { x: pos.x, y: pos.y },
            ..self.mouse_state
        };
        (HarnessState { mouse_state, ..self }).sent(
            Request::Pointer(PointerEvent::PointerMove(mouse_state)),
        )
    }

    /// A button of the pointer goes down.
    pub open spec fn button_pressed(self, button: PointerButton) -> Self {
        let mouse_state = PointerState {
            buttons: self.mouse_state.buttons.with(button, true),
            ..self.mouse_state
        };
        (HarnessState { mouse_state, ..self }).sent(
            Request::Pointer(PointerEvent::PointerDown(button, mouse_state)),
        )
    }

    /// A button of the pointer goes up.
    pub open spec fn button_released(self, button: PointerButton) -> Self {
        let mouse_state = PointerState {
            buttons: self.mouse_state.buttons.with(button, false),
            ..self.mouse_state
        };
        (HarnessState { mouse_state, ..self }).sent(
            Request::Pointer(PointerEvent::PointerUp(button, mouse_state)),
        )
    }

    /// The wheel of the pointer turns.
    pub open spec fn wheel_turned(self, delta: Vec2) -> Self {
        let pixel_delta = LogicalPosition { x: delta.x, y: delta.y };
        self.sent(Request::Pointer(PointerEvent::MouseWheel(pixel_delta, self.mouse_state)))
    }

    /// The pointer moves to the center of a widget.
    pub open spec fn mouse_moved_to(self, id: WidgetId) -> Self {
        self.mouse_moved(self.render_root.lookup(id)->Some_0.center)
    }

    /// The pointer moves to the center of a widget and clicks there.
    pub open spec fn clicked_on(self, id: WidgetId) -> Self {
        self.mouse_moved_to(id).button_pressed(PointerButton::Primary).button_released(
            PointerButton::Primary,
        )
    }

    /// Characters are typed: each goes to the widget tree as an event of its own,
    /// after which the signals of the tree are looked at.
    pub open spec fn typed(self, commits: Seq<Request>) -> Self {
        (HarnessState { handled: None, ..self }).scheduled(commits.push(Request::PopSignal))
    }

    /// The widget tree is reported anew.
    pub open spec fn refreshed(self, render_root: RenderRoot) -> Self {
        HarnessState { render_root, ..self }
    }

    /// The widget tree was changed from outside, and its signals are looked at.
    pub open spec fn edited(self, render_root: RenderRoot) -> Self {
        self.refreshed(render_root).scheduled(seq![Request::PopSignal])
    }

    /// The widget that has the focus, as the widget tree was last reported.
    pub open spec fn focused(self) -> Option<WidgetNode> {
        self.render_root.target(self.render_root.focused_widget)
    }

    /// The widget to be focused is named and the tree brought up to date.
    pub open spec fn focused_on(self, id: Option<WidgetId>) -> Self {
        self.scheduled(
            seq![
                Request::SetNextFocusedWidget(id),
                Request::RunRewritePasses,
                Request::PopSignal,
            ],
        )
    }

    /// Time passes for the animations of the tree.
    pub open spec fn animated(self, nanoseconds: u64) -> Self {
        self.scheduled(
            seq![
                Request::RunAnimationPass(nanoseconds),
                Request::RunRewritePasses,
                Request::PopSignal,
            ],
        )
    }

    /// The harness after it has learned whether an event was handled. Of several
    /// outcomes the first is kept.
    pub open spec fn answered(self, handled: Handled) -> Self {
        HarnessState {
            handled: match self.handled {
                Some(first) => Some(first),
                None => Some(handled),
            },
            ..self
        }
    }

    /// What a signal changes in the harness, but for the work that it causes.
    pub open spec fn recorded(self, signal: RenderRootSignal<A>) -> Self {
        match signal {
            RenderRootSignal::Action(action, widget_id) => HarnessState {
                actions: self.actions.push((action, widget_id)),
                ..self
            },
            RenderRootSignal::StartIme => HarnessState { has_ime_session: true, ..self },
            RenderRootSignal::EndIme => HarnessState { has_ime_session: false, ..self },
            RenderRootSignal::ImeMoved(position, size) => HarnessState {
                ime_rect: (position, size),
                ..self
            },
            RenderRootSignal::SetSize(size) => HarnessState { window_size: size, ..self },
            RenderRootSignal::SetTitle(title) => HarnessState { title: title@, ..self },
            _ => self,
        }
    }

    /// The harness after it has been told of a signal, or that there is none.
    /// The work that a signal causes comes before all other work.
    pub open spec fn told(self, signal: Option<RenderRootSignal<A>>) -> Self {
        match signal {
            Some(signal) => HarnessState {
                agenda: follow_up(signal) + self.agenda,
                ..self.recorded(signal)
            },
            None => self,
        }
    }
}

/// The work that a signal causes: the next signal is looked at, and before that
/// a window that got a new size is told so, as it would be told of any event.
pub open spec fn follow_up<A>(signal: RenderRootSignal<A>) -> Seq<Request> {
    match signal {
        RenderRootSignal::SetSize(size) => seq![
            Request::Window(WindowEvent::Resize(size)),
            Request::PopSignal,
            Request::PopSignal,
        ],
        _ => seq![Request::PopSignal],
    }
}

/// The request hands one character over as text that was typed.
pub open spec fn is_commit_of(request: Request, c: char) -> bool {
    request matches Request::Text(TextEvent::Ime(Ime::Commit(text))) && text@ == seq![c]
}

/// The requests hand a text over, character by character.
pub open spec fn are_commits_of(requests: Seq<Request>, text: Seq<char>) -> bool {
    &&& requests.len() == text.len()
    &&& forall|i: int|
        0 <= i < text.len() ==> is_commit_of(#[trigger] requests[i], text[i])
}

} // verus!
