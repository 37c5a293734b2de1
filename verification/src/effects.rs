//! What each operation of the harness does, told by what it is given and by what
//! is there afterwards.

use vstd::prelude::*;

use crate::event::{Handled, Ime, PointerButton, PointerEvent, TextEvent, WindowEvent};
use crate::geometry::{
    Color, LogicalPosition, LogicalSize, PhysicalSize, Point, Size, Vec2,
};
use crate::harness::NANOSECONDS_PER_MILLISECOND;
use crate::signal::RenderRootSignal;
use crate::state::{are_commits_of, HarnessState, Request};
use crate::widget::{RenderRoot, WidgetId};

verus! {

/// The pointer of a new harness is at the origin with no button held, no action
/// was emitted, no session is in progress, the area of the input method and the
/// title are empty, and no outcome is known. The one thing to be done is to tell
/// the tree the size of the window. That has as many pixels in each direction as
/// were asked for in that direction.
pub proof fn law_a_harness_starts_afresh<A>(
    render_root: RenderRoot,
    size: Size,
    background_color: Color,
    button: PointerButton,
)
    ensures
        ({
            let state = HarnessState::<A>::created(
                render_root,
                size.as_physical(),
                background_color,
            );
            &&& state.render_root == render_root
            &&& state.window_size.width == size.width.as_u32()
            &&& state.window_size.height == size.height.as_u32()
            &&& state.background_color == background_color
            &&& state.mouse_state.physical_position.x.bits == 0
            &&& state.mouse_state.physical_position.y.bits == 0
            &&& state.mouse_state.position.x.bits == 0
            &&& state.mouse_state.position.y.bits == 0
            &&& !state.mouse_state.buttons.has(button)
            &&& state.actions.len() == 0
            &&& !state.has_ime_session
            &&& state.ime_rect.0.x.bits == 0
            &&& state.ime_rect.0.y.bits == 0
            &&& state.ime_rect.1.width.bits == 0
            &&& state.ime_rect.1.height.bits == 0
            &&& state.title.len() == 0
            &&& state.handled is None
            &&& state.agenda.len() == 2
            &&& state.agenda[0] matches Request::Window(WindowEvent::Resize(told))
                && told.width == size.width.as_u32() && told.height == size.height.as_u32()
            &&& state.agenda[1] is PopSignal
        }),
{
}

/// Work that is asked for comes after all that was asked for before, in its own
/// order, and nothing else changes.
pub proof fn law_work_is_put_last<A>(state: HarnessState<A>, work: Seq<Request>, i: int)
    requires
        0 <= i < state.agenda.len() + work.len(),
    ensures
        ({
            let after = state.scheduled(work);
            let n = state.agenda.len();
            &&& after.agenda.len() == n + work.len()
            &&& after.agenda[i] == (if i < n {
                state.agenda[i]
            } else {
                work[i - n]
            })
            &&& after == (HarnessState { agenda: after.agenda, ..state })
        }),
{
}

/// An event is sent once, behind all work that was asked for before, and the
/// signals of the tree are looked at once after it. No outcome is known until
/// the tree reports one.
pub proof fn law_an_event_is_sent_once<A>(state: HarnessState<A>, event: Request)
    ensures
        ({
            let after = state.sent(event);
            let n = state.agenda.len() as int;
            &&& after.agenda.len() == n + 2
            &&& after.agenda.take(n) == state.agenda
            &&& after.agenda[n] == event
            &&& after.agenda[n + 1] is PopSignal
            &&& after.handled is None
            &&& after == (HarnessState { agenda: after.agenda, handled: after.handled, ..state })
        }),
{
}

/// A moved pointer is where it was moved to, in both kinds of pixels, with the
/// same buttons held. The tree gets one event, which tells that very state of the
/// pointer, and nothing else changes.
pub proof fn law_a_move_puts_the_pointer_there<A>(state: HarnessState<A>, pos: Point)
    ensures
        ({
            let after = state.mouse_moved(pos);
            &&& after.mouse_state.physical_position.x == pos.x
            &&& after.mouse_state.physical_position.y == pos.y
            &&& after.mouse_state.position.x == pos.x
            &&& after.mouse_state.position.y == pos.y
            &&& after.mouse_state.buttons == state.mouse_state.buttons
            &&& after.agenda == state.agenda + seq![
                Request::Pointer(PointerEvent::PointerMove(after.mouse_state)),
                Request::PopSignal,
            ]
            &&& after.handled is None
            &&& after == (HarnessState {
                mouse_state: after.mouse_state,
                agenda: after.agenda,
                handled: after.handled,
                ..state
            })
        }),
{
}

/// A pointer that is moved to a widget which it can reach is at the center of
/// that widget, in both kinds of pixels, with the same buttons held. The tree gets
/// one event, which tells that very state of the pointer, and nothing else
/// changes.
pub proof fn law_a_move_to_a_widget_ends_at_its_center<A>(state: HarnessState<A>, id: WidgetId)
    requires
        state.render_root.pointer_obstacle(id) is None,
    ensures
        state.render_root.lookup(id) matches Some(widget) && ({
            let after = state.mouse_moved_to(id);
            &&& widget.id == id
            &&& after.mouse_state.physical_position.x == widget.center.x
            &&& after.mouse_state.physical_position.y == widget.center.y
            &&& after.mouse_state.position.x == widget.center.x
            &&& after.mouse_state.position.y == widget.center.y
            &&& after.mouse_state.buttons == state.mouse_state.buttons
            &&& after.agenda == state.agenda + seq![
                Request::Pointer(PointerEvent::PointerMove(after.mouse_state)),
                Request::PopSignal,
            ]
            &&& after.handled is None
            &&& after == (HarnessState {
                mouse_state: after.mouse_state,
                agenda: after.agenda,
                handled: after.handled,
                ..state
            })
        }),
{
    crate::widget::law_lookup(state.render_root, id);
}

/// A click has the same effect as a move to the center of the widget, a press of
/// the primary button and a release of it, one after the other.
pub proof fn law_a_click_is_three_steps<A>(state: HarnessState<A>, id: WidgetId)
    requires
        state.render_root.pointer_obstacle(id) is None,
    ensures
        state.render_root.lookup(id) matches Some(widget) && state.clicked_on(id)
            == state.mouse_moved(widget.center).button_pressed(
            PointerButton::Primary,
        ).button_released(PointerButton::Primary),
{
}

/// A press adds the button to those that are held, takes none away and does not
/// move the pointer. The tree gets one event, which names the button and tells
/// the pointer with the button held, and nothing else changes.
pub proof fn law_a_press_holds_the_button<A>(
    state: HarnessState<A>,
    button: PointerButton,
    other: PointerButton,
)
    ensures
        ({
            let after = state.button_pressed(button);
            &&& after.mouse_state.buttons.has(other) <==> (other == button
                || state.mouse_state.buttons.has(other))
            &&& after.mouse_state.physical_position == state.mouse_state.physical_position
            &&& after.mouse_state.position == state.mouse_state.position
            &&& after.agenda == state.agenda + seq![
                Request::Pointer(PointerEvent::PointerDown(button, after.mouse_state)),
                Request::PopSignal,
            ]
            &&& after.handled is None
            &&& after == (HarnessState {
                mouse_state: after.mouse_state,
                agenda: after.agenda,
                handled: after.handled,
                ..state
            })
        }),
{
}

/// A release takes the button from those that are held, adds none and does not
/// move the pointer. The tree gets one event, which names the button and tells
/// the pointer without the button held, and nothing else changes.
pub proof fn law_a_release_frees_the_button<A>(
    state: HarnessState<A>,
    button: PointerButton,
    other: PointerButton,
)
    ensures
        ({
            let after = state.button_released(button);
            &&& after.mouse_state.buttons.has(other) <==> (other != button
                && state.mouse_state.buttons.has(other))
            &&& after.mouse_state.physical_position == state.mouse_state.physical_position
            &&& after.mouse_state.position == state.mouse_state.position
            &&& after.agenda == state.agenda + seq![
                Request::Pointer(PointerEvent::PointerUp(button, after.mouse_state)),
                Request::PopSignal,
            ]
            &&& after.handled is None
            &&& after == (HarnessState {
                mouse_state: after.mouse_state,
                agenda: after.agenda,
                handled: after.handled,
                ..state
            })
        }),
{
}

/// The wheel turns by what is asked for in each direction. The tree gets one
/// event, which tells that and the pointer as it is, and nothing else changes.
pub proof fn law_the_wheel_turns_both_ways<A>(state: HarnessState<A>, delta: Vec2)
    ensures
        ({
            let after = state.wheel_turned(delta);
            &&& after.agenda == state.agenda + seq![
                Request::Pointer(
                    PointerEvent::MouseWheel(
                        LogicalPosition { x: delta.x, y: delta.y },
                        state.mouse_state,
                    ),
                ),
                Request::PopSignal,
            ]
            &&& after.handled is None
            &&& after == (HarnessState { agenda: after.agenda, handled: after.handled, ..state })
        }),
{
}

/// The requests that hand a text over are as many as its characters, and each
/// commits the one character that stands at its place in the text.
pub proof fn law_each_character_is_committed(commits: Seq<Request>, text: Seq<char>, i: int)
    requires
        are_commits_of(commits, text),
        0 <= i < text.len(),
    ensures
        commits.len() == text.len(),
        commits[i] matches Request::Text(TextEvent::Ime(Ime::Commit(typed))) && typed@.len() == 1
            && typed@[0] == text[i],
{
}

/// Typed characters come behind all work that was asked for before, in order, and
/// the signals of the tree are looked at once after them. Nothing else changes,
/// but that no outcome is known.
pub proof fn law_characters_are_typed_in_order<A>(
    state: HarnessState<A>,
    text: Seq<char>,
    commits: Seq<Request>,
    i: int,
)
    requires
        are_commits_of(commits, text),
        0 <= i < text.len(),
    ensures
        ({
            let after = state.typed(commits);
            let n = state.agenda.len() as int;
            &&& after.agenda.len() == n + text.len() + 1
            &&& after.agenda.take(n) == state.agenda
            &&& after.agenda[n + i] matches Request::Text(TextEvent::Ime(Ime::Commit(typed)))
                && typed@ == seq![text[i]]
            &&& after.agenda.last() is PopSignal
            &&& after.handled is None
            &&& after == (HarnessState { agenda: after.agenda, handled: after.handled, ..state })
        }),
{
    law_each_character_is_committed(commits, text, i);
    assert(state.typed(commits).agenda.take(state.agenda.len() as int) =~= state.agenda);
}

/// To type nothing sends no event, but looks at the signals of the tree.
pub proof fn law_nothing_typed_sends_nothing<A>(state: HarnessState<A>, commits: Seq<Request>)
    requires
        are_commits_of(commits, Seq::empty()),
    ensures
        ({
            let after = state.typed(commits);
            &&& after.agenda == state.agenda + seq![Request::PopSignal]
            &&& after.handled is None
            &&& after == (HarnessState { agenda: after.agenda, handled: after.handled, ..state })
        }),
{
}

/// To set the focus names that very widget, or none, and brings the tree up to
/// date before its signals are looked at; nothing else changes.
pub proof fn law_focus_is_asked_for<A>(state: HarnessState<A>, id: Option<WidgetId>)
    ensures
        ({
            let after = state.focused_on(id);
            &&& after.agenda == state.agenda + seq![
                Request::SetNextFocusedWidget(id),
                Request::RunRewritePasses,
                Request::PopSignal,
            ]
            &&& after == (HarnessState { agenda: after.agenda, ..state })
        }),
{
}

/// To animate for some milliseconds runs the animation pass once for a million
/// times as many nanoseconds, and brings the tree up to date before its signals
/// are looked at; nothing else changes.
pub proof fn law_time_passes_in_nanoseconds<A>(state: HarnessState<A>, ms: u64)
    requires
        ms * 1_000_000 <= u64::MAX,
    ensures
        ms * NANOSECONDS_PER_MILLISECOND == ms * 1_000_000,
        ({
            let after = state.animated((ms * NANOSECONDS_PER_MILLISECOND) as u64);
            let n = state.agenda.len() as int;
            &&& after.agenda.len() == n + 3
            &&& after.agenda.take(n) == state.agenda
            &&& after.agenda[n] matches Request::RunAnimationPass(nanoseconds) && nanoseconds == ms
                * 1_000_000
            &&& after.agenda[n + 1] is RunRewritePasses
            &&& after.agenda[n + 2] is PopSignal
            &&& after == (HarnessState { agenda: after.agenda, ..state })
        }),
{
    let after = state.animated((ms * NANOSECONDS_PER_MILLISECOND) as u64);
    assert(after.agenda.take(state.agenda.len() as int) =~= state.agenda);
}

/// What is reported of the tree takes the place of what was known of it, and
/// nothing else changes. After an edit the signals of the tree are looked at once,
/// behind all work that was asked for before.
pub proof fn law_the_newest_report_counts<A>(
    state: HarnessState<A>,
    first: RenderRoot,
    second: RenderRoot,
)
    ensures
        state.refreshed(first).refreshed(second) == state.refreshed(second),
        state.refreshed(first) == (HarnessState { render_root: first, ..state }),
        state.edited(first) == (HarnessState {
            render_root: first,
            agenda: state.agenda + seq![Request::PopSignal],
            ..state
        }),
{
}

/// The widget that has the focus is the one that the tree names and has, and none
/// where the tree names none.
pub proof fn law_the_tree_names_the_focus<A>(state: HarnessState<A>)
    ensures
        state.render_root.focused_widget matches Some(id) ==> state.focused()
            == state.render_root.lookup(id),
        state.render_root.focused_widget is None ==> state.focused() is None,
        state.focused() matches Some(widget) ==> state.render_root.focused_widget == Some(
            widget.id,
        ),
{
    match state.render_root.focused_widget {
        Some(id) => {
            crate::widget::law_lookup(state.render_root, id);
        },
        None => {},
    }
}

/// The first outcome is kept and later ones are not, until events are sent again;
/// nothing else changes.
pub proof fn law_the_first_outcome_is_kept<A>(
    state: HarnessState<A>,
    event: Request,
    first: Handled,
    second: Handled,
)
    ensures
        state.handled is None ==> state.answered(first).handled == Some(first),
        state.handled is Some ==> state.answered(first) == state,
        state.answered(first).answered(second) == state.answered(first),
        state.sent(event).answered(first).answered(second).handled == Some(first),
        state.answered(first) == (HarnessState { handled: state.answered(first).handled, ..state }),
{
}

/// Where the tree has no signal, nothing changes and the harness stops asking.
pub proof fn law_silence_changes_nothing<A>(state: HarnessState<A>)
    ensures
        state.told(None) == state,
{
}

/// An action goes to the end of the queue together with the widget that emitted
/// it, and the next signal is asked for before all other work.
pub proof fn law_an_action_is_queued<A>(state: HarnessState<A>, action: A, widget_id: WidgetId)
    ensures
        ({
            let after = state.told(Some(RenderRootSignal::Action(action, widget_id)));
            let n = state.actions.len() as int;
            &&& after.actions.len() == n + 1
            &&& after.actions.take(n) == state.actions
            &&& after.actions[n] == (action, widget_id)
            &&& after.agenda == seq![Request::PopSignal] + state.agenda
            &&& after == (HarnessState { actions: after.actions, agenda: after.agenda, ..state })
        }),
{
    let after = state.told(Some(RenderRootSignal::Action(action, widget_id)));
    assert(after.actions.take(state.actions.len() as int) =~= state.actions);
}

/// The signals of the input method start and end its session and move its area,
/// each that and nothing else, and the next signal is asked for before all other
/// work.
pub proof fn law_input_method_signals<A>(
    state: HarnessState<A>,
    position: LogicalPosition,
    size: LogicalSize,
)
    ensures
        ({
            let agenda = seq![Request::PopSignal] + state.agenda;
            &&& state.told(Some(RenderRootSignal::StartIme)) == (HarnessState {
                has_ime_session: true,
                agenda,
                ..state
            })
            &&& state.told(Some(RenderRootSignal::EndIme)) == (HarnessState {
                has_ime_session: false,
                agenda,
                ..state
            })
            &&& state.told(Some(RenderRootSignal::ImeMoved(position, size))) == (HarnessState {
                ime_rect: (position, size),
                agenda,
                ..state
            })
        }),
{
}

/// A window that is given a title has it, and the next signal is asked for before
/// all other work.
pub proof fn law_the_title_is_set<A>(state: HarnessState<A>, title: String)
    ensures
        state.told(Some(RenderRootSignal::SetTitle(title))) == (HarnessState {
            title: title@,
            agenda: seq![Request::PopSignal] + state.agenda,
            ..state
        }),
{
}

/// A window that is given a size has it, in each direction. The tree is told that
/// size before anything else is done; its signals are drained after that, and
/// those that were waiting are drained then.
pub proof fn law_the_size_is_set_and_told<A>(state: HarnessState<A>, size: PhysicalSize)
    ensures
        ({
            let after = state.told(Some(RenderRootSignal::SetSize(size)));
            &&& after.window_size.width == size.width
            &&& after.window_size.height == size.height
            &&& after.agenda == seq![
                Request::Window(WindowEvent::Resize(after.window_size)),
                Request::PopSignal,
                Request::PopSignal,
            ] + state.agenda
            &&& after == (HarnessState {
                window_size: after.window_size,
                agenda: after.agenda,
                ..state
            })
        }),
{
}

} // verus!
