//! What holds of the library as a whole.

use vstd::prelude::*;

use crate::event::{Handled, PointerButton, PointerEvent, PointerState, WindowEvent};
use crate::geometry::{
    Color, LogicalPosition, LogicalSize, PhysicalPosition, PhysicalSize, Point, Vec2,
};
use crate::signal::RenderRootSignal;
use crate::state::{are_commits_of, is_commit_of, HarnessState, Request};
use crate::widget::{RenderRoot, WidgetId};

verus! {

/// The harness after it has recorded a series of signals.
pub open spec fn recorded_all<A>(
    state: HarnessState<A>,
    signals: Seq<RenderRootSignal<A>>,
) -> HarnessState<A>
    decreases signals.len(),
{
    if signals.len() == 0 {
        state
    } else {
        recorded_all(state.recorded(signals[0]), signals.drop_first())
    }
}

/// The request is for an event to be handled, and its outcome is reported.
pub open spec fn is_event(request: Request) -> bool {
    request is Window || request is Pointer || request is Text
}

/// Works the agenda of a harness off. `replies` are the answers of the widget
/// tree to the questions for its next signal, in order; when they are used up
/// the tree has no more signals. `outcomes` are the outcomes of the events that
/// the tree handles, counted from `k` on. The result is the harness when nothing
/// is left to be done, and the work that was done but for those questions, in
/// order.
pub open spec fn run<A>(
    state: HarnessState<A>,
    replies: Seq<Option<RenderRootSignal<A>>>,
    outcomes: spec_fn(int) -> Handled,
    k: int,
) -> (HarnessState<A>, Seq<Request>)
    decreases replies.len(), state.agenda.len(),
{
    if state.agenda.len() == 0 {
        (state, Seq::empty())
    } else {
        let rest = HarnessState { agenda: state.agenda.drop_first(), ..state };
        if state.agenda[0] is PopSignal {
            if replies.len() == 0 {
                run(rest, replies, outcomes, k)
            } else {
                run(rest.told(replies[0]), replies.drop_first(), outcomes, k)
            }
        } else {
            let after = if is_event(state.agenda[0]) {
                run(rest.answered(outcomes(k)), replies, outcomes, k + 1)
            } else {
                run(rest, replies, outcomes, k)
            };
            (after.0, seq![state.agenda[0]] + after.1)
        }
    }
}

/// The harness after it has learned the outcomes of several events.
pub open spec fn answered_by<A>(
    state: HarnessState<A>,
    events: nat,
    outcomes: spec_fn(int) -> Handled,
    k: int,
) -> HarnessState<A> {
    if events == 0 {
        state
    } else {
        state.answered(outcomes(k))
    }
}

/// How many events there are in a list of work.
pub open spec fn event_count(work: Seq<Request>) -> nat
    decreases work.len(),
{
    if work.len() == 0 {
        0
    } else {
        (if is_event(work[0]) {
            1nat
        } else {
            0nat
        }) + event_count(work.drop_first())
    }
}

/// How often a series of signals asks for another size of the window.
pub open spec fn size_count<A>(signals: Seq<RenderRootSignal<A>>) -> nat
    decreases signals.len(),
{
    if signals.len() == 0 {
        0
    } else {
        (if signals[0] is SetSize {
            1nat
        } else {
            0nat
        }) + size_count(signals.drop_first())
    }
}

/// The events that tell the window of the sizes that a series of signals asks
/// for.
pub open spec fn resizes<A>(signals: Seq<RenderRootSignal<A>>) -> Seq<Request>
    decreases signals.len(),
{
    if signals.len() == 0 {
        Seq::empty()
    } else {
        match signals[0] {
            RenderRootSignal::SetSize(size) => seq![Request::Window(WindowEvent::Resize(size))]
                + resizes(signals.drop_first()),
            _ => resizes(signals.drop_first()),
        }
    }
}

/// A number of questions for the next signal.
pub open spec fn questions(n: nat) -> Seq<Request> {
    Seq::new(n, |i: int| Request::PopSignal)
}

/// A number of replies that there is no signal.
pub open spec fn silence<A>(n: nat) -> Seq<Option<RenderRootSignal<A>>> {
    Seq::new(n, |i: int| None)
}

/// The replies of a widget tree that has these signals waiting: each of them,
/// and then as often as it is asked that there are no more. It is asked once at
/// the end of each event that it has handled.
pub open spec fn replies_of<A>(
    signals: Seq<RenderRootSignal<A>>,
    events: nat,
) -> Seq<Option<RenderRootSignal<A>>> {
    signals.map_values(|signal: RenderRootSignal<A>| Some(signal)) + silence(
        events + size_count(signals),
    )
}

proof fn lemma_silence<A>(
    state: HarnessState<A>,
    n: nat,
    rest: Seq<Request>,
    more: Seq<Option<RenderRootSignal<A>>>,
    outcomes: spec_fn(int) -> Handled,
    k: int,
)
    requires
        state.agenda == questions(n) + rest,
    ensures
        run(state, silence(n) + more, outcomes, k) == run(
            HarnessState { agenda: rest, ..state },
            more,
            outcomes,
            k,
        ),
    decreases n,
{
    if n == 0 {
        assert(questions(0) + rest == rest);
        assert(silence::<A>(0) + more == more);
    } else {
        let m = (n - 1) as nat;
        let next = HarnessState { agenda: state.agenda.drop_first(), ..state };
        assert(next.agenda == questions(m) + rest);
        assert((silence::<A>(n) + more).drop_first() == silence::<A>(m) + more);
        assert((silence::<A>(n) + more)[0] == None::<RenderRootSignal<A>>);
        assert(state.agenda[0] == Request::PopSignal);
        lemma_silence(next, m, rest, more, outcomes, k);
    }
}

proof fn lemma_drained<A>(
    state: HarnessState<A>,
    n: nat,
    rest: Seq<Request>,
    signals: Seq<RenderRootSignal<A>>,
    more: Seq<Option<RenderRootSignal<A>>>,
    outcomes: spec_fn(int) -> Handled,
    k: int,
)
    requires
        n > 0,
        state.agenda == questions(n) + rest,
    ensures
        ({
            let after = run(
                HarnessState {
                    agenda: rest,
                    ..answered_by(
                        recorded_all(state, signals),
                        size_count(signals),
                        outcomes,
                        k,
                    )
                },
                more,
                outcomes,
                k + size_count(signals),
            );
            run(state, replies_of(signals, n) + more, outcomes, k) == (
                after.0,
                resizes(signals) + after.1,
            )
        }),
    decreases signals.len(),
{
    let replies = replies_of(signals, n) + more;
    let end = HarnessState {
        agenda: rest,
        ..answered_by(recorded_all(state, signals), size_count(signals), outcomes, k)
    };
    let after = run(end, more, outcomes, k + size_count(signals));
    if signals.len() == 0 {
        assert(replies == silence::<A>(n) + more);
        lemma_silence(state, n, rest, more, outcomes, k);
        assert(resizes(signals) + after.1 == after.1);
    } else {
        let signal = signals[0];
        let later = signals.drop_first();
        let m: nat = if signal is SetSize {
            n + 1
        } else {
            n
        };
        let asked = HarnessState { agenda: state.agenda.drop_first(), ..state };
        let told = asked.told(Some(signal));
        assert(state.agenda[0] == Request::PopSignal);
        assert(replies[0] == Some(signal));
        assert(replies.drop_first() == replies_of(later, m) + more);
        assert(run(state, replies, outcomes, k) == run(told, replies.drop_first(), outcomes, k));
        let recorded = state.recorded(signal);
        law_signals_leave_the_rest_alone(recorded, later);
        match signal {
            RenderRootSignal::SetSize(size) => {
                let resize = Request::Window(WindowEvent::Resize(size));
                let next = HarnessState {
                    agenda: questions(m) + rest,
                    ..recorded.answered(outcomes(k))
                };
                lemma_recorded_all_congruent(next, recorded, later);
                lemma_drained(next, m, rest, later, more, outcomes, k + 1);
                assert(told.agenda == seq![resize] + (questions(m) + rest));
                assert(told.agenda.drop_first() == questions(m) + rest);
                assert(told.agenda[0] == resize);
                assert(HarnessState { agenda: told.agenda.drop_first(), ..told }.answered(
                    outcomes(k),
                ) == next);
                assert(answered_by(
                    recorded_all(next, later),
                    size_count(later),
                    outcomes,
                    k + 1,
                ) == recorded_all(next, later));
                assert(HarnessState { agenda: rest, ..recorded_all(next, later) } == end);
                assert(run(told, replies.drop_first(), outcomes, k).1 == seq![resize] + (resizes(
                    later,
                ) + after.1));
                assert(seq![resize] + (resizes(later) + after.1) == resizes(signals) + after.1);
            },
            _ => {
                let next = HarnessState { agenda: questions(m) + rest, ..recorded };
                lemma_recorded_all_congruent(next, recorded, later);
                lemma_drained(next, m, rest, later, more, outcomes, k);
                assert(told.agenda == questions(m) + rest);
                assert(told == next);
                assert(HarnessState {
                    agenda: rest,
                    ..answered_by(recorded_all(next, later), size_count(later), outcomes, k)
                } == end);
            },
        }
    }
}

/// Work that asks for no signal is done in the order in which it was asked for,
/// and leaves the signals of the tree where they are. Of the outcomes of its
/// events the first is kept.
pub proof fn law_work_is_done_in_order<A>(
    state: HarnessState<A>,
    work: Seq<Request>,
    rest: Seq<Request>,
    replies: Seq<Option<RenderRootSignal<A>>>,
    outcomes: spec_fn(int) -> Handled,
    k: int,
)
    requires
        state.agenda == work + rest,
        forall|i: int| 0 <= i < work.len() ==> !(#[trigger] work[i] is PopSignal),
    ensures
        ({
            let after = run(
                HarnessState {
                    agenda: rest,
                    ..answered_by(state, event_count(work), outcomes, k)
                },
                replies,
                outcomes,
                k + event_count(work),
            );
            run(state, replies, outcomes, k) == (after.0, work + after.1)
        }),
    decreases work.len(),
{
    let end = HarnessState { agenda: rest, ..answered_by(state, event_count(work), outcomes, k) };
    let after = run(end, replies, outcomes, k + event_count(work));
    if work.len() == 0 {
        assert(work + rest == rest);
        assert(work + after.1 == after.1);
        assert(state == end);
    } else {
        let later = work.drop_first();
        let taken = HarnessState { agenda: state.agenda.drop_first(), ..state };
        assert(state.agenda[0] == work[0]);
        assert(taken.agenda == later + rest);
        assert forall|i: int| 0 <= i < later.len() implies !(#[trigger] later[i] is PopSignal) by {
            assert(later[i] == work[i + 1]);
        }
        assert(seq![work[0]] + (later + after.1) == work + after.1);
        if is_event(work[0]) {
            let next = taken.answered(outcomes(k));
            law_work_is_done_in_order(next, later, rest, replies, outcomes, k + 1);
            assert(HarnessState {
                agenda: rest,
                ..answered_by(next, event_count(later), outcomes, k + 1)
            } == end);
        } else {
            law_work_is_done_in_order(taken, later, rest, replies, outcomes, k);
            assert(HarnessState {
                agenda: rest,
                ..answered_by(taken, event_count(later), outcomes, k)
            } == end);
        }
    }
}

/// When the harness asks for the signals of the widget tree, it goes on until
/// the tree has no more of them. Each signal is recorded, in order. Each request
/// for another size of the window is answered by one event that tells the new
/// size, in order, and all of that is done before any other work is taken up.
pub proof fn law_signals_are_drained<A>(
    state: HarnessState<A>,
    rest: Seq<Request>,
    signals: Seq<RenderRootSignal<A>>,
    more: Seq<Option<RenderRootSignal<A>>>,
    outcomes: spec_fn(int) -> Handled,
    k: int,
)
    requires
        state.agenda == seq![Request::PopSignal] + rest,
    ensures
        ({
            let after = run(
                HarnessState {
                    agenda: rest,
                    ..answered_by(
                        recorded_all(state, signals),
                        size_count(signals),
                        outcomes,
                        k,
                    )
                },
                more,
                outcomes,
                k + size_count(signals),
            );
            run(state, replies_of(signals, 1) + more, outcomes, k) == (
                after.0,
                resizes(signals) + after.1,
            )
        }),
{
    assert(seq![Request::PopSignal] =~= questions(1));
    lemma_drained(state, 1, rest, signals, more, outcomes, k);
}

/// Work that is asked for while nothing else is to be done is done in order,
/// then the signals of the tree are drained, and nothing is left to be done
/// after that.
proof fn lemma_runs_to_completion<A>(
    state: HarnessState<A>,
    work: Seq<Request>,
    signals: Seq<RenderRootSignal<A>>,
    outcomes: spec_fn(int) -> Handled,
)
    requires
        state.agenda.len() == 0,
        forall|i: int| 0 <= i < work.len() ==> !(#[trigger] work[i] is PopSignal),
    ensures
        run(
            state.scheduled(work + seq![Request::PopSignal]),
            replies_of(signals, 1),
            outcomes,
            0,
        ) == (
            answered_by(
                recorded_all(state, signals),
                event_count(work) + size_count(signals),
                outcomes,
                0,
            ),
            work + resizes(signals),
        ),
{
    let n = event_count(work);
    let none = Seq::<Option<RenderRootSignal<A>>>::empty();
    let replies = replies_of(signals, 1);
    let asked = state.scheduled(work + seq![Request::PopSignal]);
    let rest = seq![Request::PopSignal] + Seq::<Request>::empty();
    assert(asked.agenda == work + rest);
    law_work_is_done_in_order(asked, work, rest, replies, outcomes, 0);
    let next = HarnessState { agenda: rest, ..answered_by(asked, n, outcomes, 0) };
    law_signals_are_drained(next, Seq::empty(), signals, none, outcomes, n as int);
    assert(replies + none == replies);
    lemma_recorded_all_congruent(next, state, signals);
    law_signals_leave_the_rest_alone(state, signals);
    let end = HarnessState {
        agenda: Seq::<Request>::empty(),
        ..answered_by(recorded_all(next, signals), size_count(signals), outcomes, n as int)
    };
    assert(end == answered_by(
        recorded_all(state, signals),
        n + size_count(signals),
        outcomes,
        0,
    ));
    assert(resizes(signals) + Seq::<Request>::empty() == resizes(signals));
}

/// An event that is sent while nothing else is to be done reaches the widget
/// tree first, then the signals of the tree are drained, and nothing is left to
/// be done after that. What is reported in the end is the outcome of the event
/// itself, whatever became of the events that tell the window of a new size.
pub proof fn law_event_runs_to_completion<A>(
    state: HarnessState<A>,
    event: Request,
    signals: Seq<RenderRootSignal<A>>,
    outcomes: spec_fn(int) -> Handled,
)
    requires
        state.agenda.len() == 0,
        is_event(event),
    ensures
        run(state.sent(event), replies_of(signals, 1), outcomes, 0) == (
            (HarnessState { handled: Some(outcomes(0)), ..recorded_all(state, signals) }),
            seq![event] + resizes(signals),
        ),
{
    let ready = HarnessState { handled: None, ..state };
    assert(seq![event] + seq![Request::PopSignal] == seq![event, Request::PopSignal]);
    assert(event_count(seq![event]) == 1) by {
        assert(event_count(seq![event].drop_first()) == 0);
        assert(seq![event][0] == event);
    }
    lemma_runs_to_completion(ready, seq![event], signals, outcomes);
    lemma_recorded_all_congruent(ready, state, signals);
    law_signals_leave_the_rest_alone(state, signals);
}

/// A new harness tells the widget tree the size of the window before anything
/// else happens.
pub proof fn law_the_size_is_told_first<A>(
    render_root: RenderRoot,
    window_size: PhysicalSize,
    background_color: Color,
    signals: Seq<RenderRootSignal<A>>,
    outcomes: spec_fn(int) -> Handled,
)
    ensures
        ({
            let created = HarnessState::<A>::created(render_root, window_size, background_color);
            let ran = run(created, replies_of(signals, 1), outcomes, 0);
            &&& ran.1 == seq![Request::Window(WindowEvent::Resize(window_size))] + resizes(
                signals,
            )
            &&& ran.0.agenda.len() == 0
            &&& ran.0.actions == emitted(signals)
            &&& ran.0.window_size == window_size_after(window_size, signals)
        }),
{
    let created = HarnessState::<A>::created(render_root, window_size, background_color);
    let before = HarnessState { agenda: Seq::<Request>::empty(), ..created };
    let event = Request::Window(WindowEvent::Resize(window_size));
    assert(before.sent(event) == created);
    law_event_runs_to_completion(before, event, signals, outcomes);
    law_signals_leave_the_rest_alone(before, signals);
    law_actions_queue_up_in_order(before, signals);
    law_the_last_signal_counts(before, signals);
}

/// To set the focus while nothing else is to be done names the widget, brings
/// the tree up to date, and drains its signals.
pub proof fn law_focus_runs_to_completion<A>(
    state: HarnessState<A>,
    id: Option<WidgetId>,
    signals: Seq<RenderRootSignal<A>>,
    outcomes: spec_fn(int) -> Handled,
)
    requires
        state.agenda.len() == 0,
    ensures
        run(state.focused_on(id), replies_of(signals, 1), outcomes, 0) == (
            answered_by(recorded_all(state, signals), size_count(signals), outcomes, 0),
            seq![Request::SetNextFocusedWidget(id), Request::RunRewritePasses] + resizes(signals),
        ),
{
    let work = seq![Request::SetNextFocusedWidget(id), Request::RunRewritePasses];
    assert(state.focused_on(id).agenda == state.agenda + (work + seq![Request::PopSignal]));
    lemma_no_events(work);
    lemma_runs_to_completion(state, work, signals, outcomes);
}

/// To animate the tree while nothing else is to be done runs the animation pass,
/// brings the tree up to date, and drains its signals.
pub proof fn law_animation_runs_to_completion<A>(
    state: HarnessState<A>,
    nanoseconds: u64,
    signals: Seq<RenderRootSignal<A>>,
    outcomes: spec_fn(int) -> Handled,
)
    requires
        state.agenda.len() == 0,
    ensures
        run(state.animated(nanoseconds), replies_of(signals, 1), outcomes, 0) == (
            answered_by(recorded_all(state, signals), size_count(signals), outcomes, 0),
            seq![Request::RunAnimationPass(nanoseconds), Request::RunRewritePasses] + resizes(
                signals,
            ),
        ),
{
    let work = seq![Request::RunAnimationPass(nanoseconds), Request::RunRewritePasses];
    assert(state.animated(nanoseconds).agenda == state.agenda + (work + seq![
        Request::PopSignal,
    ]));
    lemma_no_events(work);
    lemma_runs_to_completion(state, work, signals, outcomes);
}

/// To type a text while nothing else is to be done sends its characters in order,
/// then the signals of the tree are drained, and nothing is left to be done
/// after that.
pub proof fn law_typing_runs_to_completion<A>(
    state: HarnessState<A>,
    text: Seq<char>,
    commits: Seq<Request>,
    signals: Seq<RenderRootSignal<A>>,
    outcomes: spec_fn(int) -> Handled,
)
    requires
        state.agenda.len() == 0,
        are_commits_of(commits, text),
    ensures
        run(state.typed(commits), replies_of(signals, 1), outcomes, 0) == (
            answered_by(
                HarnessState { handled: None, ..recorded_all(state, signals) },
                text.len() + size_count(signals),
                outcomes,
                0,
            ),
            commits + resizes(signals),
        ),
{
    let ready = HarnessState { handled: None, ..state };
    assert(commits.push(Request::PopSignal) == commits + seq![Request::PopSignal]);
    assert forall|i: int| 0 <= i < commits.len() implies is_event(#[trigger] commits[i]) by {
        assert(is_commit_of(commits[i], text[i]));
    }
    lemma_all_events(commits);
    lemma_runs_to_completion(ready, commits, signals, outcomes);
    lemma_recorded_all_congruent(ready, state, signals);
    law_signals_leave_the_rest_alone(state, signals);
}

/// After the widget tree was changed from outside, while nothing else is to be
/// done, its signals are drained, and nothing is left to be done after that.
pub proof fn law_edit_runs_to_completion<A>(
    state: HarnessState<A>,
    render_root: RenderRoot,
    signals: Seq<RenderRootSignal<A>>,
    outcomes: spec_fn(int) -> Handled,
)
    requires
        state.agenda.len() == 0,
    ensures
        run(state.edited(render_root), replies_of(signals, 1), outcomes, 0) == (
            answered_by(
                recorded_all(state.refreshed(render_root), signals),
                size_count(signals),
                outcomes,
                0,
            ),
            resizes(signals),
        ),
{
    let none = Seq::<Request>::empty();
    assert(none + seq![Request::PopSignal] == seq![Request::PopSignal]);
    assert(none + resizes(signals) == resizes(signals));
    lemma_runs_to_completion(state.refreshed(render_root), none, signals, outcomes);
}

/// Every action that the widget tree emits in answer to an event, to a typed text
/// or to a change from outside can be popped as soon as that is done with, oldest
/// first, behind those that were there before.
pub proof fn law_emitted_actions_can_be_popped<A>(
    state: HarnessState<A>,
    event: Request,
    text: Seq<char>,
    commits: Seq<Request>,
    render_root: RenderRoot,
    signals: Seq<RenderRootSignal<A>>,
    outcomes: spec_fn(int) -> Handled,
)
    requires
        state.agenda.len() == 0,
        is_event(event),
        are_commits_of(commits, text),
    ensures
        ({
            let replies = replies_of(signals, 1);
            let actions = state.actions + emitted(signals);
            &&& run(state.sent(event), replies, outcomes, 0).0.actions == actions
            &&& run(state.typed(commits), replies, outcomes, 0).0.actions == actions
            &&& run(state.edited(render_root), replies, outcomes, 0).0.actions == actions
        }),
{
    law_event_runs_to_completion(state, event, signals, outcomes);
    law_typing_runs_to_completion(state, text, commits, signals, outcomes);
    law_edit_runs_to_completion(state, render_root, signals, outcomes);
    law_actions_queue_up_in_order(state, signals);
    law_actions_queue_up_in_order(state.refreshed(render_root), signals);
}

/// A widget that is focused while nothing else is to be done has the focus
/// afterwards, where the tree that is reported then says that the focus went to
/// it and has it. The signals that the tree sends on the way are taken in.
pub proof fn law_focus_is_found<A>(
    state: HarnessState<A>,
    id: WidgetId,
    signals: Seq<RenderRootSignal<A>>,
    outcomes: spec_fn(int) -> Handled,
    reported: RenderRoot,
)
    requires
        state.agenda.len() == 0,
        state.render_root.focus_obstacle(id) is None,
        reported.focused_widget == Some(id),
        reported.lookup(id) is Some,
    ensures
        ({
            let after = run(
                state.focused_on(Some(id)),
                replies_of(signals, 1),
                outcomes,
                0,
            ).0.refreshed(reported);
            &&& after.focused() == reported.lookup(id)
            &&& after.focused() matches Some(widget) && widget.id == id
            &&& after.actions == state.actions + emitted(signals)
            &&& after.has_ime_session == session_after(state.has_ime_session, signals)
        }),
{
    law_focus_runs_to_completion(state, Some(id), signals, outcomes);
    law_actions_queue_up_in_order(state, signals);
    law_the_last_signal_counts(state, signals);
    crate::widget::law_lookup(reported, id);
}

/// The focus can always be taken from all widgets, and no widget has it
/// afterwards, where the tree that is reported then says so. The signals that
/// the tree sends on the way are taken in.
pub proof fn law_focus_is_given_up<A>(
    state: HarnessState<A>,
    signals: Seq<RenderRootSignal<A>>,
    outcomes: spec_fn(int) -> Handled,
    reported: RenderRoot,
)
    requires
        state.agenda.len() == 0,
        reported.focused_widget is None,
    ensures
        ({
            let after = run(
                state.focused_on(None),
                replies_of(signals, 1),
                outcomes,
                0,
            ).0.refreshed(reported);
            &&& after.focused() is None
            &&& after.actions == state.actions + emitted(signals)
            &&& after.has_ime_session == session_after(state.has_ime_session, signals)
        }),
{
    law_focus_runs_to_completion(state, None, signals, outcomes);
    law_actions_queue_up_in_order(state, signals);
    law_the_last_signal_counts(state, signals);
}

proof fn lemma_all_events(work: Seq<Request>)
    requires
        forall|i: int| 0 <= i < work.len() ==> is_event(#[trigger] work[i]),
    ensures
        event_count(work) == work.len(),
    decreases work.len(),
{
    if work.len() > 0 {
        assert(is_event(work[0]));
        assert forall|i: int| 0 <= i < work.drop_first().len() implies is_event(
            #[trigger] work.drop_first()[i],
        ) by {
            assert(work.drop_first()[i] == work[i + 1]);
        }
        lemma_all_events(work.drop_first());
    }
}

proof fn lemma_no_events(work: Seq<Request>)
    requires
        forall|i: int| 0 <= i < work.len() ==> !is_event(#[trigger] work[i]),
    ensures
        event_count(work) == 0,
    decreases work.len(),
{
    if work.len() > 0 {
        assert(!is_event(work[0]));
        assert forall|i: int| 0 <= i < work.drop_first().len() implies !is_event(
            #[trigger] work.drop_first()[i],
        ) by {
            assert(work.drop_first()[i] == work[i + 1]);
        }
        lemma_no_events(work.drop_first());
    }
}

proof fn lemma_recorded_all_congruent<A>(
    a: HarnessState<A>,
    b: HarnessState<A>,
    signals: Seq<RenderRootSignal<A>>,
)
    requires
        a == (HarnessState { agenda: a.agenda, handled: a.handled, ..b }),
    ensures
        recorded_all(a, signals) == (HarnessState {
            agenda: a.agenda,
            handled: a.handled,
            ..recorded_all(b, signals)
        }),
    decreases signals.len(),
{
    if signals.len() > 0 {
        lemma_recorded_all_congruent(
            a.recorded(signals[0]),
            b.recorded(signals[0]),
            signals.drop_first(),
        );
    }
}

/// Signals change neither what is known of the widget tree, nor the pointer, nor
/// the background of the window.
pub proof fn law_signals_leave_the_rest_alone<A>(
    state: HarnessState<A>,
    signals: Seq<RenderRootSignal<A>>,
)
    ensures
        ({
            let after = recorded_all(state, signals);
            &&& after.render_root == state.render_root
            &&& after.mouse_state == state.mouse_state
            &&& after.background_color == state.background_color
            &&& after.handled == state.handled
            &&& after.agenda == state.agenda
        }),
    decreases signals.len(),
{
    if signals.len() > 0 {
        law_signals_leave_the_rest_alone(state.recorded(signals[0]), signals.drop_first());
    }
}

/// The actions in a series of signals.
pub open spec fn emitted<A>(signals: Seq<RenderRootSignal<A>>) -> Seq<(A, WidgetId)>
    decreases signals.len(),
{
    if signals.len() == 0 {
        Seq::empty()
    } else {
        match signals[0] {
            RenderRootSignal::Action(action, widget_id) => seq![(action, widget_id)] + emitted(
                signals.drop_first(),
            ),
            _ => emitted(signals.drop_first()),
        }
    }
}

/// The actions that widgets emit queue up in the order in which they were
/// emitted, none is lost, and no signal but an action adds to the queue.
pub proof fn law_actions_queue_up_in_order<A>(
    state: HarnessState<A>,
    signals: Seq<RenderRootSignal<A>>,
)
    ensures
        recorded_all(state, signals).actions == state.actions + emitted(signals),
    decreases signals.len(),
{
    if signals.len() > 0 {
        law_actions_queue_up_in_order(state.recorded(signals[0]), signals.drop_first());
        match signals[0] {
            RenderRootSignal::Action(action, widget_id) => {
                assert(state.actions.push((action, widget_id)) + emitted(signals.drop_first())
                    == state.actions + emitted(signals));
            },
            _ => {},
        }
    }
}

/// Whether a session is in progress after a series of signals: the last signal
/// that starts or ends one tells.
pub open spec fn session_after<A>(before: bool, signals: Seq<RenderRootSignal<A>>) -> bool
    decreases signals.len(),
{
    if signals.len() == 0 {
        before
    } else {
        match signals.last() {
            RenderRootSignal::StartIme => true,
            RenderRootSignal::EndIme => false,
            _ => session_after(before, signals.drop_last()),
        }
    }
}

/// The area of the input method after a series of signals: the last signal that
/// moves it tells.
pub open spec fn ime_rect_after<A>(
    before: (LogicalPosition, LogicalSize),
    signals: Seq<RenderRootSignal<A>>,
) -> (LogicalPosition, LogicalSize)
    decreases signals.len(),
{
    if signals.len() == 0 {
        before
    } else {
        match signals.last() {
            RenderRootSignal::ImeMoved(position, size) => (position, size),
            _ => ime_rect_after(before, signals.drop_last()),
        }
    }
}

/// The size of the window after a series of signals: the last signal that sets
/// one tells.
pub open spec fn window_size_after<A>(
    before: PhysicalSize,
    signals: Seq<RenderRootSignal<A>>,
) -> PhysicalSize
    decreases signals.len(),
{
    if signals.len() == 0 {
        before
    } else {
        match signals.last() {
            RenderRootSignal::SetSize(size) => size,
            _ => window_size_after(before, signals.drop_last()),
        }
    }
}

/// The title of the window after a series of signals: the last signal that sets
/// one tells.
pub open spec fn title_after<A>(
    before: Seq<char>,
    signals: Seq<RenderRootSignal<A>>,
) -> Seq<char>
    decreases signals.len(),
{
    if signals.len() == 0 {
        before
    } else {
        match signals.last() {
            RenderRootSignal::SetTitle(title) => title@,
            _ => title_after(before, signals.drop_last()),
        }
    }
}

proof fn lemma_recorded_all_last<A>(
    state: HarnessState<A>,
    signals: Seq<RenderRootSignal<A>>,
)
    requires
        signals.len() > 0,
    ensures
        recorded_all(state, signals) == recorded_all(state, signals.drop_last()).recorded(
            signals.last(),
        ),
    decreases signals.len(),
{
    if signals.len() == 1 {
        assert(recorded_all(state.recorded(signals[0]), signals.drop_first())
            == state.recorded(signals[0]));
        assert(recorded_all(state, signals.drop_last()) == state);
    } else {
        lemma_recorded_all_last(state.recorded(signals[0]), signals.drop_first());
        assert(signals.drop_first().drop_last() == signals.drop_last().drop_first());
    }
}

/// Of several signals that set the same thing, the last one counts: the input
/// method session, its area, the size of the window and its title are what the
/// last such signal made them, and what they were before if there was none.
pub proof fn law_the_last_signal_counts<A>(
    state: HarnessState<A>,
    signals: Seq<RenderRootSignal<A>>,
)
    ensures
        ({
            let after = recorded_all(state, signals);
            &&& after.has_ime_session == session_after(state.has_ime_session, signals)
            &&& after.ime_rect == ime_rect_after(state.ime_rect, signals)
            &&& after.window_size == window_size_after(state.window_size, signals)
            &&& after.title == title_after(state.title, signals)
        }),
    decreases signals.len(),
{
    if signals.len() > 0 {
        lemma_recorded_all_last(state, signals);
        law_the_last_signal_counts(state, signals.drop_last());
    }
}

/// A signal that is about the window as the user sees it means nothing to the
/// harness, which goes on to the next one.
pub proof fn law_signals_to_the_desktop_are_ignored<A>(
    state: HarnessState<A>,
    signal: RenderRootSignal<A>,
)
    requires
        signal is RequestRedraw || signal is RequestAnimFrame || signal is TakeFocus
            || signal is SetCursor || signal is DragWindow || signal is DragResizeWindow
            || signal is ToggleMaximized || signal is Minimize || signal is Exit
            || signal is ShowWindowMenu,
    ensures
        state.told(Some(signal)) == (HarnessState {
            agenda: seq![Request::PopSignal] + state.agenda,
            ..state
        }),
{
}

/// To press a button and to release it again leaves every other button as it
/// was, and leaves the pointer as it was if the button was not held before.
pub proof fn law_release_undoes_press<A>(state: HarnessState<A>, button: PointerButton)
    ensures
        ({
            let after = state.button_pressed(button).button_released(button);
            &&& !after.mouse_state.buttons.has(button)
            &&& forall|b: PointerButton|
                b != button ==> after.mouse_state.buttons.has(b)
                    == state.mouse_state.buttons.has(b)
            &&& !state.mouse_state.buttons.has(button) ==> after.mouse_state
                == state.mouse_state
        }),
{
}

/// A button is held from its press on, until it is released: what is done with
/// the pointer meanwhile does not change that, but for a release of that very
/// button.
pub proof fn law_a_button_stays_down<A>(
    state: HarnessState<A>,
    button: PointerButton,
    pos: Point,
    delta: Vec2,
    other: PointerButton,
)
    ensures
        state.button_pressed(button).mouse_state.buttons.has(button),
        state.mouse_moved(pos).mouse_state.buttons == state.mouse_state.buttons,
        state.wheel_turned(delta).mouse_state == state.mouse_state,
        state.mouse_state.buttons.has(button) ==> state.button_pressed(
            other,
        ).mouse_state.buttons.has(button),
        state.mouse_state.buttons.has(button) && other != button ==> state.button_released(
            other,
        ).mouse_state.buttons.has(button),
{
}

/// A click on a widget is a move to its center, a press and a release there. No
/// more and no less is sent. The primary button is up in the end and every other
/// one as it was before; but for the pointer the harness is as it was.
pub proof fn law_click<A>(state: HarnessState<A>, id: WidgetId)
    requires
        state.render_root.pointer_obstacle(id) is None,
    ensures
        ({
            let center = state.render_root.lookup(id)->Some_0.center;
            let over = PointerState {
                physical_position: PhysicalPosition { x: center.x, y: center.y },
                position: LogicalPosition { x: center.x, y: center.y },
                buttons: state.mouse_state.buttons,
            };
            let down = PointerState {
                buttons: over.buttons.with(PointerButton::Primary, true),
                ..over
            };
            let up = PointerState {
                buttons: over.buttons.with(PointerButton::Primary, false),
                ..over
            };
            state.clicked_on(id) == (HarnessState {
                mouse_state: up,
                handled: None,
                agenda: state.agenda + seq![
                    Request::Pointer(PointerEvent::PointerMove(over)),
                    Request::PopSignal,
                    Request::Pointer(PointerEvent::PointerDown(PointerButton::Primary, down)),
                    Request::PopSignal,
                    Request::Pointer(PointerEvent::PointerUp(PointerButton::Primary, up)),
                    Request::PopSignal,
                ],
                ..state
            })
        }),
{
    let center = state.render_root.lookup(id)->Some_0.center;
    let over = PointerState {
        physical_position: PhysicalPosition { x: center.x, y: center.y },
        position: LogicalPosition { x: center.x, y: center.y },
        buttons: state.mouse_state.buttons,
    };
    let down = PointerState { buttons: over.buttons.with(PointerButton::Primary, true), ..over };
    let up = PointerState { buttons: over.buttons.with(PointerButton::Primary, false), ..over };
    assert(down.buttons.with(PointerButton::Primary, false) == up.buttons);
    assert(state.clicked_on(id).agenda =~= state.agenda + seq![
        Request::Pointer(PointerEvent::PointerMove(over)),
        Request::PopSignal,
        Request::Pointer(PointerEvent::PointerDown(PointerButton::Primary, down)),
        Request::PopSignal,
        Request::Pointer(PointerEvent::PointerUp(PointerButton::Primary, up)),
        Request::PopSignal,
    ]);
}

proof fn lemma_recorded_all_sum<A>(
    state: HarnessState<A>,
    first: Seq<RenderRootSignal<A>>,
    second: Seq<RenderRootSignal<A>>,
)
    ensures
        recorded_all(state, first + second) == recorded_all(recorded_all(state, first), second),
    decreases first.len(),
{
    if first.len() == 0 {
        assert(first + second == second);
    } else {
        assert((first + second).drop_first() == first.drop_first() + second);
        lemma_recorded_all_sum(state.recorded(first[0]), first.drop_first(), second);
    }
}

/// A click on a widget, while nothing else is to be done, sends its three events
/// in order, and the signals that each causes are drained before the next event
/// is sent. All of these signals are recorded, and nothing is left to be done
/// after that.
pub proof fn law_click_runs_to_completion<A>(
    state: HarnessState<A>,
    id: WidgetId,
    on_move: Seq<RenderRootSignal<A>>,
    on_press: Seq<RenderRootSignal<A>>,
    on_release: Seq<RenderRootSignal<A>>,
    outcomes: spec_fn(int) -> Handled,
)
    requires
        state.agenda.len() == 0,
        state.render_root.pointer_obstacle(id) is None,
    ensures
        ({
            let clicked = state.clicked_on(id);
            let ran = run(
                clicked,
                replies_of(on_move, 1) + replies_of(on_press, 1) + replies_of(on_release, 1),
                outcomes,
                0,
            );
            &&& ran.0 == (HarnessState {
                agenda: Seq::<Request>::empty(),
                handled: Some(outcomes(0)),
                ..recorded_all(clicked, on_move + on_press + on_release)
            })
            &&& ran.1 == seq![clicked.agenda[0]] + resizes(on_move) + seq![clicked.agenda[2]]
                + resizes(on_press) + seq![clicked.agenda[4]] + resizes(on_release)
        }),
{
    let clicked = state.clicked_on(id);
    let pop = Request::PopSignal;
    let none = Seq::<Option<RenderRootSignal<A>>>::empty();
    let r1 = replies_of(on_move, 1);
    let r2 = replies_of(on_press, 1);
    let r3 = replies_of(on_release, 1);
    law_click(state, id);
    let a0 = clicked.agenda[0];
    let a2 = clicked.agenda[2];
    let a4 = clicked.agenda[4];
    let tail4 = seq![a4, pop];
    let tail2 = seq![a2, pop] + tail4;
    let k1: int = 1int + size_count(on_move);
    let k3: int = k1 + 1 + size_count(on_press);
    let s1 = HarnessState { agenda: clicked.agenda.drop_first(), ..clicked }.answered(outcomes(0));
    assert(s1.agenda == seq![pop] + tail2);
    let t2 = HarnessState {
        agenda: tail2,
        ..answered_by(recorded_all(s1, on_move), size_count(on_move), outcomes, 1)
    };
    let s2 = HarnessState { agenda: t2.agenda.drop_first(), ..t2 }.answered(outcomes(k1));
    assert(t2.agenda[0] == a2);
    assert(s2.agenda == seq![pop] + tail4);
    let t4 = HarnessState {
        agenda: tail4,
        ..answered_by(recorded_all(s2, on_press), size_count(on_press), outcomes, k1 + 1)
    };
    let s4 = HarnessState { agenda: t4.agenda.drop_first(), ..t4 }.answered(outcomes(k3));
    assert(t4.agenda[0] == a4);
    assert(s4.agenda == seq![pop] + Seq::<Request>::empty());
    let end = HarnessState {
        agenda: Seq::<Request>::empty(),
        ..answered_by(recorded_all(s4, on_release), size_count(on_release), outcomes, k3 + 1)
    };

    law_signals_are_drained(s4, Seq::empty(), on_release, none, outcomes, k3 + 1);
    assert(r3 + none == r3);
    assert(run(s4, r3, outcomes, k3 + 1) == (end, resizes(on_release) + Seq::<Request>::empty()));
    assert(run(t4, r3, outcomes, k3) == (end, seq![a4] + run(s4, r3, outcomes, k3 + 1).1));

    law_signals_are_drained(s2, tail4, on_press, r3, outcomes, k1 + 1);
    assert(run(s2, r2 + r3, outcomes, k1 + 1) == (
        end,
        resizes(on_press) + run(t4, r3, outcomes, k3).1,
    ));
    assert(run(t2, r2 + r3, outcomes, k1) == (
        end,
        seq![a2] + run(s2, r2 + r3, outcomes, k1 + 1).1,
    ));

    law_signals_are_drained(s1, tail2, on_move, r2 + r3, outcomes, 1);
    assert(r1 + (r2 + r3) == r1 + r2 + r3);
    assert(run(s1, r1 + r2 + r3, outcomes, 1) == (
        end,
        resizes(on_move) + run(t2, r2 + r3, outcomes, k1).1,
    ));
    assert(run(clicked, r1 + r2 + r3, outcomes, 0) == (
        end,
        seq![a0] + run(s1, r1 + r2 + r3, outcomes, 1).1,
    ));
    assert(run(clicked, r1 + r2 + r3, outcomes, 0).1 == seq![a0] + resizes(on_move) + seq![a2]
        + resizes(on_press) + seq![a4] + resizes(on_release));

    law_signals_leave_the_rest_alone(s1, on_move);
    law_signals_leave_the_rest_alone(s2, on_press);
    law_signals_leave_the_rest_alone(s4, on_release);
    let m1 = recorded_all(clicked, on_move);
    let m2 = recorded_all(m1, on_press);
    lemma_recorded_all_congruent(s1, clicked, on_move);
    lemma_recorded_all_congruent(s2, m1, on_press);
    lemma_recorded_all_congruent(s4, m2, on_release);
    lemma_recorded_all_sum(clicked, on_move, on_press);
    lemma_recorded_all_sum(clicked, on_move + on_press, on_release);
}

/// The work does not paint the window.
pub open spec fn paints_nothing(work: Seq<Request>) -> bool {
    forall|i: int| 0 <= i < work.len() ==> !(#[trigger] work[i] is Redraw)
}

/// Nothing that a user does with the window, and no signal of the widget tree,
/// paints the window.
pub proof fn law_only_rendering_paints<A>(
    state: HarnessState<A>,
    event: Request,
    pos: Point,
    delta: Vec2,
    button: PointerButton,
    id: WidgetId,
    focus: Option<WidgetId>,
    nanoseconds: u64,
    text: Seq<char>,
    commits: Seq<Request>,
    render_root: RenderRoot,
    signal: Option<RenderRootSignal<A>>,
)
    requires
        paints_nothing(state.agenda),
        is_event(event),
        are_commits_of(commits, text),
    ensures
        paints_nothing(state.sent(event).agenda),
        paints_nothing(state.mouse_moved(pos).agenda),
        paints_nothing(state.button_pressed(button).agenda),
        paints_nothing(state.button_released(button).agenda),
        paints_nothing(state.wheel_turned(delta).agenda),
        paints_nothing(state.mouse_moved_to(id).agenda),
        paints_nothing(state.clicked_on(id).agenda),
        paints_nothing(state.focused_on(focus).agenda),
        paints_nothing(state.animated(nanoseconds).agenda),
        paints_nothing(state.typed(commits).agenda),
        paints_nothing(state.edited(render_root).agenda),
        paints_nothing(state.told(signal).agenda),
{
    assert forall|i: int| 0 <= i < commits.len() implies !(#[trigger] commits[i] is Redraw) by {
        assert(is_commit_of(commits[i], text[i]));
    }
}

/// Where no painting is asked for, none is done, whatever signals the widget
/// tree sends meanwhile.
pub proof fn law_no_paint_without_request<A>(
    state: HarnessState<A>,
    replies: Seq<Option<RenderRootSignal<A>>>,
    outcomes: spec_fn(int) -> Handled,
    k: int,
)
    requires
        paints_nothing(state.agenda),
    ensures
        paints_nothing(run(state, replies, outcomes, k).1),
    decreases replies.len(), state.agenda.len(),
{
    if state.agenda.len() > 0 {
        let first = state.agenda[0];
        let rest = HarnessState { agenda: state.agenda.drop_first(), ..state };
        assert forall|i: int| 0 <= i < rest.agenda.len() implies !(
        #[trigger] rest.agenda[i] is Redraw) by {
            assert(rest.agenda[i] == state.agenda[i + 1]);
        }
        if first is PopSignal {
            if replies.len() == 0 {
                law_no_paint_without_request(rest, replies, outcomes, k);
            } else {
                law_no_paint_without_request(
                    rest.told(replies[0]),
                    replies.drop_first(),
                    outcomes,
                    k,
                );
            }
        } else if is_event(first) {
            law_no_paint_without_request(rest.answered(outcomes(k)), replies, outcomes, k + 1);
        } else {
            law_no_paint_without_request(rest, replies, outcomes, k);
        }
    }
}

} // verus!
