use cursor_icon::CursorIcon;
use masonry_testing::{
    FocusError, Float64, Handled, Ime, LogicalPosition, LogicalSize, PhysicalPosition,
    PhysicalSize, Point, PointerButton, PointerButtons, PointerEvent, PointerState,
    PointerTargetError, RenderRoot, RenderRootSignal, RenderStep, Request, Size, SnapshotStep,
    TestHarness, TestHarnessParams, TextEvent, Vec2, WidgetId, WidgetNode, WindowEvent,
};

#[derive(Debug, PartialEq)]
enum Action {
    ButtonPressed(PointerButton),
    TextChanged(String),
}

type Signal = RenderRootSignal<Action>;

fn scalar(value: f64) -> Float64 {
    Float64 {
        bits: value.to_bits(),
    }
}

fn point(x: f64, y: f64) -> Point {
    Point {
        x: scalar(x),
        y: scalar(y),
    }
}

fn size(width: u32, height: u32) -> PhysicalSize {
    PhysicalSize { width, height }
}

fn node(id: u64, children: Vec<WidgetNode>) -> WidgetNode {
    WidgetNode {
        id: WidgetId(id),
        is_stashed: false,
        is_disabled: false,
        accepts_pointer_interaction: true,
        center: point(id as f64, 10. * id as f64),
        hit_at_center: Some(WidgetId(id)),
        children,
    }
}

/// 1 ( 2 ( 4, 5 ), 3 ( 6 ) )
fn tree() -> RenderRoot {
    RenderRoot {
        root: node(
            1,
            vec![
                node(2, vec![node(4, vec![]), node(5, vec![])]),
                node(3, vec![node(6, vec![])]),
            ],
        ),
        focused_widget: None,
        pointer_capture_target: None,
        cursor_icon: CursorIcon::Default,
    }
}

/// A harness that has nothing left to do.
fn settled() -> TestHarness<Action> {
    let mut harness = TestHarness::create(tree());
    work(&mut harness, vec![]);
    harness
}

/// Works the agenda off, with a tree that has these signals waiting.
fn work(harness: &mut TestHarness<Action>, signals: Vec<Signal>) -> Vec<Request> {
    let mut signals = signals.into_iter();
    let mut done = Vec::new();
    let mut events = 0;
    while let Some(request) = harness.next_request() {
        match request {
            Request::PopSignal => harness.process_signals(signals.next()),
            Request::Window(_) | Request::Pointer(_) | Request::Text(_) => {
                harness.event_handled(if events == 0 {
                    Handled::Yes
                } else {
                    Handled::No
                });
                events += 1;
                done.push(request);
            }
            _ => done.push(request),
        }
    }
    done
}

fn agenda(harness: &mut TestHarness<Action>) -> Vec<Request> {
    let mut requests = Vec::new();
    while let Some(request) = harness.next_request() {
        requests.push(request);
    }
    requests
}

fn pointer(x: f64, y: f64, buttons: PointerButtons) -> PointerState {
    PointerState {
        physical_position: PhysicalPosition {
            x: scalar(x),
            y: scalar(y),
        },
        position: LogicalPosition {
            x: scalar(x),
            y: scalar(y),
        },
        buttons,
    }
}

fn held(button: PointerButton) -> PointerButtons {
    let mut buttons = PointerButtons::new();
    buttons.insert(button);
    buttons
}

const BUTTONS: [PointerButton; 6] = [
    PointerButton::Primary,
    PointerButton::Secondary,
    PointerButton::Auxiliary,
    PointerButton::X1,
    PointerButton::X2,
    PointerButton::Other,
];

#[test]
fn new_harness() {
    let mut harness: TestHarness<Action> = TestHarness::create(tree());
    assert_eq!(harness.window_size(), size(400, 400));
    assert_eq!(harness.title(), "");
    assert!(!harness.has_ime_session());
    let zero = scalar(0.);
    assert_eq!(
        harness.ime_rect(),
        (
            LogicalPosition { x: zero, y: zero },
            LogicalSize {
                width: zero,
                height: zero
            }
        )
    );
    assert_eq!(harness.pop_action(), None);
    assert_eq!(harness.handled(), None);
    assert_eq!(
        agenda(&mut harness),
        vec![
            Request::Window(WindowEvent::Resize(size(400, 400))),
            Request::PopSignal
        ]
    );
}

#[test]
fn harness_with_size() {
    let mut harness: TestHarness<Action> = TestHarness::create_with_size(
        tree(),
        Size {
            width: scalar(640.9),
            height: scalar(f64::NAN),
        },
    );
    assert_eq!(harness.window_size(), size(640, 0));
    assert_eq!(
        work(&mut harness, vec![]),
        vec![Request::Window(WindowEvent::Resize(size(640, 0)))]
    );
}

#[test]
fn harness_with_params() {
    let mut params = TestHarnessParams::default();
    params.window_size = Size {
        width: scalar(1e10),
        height: scalar(20.),
    };
    params.background_color.red.bits = 0;
    let mut harness: TestHarness<Action> = TestHarness::create_with(tree(), params);
    work(&mut harness, vec![Signal::SetSize(size(30, 20))]);
    match harness.render(&None) {
        RenderStep::Draw(target) => {
            assert_eq!((target.width, target.height), (30, 20));
            assert_eq!(target.base_color, params.background_color);
        }
        RenderStep::Blank(_) => panic!("a frame is due"),
    }
}

#[test]
fn simple_button() {
    let button_id = WidgetId(4);
    let mut harness = settled();
    assert_eq!(harness.pop_action(), None);

    harness.mouse_click_on(button_id);
    work(
        &mut harness,
        vec![
            Signal::RequestRedraw,
            Signal::Action(Action::ButtonPressed(PointerButton::Primary), button_id),
        ],
    );
    assert_eq!(
        harness.pop_action(),
        Some((Action::ButtonPressed(PointerButton::Primary), button_id))
    );
    assert_eq!(harness.pop_action(), None);
}

#[test]
fn events_are_sent_in_order() {
    let mut harness = settled();
    harness.process_window_event(WindowEvent::AnimFrame);
    harness.process_pointer_event(PointerEvent::PointerLeave(PointerState::empty()));
    harness.process_text_event(TextEvent::FocusChange(true));
    assert_eq!(
        agenda(&mut harness),
        vec![
            Request::Window(WindowEvent::AnimFrame),
            Request::PopSignal,
            Request::Pointer(PointerEvent::PointerLeave(PointerState::empty())),
            Request::PopSignal,
            Request::Text(TextEvent::FocusChange(true)),
            Request::PopSignal,
        ]
    );
}

#[test]
fn actions_are_popped_oldest_first() {
    let mut harness = settled();
    harness.process_window_event(WindowEvent::AnimFrame);
    work(
        &mut harness,
        vec![
            Signal::Action(Action::TextChanged("a".to_string()), WidgetId(1)),
            Signal::TakeFocus,
            Signal::Action(Action::TextChanged("b".to_string()), WidgetId(2)),
        ],
    );
    harness.process_window_event(WindowEvent::AnimFrame);
    work(
        &mut harness,
        vec![Signal::Action(
            Action::TextChanged("c".to_string()),
            WidgetId(1),
        )],
    );
    for (text, id) in [("a", 1), ("b", 2), ("c", 1)] {
        assert_eq!(
            harness.pop_action(),
            Some((Action::TextChanged(text.to_string()), WidgetId(id)))
        );
    }
    assert_eq!(harness.pop_action(), None);
}

#[test]
fn last_signal_counts() {
    let rect = (
        LogicalPosition {
            x: scalar(1.),
            y: scalar(2.),
        },
        LogicalSize {
            width: scalar(3.),
            height: scalar(4.),
        },
    );
    let mut harness = settled();
    harness.process_window_event(WindowEvent::AnimFrame);
    work(
        &mut harness,
        vec![
            Signal::StartIme,
            Signal::SetTitle("one".to_string()),
            Signal::ImeMoved(rect.0, rect.1),
            Signal::SetTitle("two".to_string()),
        ],
    );
    assert!(harness.has_ime_session());
    assert_eq!(harness.ime_rect(), rect);
    assert_eq!(harness.title(), "two");

    harness.process_window_event(WindowEvent::AnimFrame);
    work(&mut harness, vec![Signal::StartIme, Signal::EndIme]);
    assert!(!harness.has_ime_session());
    assert_eq!(harness.ime_rect(), rect);
    assert_eq!(harness.title(), "two");
}

#[test]
fn size_requests_are_answered() {
    let mut harness = settled();
    harness.process_window_event(WindowEvent::AnimFrame);
    let done = work(
        &mut harness,
        vec![
            Signal::SetSize(size(10, 20)),
            Signal::StartIme,
            Signal::SetSize(size(30, 40)),
        ],
    );
    assert_eq!(
        done,
        vec![
            Request::Window(WindowEvent::AnimFrame),
            Request::Window(WindowEvent::Resize(size(10, 20))),
            Request::Window(WindowEvent::Resize(size(30, 40))),
        ]
    );
    assert_eq!(harness.window_size(), size(30, 40));
    assert!(harness.has_ime_session());
    // The outcome is that of the event itself.
    assert_eq!(harness.handled(), Some(Handled::Yes));
}

#[test]
fn resize_comes_before_other_work() {
    let mut harness = settled();
    harness.process_window_event(WindowEvent::AnimFrame);
    harness.process_window_event(WindowEvent::RebuildAccessTree);
    assert_eq!(
        harness.next_request(),
        Some(Request::Window(WindowEvent::AnimFrame))
    );
    assert_eq!(harness.next_request(), Some(Request::PopSignal));
    harness.process_signals(Some(Signal::SetSize(size(1, 2))));
    assert_eq!(
        agenda(&mut harness),
        vec![
            Request::Window(WindowEvent::Resize(size(1, 2))),
            Request::PopSignal,
            Request::PopSignal,
            Request::Window(WindowEvent::RebuildAccessTree),
            Request::PopSignal,
        ]
    );
}

#[test]
fn desktop_signals_are_ignored() {
    let mut harness = settled();
    let ignored = vec![
        Signal::RequestRedraw,
        Signal::RequestAnimFrame,
        Signal::TakeFocus,
        Signal::SetCursor(CursorIcon::Pointer),
        Signal::DragWindow,
        Signal::DragResizeWindow(winit::window::ResizeDirection::East),
        Signal::ToggleMaximized,
        Signal::Minimize,
        Signal::Exit,
        Signal::ShowWindowMenu(LogicalPosition {
            x: scalar(1.),
            y: scalar(1.),
        }),
    ];
    for signal in ignored {
        harness.process_signals(Some(signal));
        assert_eq!(agenda(&mut harness), vec![Request::PopSignal]);
        assert_eq!(harness.pop_action(), None);
        assert!(!harness.has_ime_session());
        assert_eq!(harness.window_size(), size(400, 400));
        assert_eq!(harness.title(), "");
        assert_eq!(harness.cursor_icon(), CursorIcon::Default);
    }
    harness.process_signals(None);
    assert_eq!(agenda(&mut harness), vec![]);
}

#[test]
fn mouse_moves() {
    let mut harness = settled();
    harness.mouse_move(point(12.5, -3.));
    let none = PointerButtons::new();
    assert_eq!(
        agenda(&mut harness),
        vec![
            Request::Pointer(PointerEvent::PointerMove(pointer(12.5, -3., none))),
            Request::PopSignal
        ]
    );
}

#[test]
fn buttons_go_down_and_up() {
    let mut harness = settled();
    harness.mouse_move(point(1., 2.));
    agenda(&mut harness);
    for button in BUTTONS {
        let up = pointer(1., 2., PointerButtons::new());
        let down = pointer(1., 2., held(button));
        harness.mouse_button_press(button);
        harness.mouse_wheel(Vec2 {
            x: scalar(0.),
            y: scalar(120.),
        });
        harness.mouse_button_release(button);
        assert_eq!(
            agenda(&mut harness),
            vec![
                Request::Pointer(PointerEvent::PointerDown(button, down)),
                Request::PopSignal,
                Request::Pointer(PointerEvent::MouseWheel(
                    LogicalPosition {
                        x: scalar(0.),
                        y: scalar(120.)
                    },
                    down
                )),
                Request::PopSignal,
                Request::Pointer(PointerEvent::PointerUp(button, up)),
                Request::PopSignal,
            ]
        );
    }
}

#[test]
fn button_sets() {
    for a in BUTTONS {
        for b in BUTTONS {
            let mut set = held(a);
            set.insert(b);
            assert!(set.contains(a) && set.contains(b));
            for c in BUTTONS {
                assert_eq!(set.contains(c), c == a || c == b);
            }
            set.remove(a);
            assert!(!set.contains(a));
            assert_eq!(set.contains(b), a != b);
        }
    }
}

#[test]
fn click_sends_three_events() {
    let mut harness = settled();
    harness.mouse_button_press(PointerButton::Secondary);
    agenda(&mut harness);
    harness.mouse_click_on(WidgetId(5));
    let before = held(PointerButton::Secondary);
    let mut both = before;
    both.insert(PointerButton::Primary);
    assert_eq!(
        agenda(&mut harness),
        vec![
            Request::Pointer(PointerEvent::PointerMove(pointer(5., 50., before))),
            Request::PopSignal,
            Request::Pointer(PointerEvent::PointerDown(
                PointerButton::Primary,
                pointer(5., 50., both)
            )),
            Request::PopSignal,
            Request::Pointer(PointerEvent::PointerUp(
                PointerButton::Primary,
                pointer(5., 50., before)
            )),
            Request::PopSignal,
        ]
    );
}

#[test]
fn click_drains_signals_between_events() {
    let mut harness = settled();
    harness.mouse_click_on(WidgetId(5));
    let mut replies = vec![
        // After the move.
        Some(Signal::SetTitle("over".to_string())),
        Some(Signal::SetSize(size(7, 8))),
        None,
        None,
        // After the press.
        Some(Signal::Action(
            Action::TextChanged("pressed".to_string()),
            WidgetId(5),
        )),
        None,
        // After the release.
        Some(Signal::SetSize(size(9, 9))),
        Some(Signal::Action(
            Action::ButtonPressed(PointerButton::Primary),
            WidgetId(5),
        )),
        None,
        None,
    ]
    .into_iter();
    let mut done = Vec::new();
    while let Some(request) = harness.next_request() {
        match request {
            Request::PopSignal => harness.process_signals(replies.next().unwrap()),
            _ => done.push(request),
        }
    }
    assert!(replies.next().is_none());
    let none = PointerButtons::new();
    assert_eq!(
        done,
        vec![
            Request::Pointer(PointerEvent::PointerMove(pointer(5., 50., none))),
            Request::Window(WindowEvent::Resize(size(7, 8))),
            Request::Pointer(PointerEvent::PointerDown(
                PointerButton::Primary,
                pointer(5., 50., held(PointerButton::Primary))
            )),
            Request::Pointer(PointerEvent::PointerUp(
                PointerButton::Primary,
                pointer(5., 50., none)
            )),
            Request::Window(WindowEvent::Resize(size(9, 9))),
        ]
    );
    assert_eq!(harness.title(), "over");
    assert_eq!(harness.window_size(), size(9, 9));
    assert_eq!(
        harness.pop_action(),
        Some((Action::TextChanged("pressed".to_string()), WidgetId(5)))
    );
    assert_eq!(
        harness.pop_action(),
        Some((Action::ButtonPressed(PointerButton::Primary), WidgetId(5)))
    );
    assert_eq!(harness.pop_action(), None);
}

#[test]
fn typing_runs_to_completion() {
    let mut harness = settled();
    let commit = |c: &str| Request::Text(TextEvent::Ime(Ime::Commit(c.to_string())));
    harness.keyboard_type_chars("ab");
    assert_eq!(harness.handled(), None);
    let done = work(
        &mut harness,
        vec![
            Signal::SetSize(size(7, 8)),
            Signal::Action(Action::TextChanged("ab".to_string()), WidgetId(4)),
        ],
    );
    assert_eq!(
        done,
        vec![
            commit("a"),
            commit("b"),
            Request::Window(WindowEvent::Resize(size(7, 8))),
        ]
    );
    assert_eq!(harness.handled(), Some(Handled::Yes));
    assert_eq!(harness.window_size(), size(7, 8));
    assert_eq!(
        harness.pop_action(),
        Some((Action::TextChanged("ab".to_string()), WidgetId(4)))
    );
    assert_eq!(harness.pop_action(), None);
}

#[test]
fn edits_run_to_completion() {
    let mut harness = settled();
    let mut root = tree();
    root.root.children.pop();
    harness.widget_edited(root);
    assert!(harness.try_get_widget(WidgetId(3)).is_none());
    let done = work(
        &mut harness,
        vec![Signal::Action(
            Action::ButtonPressed(PointerButton::Primary),
            WidgetId(2),
        )],
    );
    assert_eq!(done, vec![]);
    assert_eq!(
        harness.pop_action(),
        Some((Action::ButtonPressed(PointerButton::Primary), WidgetId(2)))
    );
    assert_eq!(harness.pop_action(), None);
}

#[test]
fn focus_is_found_and_given_up() {
    let mut harness = settled();
    harness.focus_on(Some(WidgetId(5)));
    work(&mut harness, vec![Signal::StartIme]);
    let mut root = tree();
    root.focused_widget = Some(WidgetId(5));
    harness.refresh(root);
    assert_eq!(harness.focused_widget().unwrap().id, WidgetId(5));
    assert!(harness.has_ime_session());

    harness.focus_on(None);
    work(&mut harness, vec![Signal::EndIme]);
    harness.refresh(tree());
    assert!(harness.focused_widget().is_none());
    assert!(!harness.has_ime_session());
}

#[test]
fn pointer_targets() {
    let mut root = tree();
    root.root.children[0].children[0].accepts_pointer_interaction = false;
    root.root.children[0].children[1].is_disabled = true;
    root.root.children[1].children[0].hit_at_center = Some(WidgetId(1));
    root.root.children[1].is_stashed = true;
    assert_eq!(root.pointer_target_error(WidgetId(1)), None);
    assert_eq!(root.pointer_target_error(WidgetId(2)), None);
    assert_eq!(
        root.pointer_target_error(WidgetId(4)),
        Some(PointerTargetError::NoPointerEvents)
    );
    assert_eq!(
        root.pointer_target_error(WidgetId(5)),
        Some(PointerTargetError::Disabled)
    );
    assert_eq!(
        root.pointer_target_error(WidgetId(6)),
        Some(PointerTargetError::NotVisible)
    );
    assert_eq!(
        root.pointer_target_error(WidgetId(3)),
        Some(PointerTargetError::NotVisible)
    );
    assert_eq!(
        root.pointer_target_error(WidgetId(7)),
        Some(PointerTargetError::NotFound)
    );
    root.root.hit_at_center = None;
    assert_eq!(
        root.pointer_target_error(WidgetId(1)),
        Some(PointerTargetError::NotVisible)
    );
    // The first reason is the one that is given.
    root.root.is_disabled = true;
    assert_eq!(
        root.pointer_target_error(WidgetId(1)),
        Some(PointerTargetError::Disabled)
    );
    root.root.accepts_pointer_interaction = false;
    assert_eq!(
        root.pointer_target_error(WidgetId(1)),
        Some(PointerTargetError::NoPointerEvents)
    );
}

#[test]
fn pointer_target_messages() {
    assert_eq!(
        PointerTargetError::NotFound.message("#7"),
        "could not find widget #7"
    );
    assert_eq!(
        PointerTargetError::NoPointerEvents.message("#7"),
        "Widget #7 doesn't accept pointer events"
    );
    assert_eq!(
        PointerTargetError::Disabled.message("#7"),
        "Widget #7 is disabled"
    );
    assert_eq!(
        PointerTargetError::NotVisible.message("#7"),
        "Widget #7 is not visible"
    );
}

#[test]
fn focus_targets() {
    let mut root = tree();
    root.root.children[0].is_stashed = true;
    root.root.children[0].is_disabled = true;
    root.root.children[1].is_disabled = true;
    assert_eq!(root.focus_error(WidgetId(1)), None);
    assert_eq!(root.focus_error(WidgetId(2)), Some(FocusError::Stashed));
    assert_eq!(root.focus_error(WidgetId(3)), Some(FocusError::Disabled));
    assert_eq!(root.focus_error(WidgetId(9)), Some(FocusError::NotFound));
    assert_eq!(
        FocusError::NotFound.message("#9"),
        "Cannot focus widget #9: widget not found in tree"
    );
    assert_eq!(
        FocusError::Stashed.message("#9"),
        "Cannot focus widget #9: widget is stashed"
    );
    assert_eq!(
        FocusError::Disabled.message("#9"),
        "Cannot focus widget #9: widget is disabled"
    );
}

#[test]
fn focus_is_set() {
    let mut harness = settled();
    for id in [Some(WidgetId(6)), None] {
        harness.focus_on(id);
        assert_eq!(
            agenda(&mut harness),
            vec![
                Request::SetNextFocusedWidget(id),
                Request::RunRewritePasses,
                Request::PopSignal,
            ]
        );
    }
}

#[test]
fn time_passes() {
    let mut harness = settled();
    harness.animate_ms(16);
    assert_eq!(
        work(&mut harness, vec![Signal::SetSize(size(5, 6))]),
        vec![
            Request::RunAnimationPass(16_000_000),
            Request::RunRewritePasses,
            Request::Window(WindowEvent::Resize(size(5, 6))),
        ]
    );
    harness.animate_ms(18_446_744_073_709);
    assert_eq!(
        harness.next_request(),
        Some(Request::RunAnimationPass(18_446_744_073_709_000_000))
    );
}

#[test]
fn typing() {
    let mut harness = settled();
    harness.keyboard_type_chars("aß☃🦀");
    let commit =
        |c: &str| Request::Text(TextEvent::Ime(Ime::Commit(c.to_string())));
    assert_eq!(
        agenda(&mut harness),
        vec![
            commit("a"),
            commit("ß"),
            commit("☃"),
            commit("🦀"),
            Request::PopSignal,
        ]
    );
    harness.keyboard_type_chars("");
    assert_eq!(agenda(&mut harness), vec![Request::PopSignal]);
}

#[test]
fn widgets_are_visited_parents_first() {
    let harness = settled();
    let ids: Vec<u64> = harness
        .inspect_widgets()
        .into_iter()
        .map(|widget| widget.id.0)
        .collect();
    assert_eq!(ids, vec![1, 2, 4, 5, 3, 6]);
}

#[test]
fn widgets_are_found() {
    let mut harness = settled();
    assert_eq!(harness.root_widget().id, WidgetId(1));
    for id in 1..=6 {
        assert_eq!(harness.get_widget(WidgetId(id)).center.x, scalar(id as f64));
        assert_eq!(
            harness.try_get_widget(WidgetId(id)).unwrap().id,
            WidgetId(id)
        );
    }
    assert!(harness.try_get_widget(WidgetId(0)).is_none());
    assert!(harness.try_get_widget(WidgetId(7)).is_none());
    assert!(harness.focused_widget().is_none());
    assert!(harness.pointer_capture_target().is_none());
    assert_eq!(harness.pointer_capture_target_id(), None);

    let mut root = tree();
    root.focused_widget = Some(WidgetId(3));
    root.pointer_capture_target = Some(WidgetId(5));
    root.cursor_icon = CursorIcon::Text;
    harness.refresh(root);
    assert_eq!(harness.focused_widget().unwrap().id, WidgetId(3));
    assert_eq!(harness.pointer_capture_target().unwrap().id, WidgetId(5));
    assert_eq!(harness.pointer_capture_target_id(), Some(WidgetId(5)));
    assert_eq!(harness.cursor_icon(), CursorIcon::Text);

    let mut root = tree();
    root.focused_widget = Some(WidgetId(30));
    root.pointer_capture_target = Some(WidgetId(50));
    harness.refresh(root);
    assert!(harness.focused_widget().is_none());
    assert!(harness.pointer_capture_target().is_none());
    assert_eq!(harness.pointer_capture_target_id(), Some(WidgetId(50)));
}

#[test]
fn first_of_equal_ids_is_found() {
    let mut root = tree();
    root.root.children[1].children[0].id = WidgetId(4);
    root.root.children[1].children[0].is_disabled = true;
    assert!(!root.get_widget(WidgetId(4)).unwrap().is_disabled);
}

#[test]
fn rendering_is_skipped() {
    let mut harness = settled();
    assert!(harness.can_render());
    match harness.render(&Some("1".to_string())) {
        RenderStep::Blank(image) => {
            assert_eq!((image.width, image.height), (1, 1));
            assert_eq!(image.data, vec![255, 255, 255, 255]);
        }
        RenderStep::Draw(_) => panic!("nothing is to be drawn"),
    }
    assert_eq!(agenda(&mut harness), vec![Request::Redraw]);
}

#[test]
fn rendering_has_the_size_of_the_window() {
    let mut harness = settled();
    match harness.render(&Some(String::new())) {
        RenderStep::Draw(target) => {
            assert_eq!((target.width, target.height), (400, 400));
            assert_eq!(target.padded_byte_width, 1792);
            assert_eq!(target.buffer_size, 716_800);
            assert_eq!(
                target.base_color,
                TestHarnessParams::default().background_color
            );
        }
        RenderStep::Blank(_) => panic!("a frame is due"),
    }
    assert_eq!(agenda(&mut harness), vec![Request::Redraw]);
    harness.process_signals(Some(Signal::SetSize(size(u32::MAX, 1))));
    assert!(!harness.can_render());
}

#[test]
fn snapshot_starts() {
    let mut harness = settled();
    assert_eq!(
        harness.check_render_snapshot("a::b", "c", &Some("yes".to_string())),
        SnapshotStep::Skip
    );
    assert_eq!(agenda(&mut harness), vec![Request::Redraw]);
    match harness.check_render_snapshot("a::b", "c", &None) {
        SnapshotStep::Compare(files) => assert_eq!(files.reference, "a__b__c.png"),
        SnapshotStep::Skip => panic!("the frame is due"),
    }
    assert_eq!(agenda(&mut harness), vec![]);
}

#[test]
fn only_rendering_paints() {
    let mut harness = settled();
    harness.mouse_click_on(WidgetId(2));
    harness.focus_on(Some(WidgetId(2)));
    harness.animate_ms(1);
    harness.keyboard_type_chars("x");
    harness.widget_edited(tree());
    harness.process_window_event(WindowEvent::Rescale(scalar(2.)));
    let done = work(&mut harness, vec![Signal::RequestRedraw]);
    assert!(!done.contains(&Request::Redraw));
}
