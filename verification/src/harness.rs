//! The test harness.

use std::collections::VecDeque;

use vstd::prelude::*;
use vstd::string::StrSliceExecFns;

use crate::event::{
    Handled, Ime, PointerButton, PointerEvent, PointerState, TextEvent, WindowEvent,
};
use crate::geometry::{
    Color, Float32, Float64, LogicalPosition, LogicalSize, PhysicalPosition, PhysicalSize, Point,
    Size, Vec2,
};
use crate::image_data::RgbaImage;
use crate::render::{RenderStep, RenderTarget};
use crate::signal::RenderRootSignal;
use crate::snapshot::{is_switched_on, switched_on, SnapshotFiles, SnapshotStep};
use crate::state::{are_commits_of, is_commit_of, HarnessState, Request};
use crate::widget::{unref, RenderRoot, WidgetId, WidgetNode};

verus! {

/// The encoding of `400.0`.
pub const DEFAULT_SIDE: u64 = 0x4079_0000_0000_0000;

/// The encoding of `1.0`.
pub const DEFAULT_SCALE_FACTOR: u64 = 0x3ff0_0000_0000_0000;

/// The encoding of `41.0 / 255.0`.
pub const DEFAULT_BACKGROUND_LEVEL: u32 = 0x3e24_a4a5;

/// The encoding of `1.0`.
pub const OPAQUE: u32 = 0x3f80_0000;

/// The number of nanoseconds in a millisecond.
pub const NANOSECONDS_PER_MILLISECOND: u64 = 1_000_000;

/// How the size of a window is chosen.
#[derive(Clone, Copy, Debug, PartialEq, Eq, Structural)]
pub enum WindowSizePolicy {
    /// The window is as large as its content.
    Content,
    /// The user sets the size of the window.
    User,
}

/// How the widget tree is set up.
#[derive(Debug, PartialEq)]
pub struct RenderRootOptions {
    /// Whether the fonts of the system can be used.
    pub use_system_fonts: bool,
    pub size_policy: WindowSizePolicy,
    pub scale_factor: Float64,
    /// A font file to be used.
    pub test_font: Option<Vec<u8>>,
}

/// Parameters for creating a [`TestHarness`].
#[derive(Clone, Copy, Debug, PartialEq, Eq, Structural)]
#[non_exhaustive]
pub struct TestHarnessParams {
    /// The size of the virtual window that frames are rendered for.
    pub window_size: Size,
    /// The background color of the virtual window.
    pub background_color: Color,
    /// The scale factor that widgets are rendered at.
    pub scale_factor: Float64,
}

impl TestHarnessParams {
    /// The size of the window where nothing else is asked for: four hundred
    /// pixels in each direction.
    pub open spec fn default_size() -> Size {
        Size { width: Float64 { bits: DEFAULT_SIDE }, height: Float64 { bits: DEFAULT_SIDE } }
    }

    /// The background where nothing else is asked for: an opaque dark gray.
    pub open spec fn default_background_color() -> Color {
        let level = Float32 { bits: DEFAULT_BACKGROUND_LEVEL };
        Color { red: level, green: level, blue: level, alpha: Float32 { bits: OPAQUE } }
    }

    /// The parameters where nothing else is asked for.
    pub open spec fn defaults() -> Self {
        TestHarnessParams {
            window_size: Self::default_size(),
            background_color: Self::default_background_color(),
            scale_factor: Float64 { bits: DEFAULT_SCALE_FACTOR },
        }
    }

    /// How the widget tree of a harness is set up: with the test font as its
    /// only font.
    pub fn render_root_options(&self, font: Vec<u8>) -> (options: RenderRootOptions)
        ensures
            options == (RenderRootOptions {
                use_system_fonts: false,
                size_policy: WindowSizePolicy::User,
                scale_factor: self.scale_factor,
                test_font: Some(font),
            }),
    {
        RenderRootOptions {
            use_system_fonts: false,
            size_policy: WindowSizePolicy::User,
            scale_factor: self.scale_factor,
            test_font: Some(font),
        }
    }
}

/// The default side of a window is four hundred pixels.
proof fn lemma_default_side()
    ensures
        (Float64 { bits: DEFAULT_SIDE }).as_u32() == 400,
{
    let side = Float64 { bits: DEFAULT_SIDE };
    assert(vstd::arithmetic::power2::pow2(44) == 0x1000_0000_0000) by {
        vstd::arithmetic::power2::lemma2_to64_rest();
    }
    assert(side.exponent_field() == 1031);
    assert(side.significand() == 0x19_0000_0000_0000);
    assert(side.scale() == -44);
    vstd::arithmetic::div_mod::lemma_fundamental_div_mod_converse(
        side.significand(),
        vstd::arithmetic::power2::pow2(44) as int,
        400,
        0,
    );
    assert(side.integer_part() == 400);
}

impl Default for TestHarnessParams {
    fn default() -> (params: Self)
        ensures
            params == Self::defaults(),
    {
        let level = Float32 { bits: DEFAULT_BACKGROUND_LEVEL };
        TestHarnessParams {
            window_size: Size {
                width: Float64 { bits: DEFAULT_SIDE },
                height: Float64 { bits: DEFAULT_SIDE },
            },
            background_color: Color {
                red: level,
                green: level,
                blue: level,
                alpha: Float32 { bits: OPAQUE },
            },
            scale_factor: Float64 { bits: DEFAULT_SCALE_FACTOR },
        }
    }
}

/// A safe headless environment to test widgets in.
///
/// The harness stands for the window that a widget tree lives in. Its methods
/// are what a user of that window does, and each puts the work that follows on
/// the agenda of the harness. Whoever owns the widget tree takes the work from
/// there with [`next_request`](Self::next_request), does it, and reports back
/// with [`event_handled`](Self::event_handled),
/// [`process_signals`](Self::process_signals), [`refresh`](Self::refresh) and
/// [`widget_edited`](Self::widget_edited).
///
/// `A` is the type of the actions that widgets emit.
pub struct TestHarness<A> {
    render_root: RenderRoot,
    mouse_state: PointerState,
    window_size: PhysicalSize,
    background_color: Color,
    action_queue: VecDeque<(A, WidgetId)>,
    has_ime_session: bool,
    ime_rect: (LogicalPosition, LogicalSize),
    title: String,
    handled: Option<Handled>,
    agenda: VecDeque<Request>,
}

impl<A> View for TestHarness<A> {
    type V = HarnessState<A>;

    closed spec fn view(&self) -> HarnessState<A> {
        HarnessState {
            render_root: self.render_root,
            mouse_state: self.mouse_state,
            window_size: self.window_size,
            background_color: self.background_color,
            actions: self.action_queue@,
            has_ime_session: self.has_ime_session,
            ime_rect: self.ime_rect,
            title: self.title@,
            handled: self.handled,
            agenda: self.agenda@,
        }
    }
}

impl<A> TestHarness<A> {
    /// Builds a harness for a widget tree, with the default parameters.
    pub fn create(render_root: RenderRoot) -> (harness: Self)
        ensures
            harness@ == HarnessState::<A>::created(
                render_root,
                TestHarnessParams::default_size().as_physical(),
                TestHarnessParams::default_background_color(),
            ),
            harness@.window_size == (PhysicalSize { width: 400, height: 400 }),
    {
        proof {
            lemma_default_side();
        }
        Self::create_with(render_root, TestHarnessParams::default())
    }

    /// Builds a harness for a widget tree and a size of the window.
    pub fn create_with_size(render_root: RenderRoot, window_size: Size) -> (harness: Self)
        ensures
            harness@ == HarnessState::<A>::created(
                render_root,
                window_size.as_physical(),
                TestHarnessParams::default_background_color(),
            ),
    {
        let mut params = TestHarnessParams::default();
        params.window_size = window_size;
        Self::create_with(render_root, params)
    }

    /// Builds a harness for a widget tree and the given parameters.
    pub fn create_with(render_root: RenderRoot, params: TestHarnessParams) -> (harness: Self)
        ensures
            harness@ == HarnessState::<A>::created(
                render_root,
                params.window_size.as_physical(),
                params.background_color,
            ),
    {
        let window_size = params.window_size.to_physical();
        let zero = Float64 { bits: 0 };
        let mut harness = TestHarness {
            render_root,
            mouse_state: PointerState::empty(),
            window_size,
            background_color: params.background_color,
            action_queue: VecDeque::new(),
            has_ime_session: false,
            ime_rect: (
                LogicalPosition { x: zero, y: zero },
                LogicalSize { width: zero, height: zero },
            ),
            title: String::new(),
            handled: None,
            agenda: VecDeque::new(),
        };
        harness.process_window_event(WindowEvent::Resize(window_size));
        harness
    }

    /// Sends an event to the tree, and looks at the signals of the tree after
    /// that.
    fn send(&mut self, event: Request)
        ensures
            final(self)@ == old(self)@.sent(event),
    {
        self.handled = None;
        self.agenda.push_back(event);
        self.agenda.push_back(Request::PopSignal);
    }

    /// Sends a [`WindowEvent`] to the simulated window.
    pub fn process_window_event(&mut self, event: WindowEvent)
        ensures
            final(self)@ == old(self)@.sent(Request::Window(event)),
    {
        self.send(Request::Window(event));
    }

    /// Sends a [`PointerEvent`] to the simulated window.
    pub fn process_pointer_event(&mut self, event: PointerEvent)
        ensures
            final(self)@ == old(self)@.sent(Request::Pointer(event)),
    {
        self.send(Request::Pointer(event));
    }

    /// Sends a [`TextEvent`] to the simulated window.
    pub fn process_text_event(&mut self, event: TextEvent)
        ensures
            final(self)@ == old(self)@.sent(Request::Text(event)),
    {
        self.send(Request::Text(event));
    }

    /// Takes the next piece of work from the agenda.
    pub fn next_request(&mut self) -> (request: Option<Request>)
        ensures
            match request {
                Some(request) => {
                    &&& old(self)@.agenda.len() > 0
                    &&& request == old(self)@.agenda[0]
                    &&& final(self)@ == (HarnessState {
                        agenda: old(self)@.agenda.drop_first(),
                        ..old(self)@
                    })
                },
                None => old(self)@.agenda.len() == 0 && final(self)@ == old(self)@,
            },
    {
        self.agenda.pop_front()
    }

    /// Learns whether the tree handled an event. The first outcome since events
    /// were last sent is kept, so that an event which follows from another one
    /// does not hide what became of that.
    pub fn event_handled(&mut self, handled: Handled)
        ensures
            final(self)@ == old(self)@.answered(handled),
    {
        match self.handled {
            Some(_) => {},
            None => {
                self.handled = Some(handled);
            },
        }
    }

    /// The first outcome that the tree has reported since events were last sent:
    /// that of the event itself, or of the first character of a typed text.
    pub fn handled(&self) -> (handled: Option<Handled>)
        ensures
            handled == self@.handled,
    {
        self.handled
    }

    /// Learns of the oldest signal that the tree has sent, or that there is
    /// none.
    pub fn process_signals(&mut self, signal: Option<RenderRootSignal<A>>)
        ensures
            final(self)@ == old(self)@.told(signal),
    {
        let signal = match signal {
            Some(signal) => signal,
            None => {
                return;
            },
        };
        self.agenda.push_front(Request::PopSignal);
        match signal {
            RenderRootSignal::Action(action, widget_id) => {
                self.action_queue.push_back((action, widget_id));
            },
            RenderRootSignal::StartIme => {
                self.has_ime_session = true;
            },
            RenderRootSignal::EndIme => {
                self.has_ime_session = false;
            },
            RenderRootSignal::ImeMoved(position, size) => {
                self.ime_rect = (position, size);
            },
            RenderRootSignal::RequestRedraw => {},
            RenderRootSignal::RequestAnimFrame => {},
            RenderRootSignal::TakeFocus => {},
            RenderRootSignal::SetCursor(_) => {},
            RenderRootSignal::SetSize(physical_size) => {
                self.window_size = physical_size;
                self.agenda.push_front(Request::PopSignal);
                self.agenda.push_front(Request::Window(WindowEvent::Resize(physical_size)));
            },
            RenderRootSignal::SetTitle(title) => {
                self.title = title;
            },
            RenderRootSignal::DragWindow => {},
            RenderRootSignal::DragResizeWindow(_) => {},
            RenderRootSignal::ToggleMaximized => {},
            RenderRootSignal::Minimize => {},
            RenderRootSignal::Exit => {},
            RenderRootSignal::ShowWindowMenu(_) => {},
        }
    }

    /// Learns what the widget tree has become.
    pub fn refresh(&mut self, render_root: RenderRoot)
        ensures
            final(self)@ == old(self)@.refreshed(render_root),
    {
        self.render_root = render_root;
    }

    /// Learns what the widget tree has become after it was changed from outside,
    /// and looks at the signals that the tree has sent meanwhile.
    pub fn widget_edited(&mut self, render_root: RenderRoot)
        ensures
            final(self)@ == old(self)@.edited(render_root),
    {
        self.refresh(render_root);
        self.agenda.push_back(Request::PopSignal);
    }

    /// Moves the pointer, and sends a [`PointerMove`](PointerEvent::PointerMove)
    /// event to the window. The scale factor of the pointer is one, so its
    /// position in the window is the same in screen pixels and in logical ones.
    pub fn mouse_move(&mut self, pos: Point)
        ensures
            final(self)@ == old(self)@.mouse_moved(pos),
    {
        self.mouse_state.physical_position = PhysicalPosition { x: pos.x, y: pos.y };
        self.mouse_state.position = LogicalPosition { x: pos.x, y: pos.y };
        self.process_pointer_event(PointerEvent::PointerMove(self.mouse_state));
    }

    /// Sends a [`PointerDown`](PointerEvent::PointerDown) event to the window.
    pub fn mouse_button_press(&mut self, button: PointerButton)
        ensures
            final(self)@ == old(self)@.button_pressed(button),
    {
        self.mouse_state.buttons.insert(button);
        self.process_pointer_event(PointerEvent::PointerDown(button, self.mouse_state));
    }

    /// Sends a [`PointerUp`](PointerEvent::PointerUp) event to the window.
    pub fn mouse_button_release(&mut self, button: PointerButton)
        ensures
            final(self)@ == old(self)@.button_released(button),
    {
        self.mouse_state.buttons.remove(button);
        self.process_pointer_event(PointerEvent::PointerUp(button, self.mouse_state));
    }

    /// Sends a [`MouseWheel`](PointerEvent::MouseWheel) event to the window.
    pub fn mouse_wheel(&mut self, wheel_delta: Vec2)
        ensures
            final(self)@ == old(self)@.wheel_turned(wheel_delta),
    {
        let pixel_delta = LogicalPosition { x: wheel_delta.x, y: wheel_delta.y };
        self.process_pointer_event(PointerEvent::MouseWheel(pixel_delta, self.mouse_state));
    }

    /// Sends the events of a click on a widget: [`mouse_move_to`](Self::mouse_move_to),
    /// [`mouse_button_press`](Self::mouse_button_press) and
    /// [`mouse_button_release`](Self::mouse_button_release).
    ///
    /// The pointer must be able to reach the widget:
    /// [`RenderRoot::pointer_target_error`] tells whether it is.
    pub fn mouse_click_on(&mut self, id: WidgetId)
        requires
            old(self)@.render_root.pointer_obstacle(id) is None,
        ensures
            final(self)@ == old(self)@.clicked_on(id),
    {
        self.mouse_move_to(id);
        self.mouse_button_press(PointerButton::Primary);
        self.mouse_button_release(PointerButton::Primary);
    }

    /// Moves the pointer to the center of a widget.
    ///
    /// The pointer must be able to reach the widget:
    /// [`RenderRoot::pointer_target_error`] tells whether it is.
    pub fn mouse_move_to(&mut self, id: WidgetId)
        requires
            old(self)@.render_root.pointer_obstacle(id) is None,
        ensures
            final(self)@ == old(self)@.mouse_moved_to(id),
    {
        let center = self.get_widget(id).center;
        self.mouse_move(center);
    }

    /// Sends a [`TextEvent`] for each character of a text, and looks at the
    /// signals of the tree after that.
    pub fn keyboard_type_chars(&mut self, text: &str)
        ensures
            ({
                let before = old(self)@.agenda.len() as int;
                let commits = final(self)@.agenda.subrange(before, before + text@.len());
                &&& are_commits_of(commits, text@)
                &&& final(self)@ == old(self)@.typed(commits)
            }),
            final(self)@.agenda.len() == old(self)@.agenda.len() + text@.len() + 1,
            final(self)@.agenda.last() == Request::PopSignal,
    {
        let length: usize = text.unicode_len();
        let mut i: usize = 0;
        self.handled = None;
        let ghost before = self@.agenda;
        let ghost mut commits = Seq::<Request>::empty();
        while i < length
            invariant
                i <= length,
                length == text@.len(),
                before == old(self)@.agenda,
                commits.len() == i,
                self@ == (HarnessState { handled: None, ..old(self)@ }).scheduled(commits),
                forall|k: int| 0 <= k < i ==> is_commit_of(#[trigger] commits[k], text@[k]),
            decreases length - i,
        {
            let c = text.substring_char(i, i + 1).to_owned();
            let request = Request::Text(TextEvent::Ime(Ime::Commit(c)));
            proof {
                assert(c@ == seq![text@[i as int]]);
                commits = commits.push(request);
            }
            self.agenda.push_back(request);
            i = i + 1;
        }
        self.agenda.push_back(Request::PopSignal);
        proof {
            let start = before.len() as int;
            assert(self@.agenda.subrange(start, start + text@.len()) =~= commits);
        }
    }

    /// Sets the focused widget, or takes the focus from all widgets.
    ///
    /// The widget must be able to have the focus: [`RenderRoot::focus_error`]
    /// tells whether it is.
    pub fn focus_on(&mut self, id: Option<WidgetId>)
        requires
            id matches Some(id) ==> old(self)@.render_root.focus_obstacle(id) is None,
        ensures
            final(self)@ == old(self)@.focused_on(id),
    {
        self.agenda.push_back(Request::SetNextFocusedWidget(id));
        self.agenda.push_back(Request::RunRewritePasses);
        self.agenda.push_back(Request::PopSignal);
    }

    /// Runs an animation pass on the widget tree, for so many milliseconds.
    pub fn animate_ms(&mut self, ms: u64)
        requires
            ms * NANOSECONDS_PER_MILLISECOND <= u64::MAX,
        ensures
            final(self)@ == old(self)@.animated((ms * NANOSECONDS_PER_MILLISECOND) as u64),
    {
        self.agenda.push_back(Request::RunAnimationPass(ms * NANOSECONDS_PER_MILLISECOND));
        self.agenda.push_back(Request::RunRewritePasses);
        self.agenda.push_back(Request::PopSignal);
    }

    /// What the harness last learned of the widget tree.
    pub fn render_root(&self) -> (render_root: &RenderRoot)
        ensures
            *render_root == self@.render_root,
    {
        &self.render_root
    }

    /// The root widget.
    pub fn root_widget(&self) -> (widget: &WidgetNode)
        ensures
            *widget == self@.render_root.root,
    {
        &self.render_root.root
    }

    /// The widget with the given id, which the tree must have.
    pub fn get_widget(&self, id: WidgetId) -> (widget: &WidgetNode)
        requires
            self@.render_root.lookup(id) is Some,
        ensures
            self@.render_root.lookup(id) == Some(*widget),
    {
        match self.try_get_widget(id) {
            Some(widget) => widget,
            None => vstd::pervasive::unreached(),
        }
    }

    /// The widget with the given id, if the tree has it.
    pub fn try_get_widget(&self, id: WidgetId) -> (found: Option<&WidgetNode>)
        ensures
            found matches Some(widget) ==> self@.render_root.lookup(id) == Some(*widget),
            found is None ==> self@.render_root.lookup(id) is None,
    {
        self.render_root.get_widget(id)
    }

    /// The focused widget, if there is one and the tree has it.
    pub fn focused_widget(&self) -> (found: Option<&WidgetNode>)
        ensures
            found matches Some(widget) ==> self@.focused() == Some(*widget),
            found is None ==> self@.focused() is None,
    {
        match self.render_root.focused_widget {
            Some(id) => self.root_widget().find_widget_by_id(id),
            None => None,
        }
    }

    /// The widget that captures pointer events, if there is one and the tree
    /// has it.
    pub fn pointer_capture_target(&self) -> (found: Option<&WidgetNode>)
        ensures
            found matches Some(widget) ==> self@.render_root.target(
                self@.render_root.pointer_capture_target,
            ) == Some(*widget),
            found is None ==> self@.render_root.target(
                self@.render_root.pointer_capture_target,
            ) is None,
    {
        match self.render_root.pointer_capture_target {
            Some(id) => self.render_root.get_widget(id),
            None => None,
        }
    }

    /// The id of the widget that captures pointer events.
    pub fn pointer_capture_target_id(&self) -> (id: Option<WidgetId>)
        ensures
            id == self@.render_root.pointer_capture_target,
    {
        self.render_root.pointer_capture_target
    }

    /// Every widget of the tree, in the order in which a visitor meets them:
    /// each widget before its children, and the children in order.
    pub fn inspect_widgets(&self) -> (widgets: Vec<&WidgetNode>)
        ensures
            unref(widgets@) == self@.render_root.root.preorder(),
    {
        let mut widgets: Vec<&WidgetNode> = Vec::new();
        self.root_widget().visit(&mut widgets);
        widgets
    }

    /// Pops the oldest action emitted by the widget tree.
    pub fn pop_action(&mut self) -> (action: Option<(A, WidgetId)>)
        ensures
            match action {
                Some(action) => {
                    &&& old(self)@.actions.len() > 0
                    &&& action == old(self)@.actions[0]
                    &&& final(self)@ == (HarnessState {
                        actions: old(self)@.actions.drop_first(),
                        ..old(self)@
                    })
                },
                None => old(self)@.actions.len() == 0 && final(self)@ == old(self)@,
            },
    {
        self.action_queue.pop_front()
    }

    /// The app's current cursor icon: the icon that would be displayed to show
    /// where the mouse is.
    pub fn cursor_icon(&self) -> (icon: cursor_icon::CursorIcon)
        ensures
            icon == self@.render_root.cursor_icon,
    {
        self.render_root.cursor_icon
    }

    /// Whether the app has an input method session in progress.
    pub fn has_ime_session(&self) -> (has: bool)
        ensures
            has == self@.has_ime_session,
    {
        self.has_ime_session
    }

    /// The rectangle of the input method session.
    pub fn ime_rect(&self) -> (rect: (LogicalPosition, LogicalSize))
        ensures
            rect == self@.ime_rect,
    {
        self.ime_rect
    }

    /// The size of the simulated window.
    pub fn window_size(&self) -> (size: PhysicalSize)
        ensures
            size == self@.window_size,
    {
        self.window_size
    }

    /// The title of the simulated window.
    pub fn title(&self) -> (title: String)
        ensures
            title@ == self@.title,
    {
        self.title.clone()
    }

    /// Whether a frame of the window can be rendered.
    pub fn can_render(&self) -> (can: bool)
        ensures
            can == RenderTarget::can_hold(self@.window_size.width, self@.window_size.height),
    {
        RenderTarget::fits(self.window_size)
    }

    /// Paints the window and decides how to get a bitmap of it, where `skip` is
    /// the variable that tells whether rendering is left out: a white pixel
    /// stands in for the frame if so.
    pub fn render(&mut self, skip: &Option<String>) -> (step: RenderStep)
        requires
            switched_on(*skip) || RenderTarget::can_hold(
                old(self)@.window_size.width,
                old(self)@.window_size.height,
            ),
        ensures
            final(self)@ == old(self)@.scheduled(seq![Request::Redraw]),
            match step {
                RenderStep::Blank(image) => {
                    &&& switched_on(*skip)
                    &&& image.wf()
                    &&& image.width == 1
                    &&& image.height == 1
                    &&& image.data@ == seq![255u8, 255u8, 255u8, 255u8]
                },
                RenderStep::Draw(target) => {
                    &&& !switched_on(*skip)
                    &&& target.wf()
                    &&& target.width == old(self)@.window_size.width
                    &&& target.height == old(self)@.window_size.height
                    &&& target.base_color == old(self)@.background_color
                },
            },
    {
        self.agenda.push_back(Request::Redraw);
        if is_switched_on(skip) {
            let image = RgbaImage::from_pixel(1, 1, [255, 255, 255, 255]);
            proof {
                assert(image.data@ =~= seq![255u8, 255u8, 255u8, 255u8]);
            }
            RenderStep::Blank(image)
        } else {
            RenderStep::Draw(RenderTarget::new(self.window_size, self.background_color))
        }
    }

    /// Decides what a snapshot test starts with, where `skip` is the variable
    /// that tells whether rendering is left out. If it is, the window is still
    /// painted. How the test ends is decided by
    /// [`SnapshotReport::new`](crate::SnapshotReport::new), when the frame has
    /// been held against the reference.
    ///
    /// * `test_module_path`: import path of the module the test is in.
    /// * `test_name`: the name of the snapshot.
    pub fn check_render_snapshot(
        &mut self,
        test_module_path: &str,
        test_name: &str,
        skip: &Option<String>,
    ) -> (step: SnapshotStep)
        ensures
            match step {
                SnapshotStep::Skip => {
                    &&& switched_on(*skip)
                    &&& final(self)@ == old(self)@.scheduled(seq![Request::Redraw])
                },
                SnapshotStep::Compare(files) => {
                    &&& !switched_on(*skip)
                    &&& final(self)@ == old(self)@
                    &&& files.belong_to(test_module_path@, test_name@)
                },
            },
    {
        if is_switched_on(skip) {
            self.agenda.push_back(Request::Redraw);
            SnapshotStep::Skip
        } else {
            SnapshotStep::Compare(SnapshotFiles::new(test_module_path, test_name))
        }
    }
}

/// Where nothing else is asked for, the window has four hundred pixels in each
/// direction and an opaque background with `41 / 255` of red, green and blue, and
/// is not scaled.
pub proof fn law_defaults()
    ensures
        ({
            let params = TestHarnessParams::defaults();
            &&& params.window_size == TestHarnessParams::default_size()
            &&& params.background_color == TestHarnessParams::default_background_color()
            &&& params.window_size.as_physical() == (PhysicalSize { width: 400, height: 400 })
            &&& params.window_size.width.bits == 0x4079_0000_0000_0000
            &&& params.window_size.height.bits == 0x4079_0000_0000_0000
            &&& params.background_color.red.bits == 0x3e24_a4a5
            &&& params.background_color.green.bits == 0x3e24_a4a5
            &&& params.background_color.blue.bits == 0x3e24_a4a5
            &&& params.background_color.alpha.bits == 0x3f80_0000
            &&& params.scale_factor.bits == 0x3ff0_0000_0000_0000
        }),
{
    lemma_default_side();
}

} // verus!
