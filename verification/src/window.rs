use vstd::prelude::*;
use crate::color::{NO_COLOR, background_spec, background_color};
use crate::event::NativeWidgetEvent;
use crate::geometry::{Bounds, in_i32};
use crate::theme::WidgetTheme;

verus! {

// Window messages the widget handles (values of the Win32 ABI).
pub const WM_DESTROY: u32 = 0x0002;
pub const WM_PAINT: u32 = 0x000F;
pub const WM_CLOSE: u32 = 0x0010;
pub const WM_ERASEBKGND: u32 = 0x0014;
pub const WM_SETTINGCHANGE: u32 = 0x001A;
pub const WM_MOUSEACTIVATE: u32 = 0x0021;
pub const WM_CONTEXTMENU: u32 = 0x007B;
pub const WM_DISPLAYCHANGE: u32 = 0x007E;
pub const WM_NCCREATE: u32 = 0x0081;
pub const WM_NCDESTROY: u32 = 0x0082;
pub const WM_NCHITTEST: u32 = 0x0084;
pub const WM_TIMER: u32 = 0x0113;
pub const WM_MOUSEMOVE: u32 = 0x0200;
pub const WM_LBUTTONDOWN: u32 = 0x0201;
pub const WM_LBUTTONUP: u32 = 0x0202;
pub const WM_RBUTTONUP: u32 = 0x0205;
pub const WM_DPICHANGED: u32 = 0x02E0;
pub const WM_DWMCOMPOSITIONCHANGED: u32 = 0x031E;
pub const WM_APP: u32 = 0x8000;

/// The widget's private messages, posted by the controller to the window thread.
pub const MSG_REFRESH: u32 = 0x8001;
pub const MSG_SHOW_TASKBAR: u32 = 0x8002;
pub const MSG_HIDE_WIDGET: u32 = 0x8003;
pub const MSG_SHUTDOWN: u32 = 0x8004;

/// Hit-test answer: the whole window is client area.
pub const HTCLIENT: isize = 1;
/// Mouse-activation answer: do not activate the window.
pub const MA_NOACTIVATE: isize = 3;

/// The identifier of the timer that keeps the widget on the taskbar.
pub const POSITION_TIMER_ID: usize = 1;
/// How often that timer fires, in milliseconds.
pub const POSITION_TIMER_MS: u32 = 100;
/// The widget's design size in logical pixels.
pub const LOGICAL_WIDTH: i32 = 248;
pub const LOGICAL_HEIGHT: i32 = 48;
/// How far the pointer must move while pressed before a press counts as a drag.
pub const DRAG_THRESHOLD: i32 = 4;
/// How long after an interaction a lost focus does not close the detail panel.
pub const BLUR_GRACE_MS: u64 = 350;

// Window style bits (Win32 ABI).
pub const WS_POPUP: u32 = 0x8000_0000;
pub const WS_CHILD: u32 = 0x4000_0000;
pub const WS_VISIBLE: u32 = 0x1000_0000;
pub const WS_EX_LAYERED: u32 = 0x0008_0000;

/// What a window message means to the widget.
#[derive(Clone, Copy, Debug, PartialEq, Eq, Structural)]
pub enum MessageKind {
    TaskbarCreated,
    Paint,
    EraseBackground,
    HitTest,
    MouseActivate,
    LeftButtonDown,
    MouseMove,
    LeftButtonUp,
    ContextMenu,
    CompositionChanged,
    DpiChanged,
    DisplayChanged,
    PositionTimer,
    Refresh,
    ShowTaskbar,
    HideWidget,
    Close,
    Destroy,
    NcDestroy,
    Other,
}

/// The meaning of a raw message. `taskbar_created` is the registered
/// "TaskbarCreated" message (0 when registration failed); it is checked first.
pub open spec fn classify_spec(message: u32, wparam: usize, taskbar_created: u32) -> MessageKind {
    if message == taskbar_created && taskbar_created != 0 {
        MessageKind::TaskbarCreated
    } else if message == WM_PAINT {
        MessageKind::Paint
    } else if message == WM_ERASEBKGND {
        MessageKind::EraseBackground
    } else if message == WM_NCHITTEST {
        MessageKind::HitTest
    } else if message == WM_MOUSEACTIVATE {
        MessageKind::MouseActivate
    } else if message == WM_LBUTTONDOWN {
        MessageKind::LeftButtonDown
    } else if message == WM_MOUSEMOVE {
        MessageKind::MouseMove
    } else if message == WM_LBUTTONUP {
        MessageKind::LeftButtonUp
    } else if message == WM_CONTEXTMENU || message == WM_RBUTTONUP {
        MessageKind::ContextMenu
    } else if message == WM_DWMCOMPOSITIONCHANGED {
        MessageKind::CompositionChanged
    } else if message == WM_DPICHANGED {
        MessageKind::DpiChanged
    } else if message == WM_DISPLAYCHANGE || message == WM_SETTINGCHANGE {
        MessageKind::DisplayChanged
    } else if message == WM_TIMER && wparam == POSITION_TIMER_ID {
        MessageKind::PositionTimer
    } else if message == MSG_REFRESH {
        MessageKind::Refresh
    } else if message == MSG_SHOW_TASKBAR {
        MessageKind::ShowTaskbar
    } else if message == MSG_HIDE_WIDGET {
        MessageKind::HideWidget
    } else if message == MSG_SHUTDOWN || message == WM_CLOSE {
        MessageKind::Close
    } else if message == WM_DESTROY {
        MessageKind::Destroy
    } else if message == WM_NCDESTROY {
        MessageKind::NcDestroy
    } else {
        MessageKind::Other
    }
}

/// Each Win32 message the widget handles, by its ABI value, and the kind it has
/// (when it is not also the registered TaskbarCreated message); every other
/// message is `Other`.
pub open spec fn handled_kind(message: u32, wparam: usize, kind: MessageKind) -> bool {
    &&& message == 0x000F ==> kind == MessageKind::Paint
    &&& message == 0x0014 ==> kind == MessageKind::EraseBackground
    &&& message == 0x0084 ==> kind == MessageKind::HitTest
    &&& message == 0x0021 ==> kind == MessageKind::MouseActivate
    &&& message == 0x0201 ==> kind == MessageKind::LeftButtonDown
    &&& message == 0x0200 ==> kind == MessageKind::MouseMove
    &&& message == 0x0202 ==> kind == MessageKind::LeftButtonUp
    &&& (message == 0x007B || message == 0x0205) ==> kind == MessageKind::ContextMenu
    &&& message == 0x031E ==> kind == MessageKind::CompositionChanged
    &&& message == 0x02E0 ==> kind == MessageKind::DpiChanged
    &&& (message == 0x007E || message == 0x001A) ==> kind == MessageKind::DisplayChanged
    &&& (message == 0x0113 && wparam == 1) ==> kind == MessageKind::PositionTimer
    &&& (message == 0x0113 && wparam != 1) ==> kind == MessageKind::Other
    &&& message == 0x8001 ==> kind == MessageKind::Refresh
    &&& message == 0x8002 ==> kind == MessageKind::ShowTaskbar
    &&& message == 0x8003 ==> kind == MessageKind::HideWidget
    &&& (message == 0x8004 || message == 0x0010) ==> kind == MessageKind::Close
    &&& message == 0x0002 ==> kind == MessageKind::Destroy
    &&& message == 0x0082 ==> kind == MessageKind::NcDestroy
    &&& message == 0x0081 ==> kind == MessageKind::Other
    &&& !(message == 0x000F || message == 0x0014 || message == 0x0084 || message == 0x0021 || message
        == 0x0201 || message == 0x0200 || message == 0x0202 || message == 0x007B || message == 0x0205
        || message == 0x031E || message == 0x02E0 || message == 0x007E || message == 0x001A || message
        == 0x0113 || message == 0x8001 || message == 0x8002 || message == 0x8003 || message == 0x8004
        || message == 0x0010 || message == 0x0002 || message == 0x0082) ==> kind == MessageKind::Other
}

/// Classifies a raw window message.
pub fn classify_message(message: u32, wparam: usize, taskbar_created: u32) -> (kind: MessageKind)
    ensures
        kind == classify_spec(message, wparam, taskbar_created),
        message != taskbar_created || taskbar_created == 0 ==> handled_kind(message, wparam, kind),
{
    if message == taskbar_created && taskbar_created != 0 {
        MessageKind::TaskbarCreated
    } else if message == WM_PAINT {
        MessageKind::Paint
    } else if message == WM_ERASEBKGND {
        MessageKind::EraseBackground
    } else if message == WM_NCHITTEST {
        MessageKind::HitTest
    } else if message == WM_MOUSEACTIVATE {
        MessageKind::MouseActivate
    } else if message == WM_LBUTTONDOWN {
        MessageKind::LeftButtonDown
    } else if message == WM_MOUSEMOVE {
        MessageKind::MouseMove
    } else if message == WM_LBUTTONUP {
        MessageKind::LeftButtonUp
    } else if message == WM_CONTEXTMENU || message == WM_RBUTTONUP {
        MessageKind::ContextMenu
    } else if message == WM_DWMCOMPOSITIONCHANGED {
        MessageKind::CompositionChanged
    } else if message == WM_DPICHANGED {
        MessageKind::DpiChanged
    } else if message == WM_DISPLAYCHANGE || message == WM_SETTINGCHANGE {
        MessageKind::DisplayChanged
    } else if message == WM_TIMER && wparam == POSITION_TIMER_ID {
        MessageKind::PositionTimer
    } else if message == MSG_REFRESH {
        MessageKind::Refresh
    } else if message == MSG_SHOW_TASKBAR {
        MessageKind::ShowTaskbar
    } else if message == MSG_HIDE_WIDGET {
        MessageKind::HideWidget
    } else if message == MSG_SHUTDOWN || message == WM_CLOSE {
        MessageKind::Close
    } else if message == WM_DESTROY {
        MessageKind::Destroy
    } else if message == WM_NCDESTROY {
        MessageKind::NcDestroy
    } else {
        MessageKind::Other
    }
}

/// What the window procedure does, in order, for a message.
#[derive(Clone, Debug, PartialEq, Eq)]
pub enum WindowAction {
    /// Re-attach to the nearest taskbar and re-place the widget on it.
    Reposition,
    /// Paint the widget.
    Paint,
    /// Mark the widget for repainting.
    Invalidate,
    /// Capture the mouse.
    CaptureMouse,
    /// Release the mouse capture.
    ReleaseMouse,
    /// Send an event to the application.
    Emit(NativeWidgetEvent),
    /// Open the context menu.
    ShowContextMenu,
    /// Recreate the layered surface.
    ResetLayer,
    /// Hide the window.
    HideWindow,
    /// Destroy the window.
    DestroyWindow,
    /// End the window thread's message loop.
    PostQuit,
    /// Detach the shared state from the window that is going away.
    ForgetWindow,
}

/// What the window procedure returns.
#[derive(Clone, Copy, Debug, PartialEq, Eq, Structural)]
pub enum MessageResult {
    Handled(isize),
    /// Whatever the default window procedure returns.
    Default,
}

/// The reaction to one message.
#[derive(Clone, Debug, PartialEq, Eq)]
pub struct Reaction {
    pub actions: Vec<WindowAction>,
    pub result: MessageResult,
}

/// What the window thread read from the system for the message being handled:
/// the time, the pointer position and the window's rectangle, each `None` when
/// the read failed.
#[derive(Clone, Copy, Debug, PartialEq, Eq)]
pub struct MessageInput {
    pub now_ms: u64,
    pub cursor: Option<(i32, i32)>,
    pub window: Option<Bounds>,
}

/// The figures the widget shows, as the controller last received them.
/// Percentages are whole numbers, rounded by the caller.
#[derive(Clone, Debug, PartialEq, Eq)]
pub struct WidgetModel {
    pub codex_remaining: Option<i64>,
    pub resets_at: Option<String>,
    pub cpu_percent: Option<i64>,
    pub memory_percent: Option<i64>,
    pub detail_visible: bool,
    pub theme: WidgetTheme,
    pub autostart_enabled: bool,
}

/// A press of the left button and whether it turned into a drag.
#[derive(Clone, Copy, Debug, PartialEq, Eq, Structural)]
pub struct DragState {
    pub pressed: bool,
    pub moved: bool,
    pub start_x: i32,
    pub start_y: i32,
    pub start_window: Bounds,
}

/// The state shared by the controller and the window thread.
#[derive(Clone, Debug, PartialEq, Eq)]
pub struct WidgetState {
    /// The window's handle, 0 while there is no window.
    pub hwnd: isize,
    /// The user's choice to show the widget.
    pub visible: bool,
    pub shutting_down: bool,
    pub menu_open: bool,
    pub last_interaction_ms: u64,
    pub timer_ticks: u32,
    /// The last sampled taskbar colour, `NO_COLOR` while there is none.
    pub taskbar_color: u32,
    pub dock_available: bool,
    pub last_bounds: Option<Bounds>,
    pub model: WidgetModel,
    pub drag: DragState,
}

pub open spec fn initial_model() -> WidgetModel {
    WidgetModel {
        codex_remaining: None,
        resets_at: None,
        cpu_percent: None,
        memory_percent: None,
        detail_visible: false,
        theme: WidgetTheme::Dark,
        autostart_enabled: false,
    }
}

pub open spec fn initial_drag() -> DragState {
    DragState {
        pressed: false,
        moved: false,
        start_x: 0,
        start_y: 0,
        start_window: Bounds { left: 0, top: 0, right: 0, bottom: 0 },
    }
}

/// A started widget: shown, no window yet, nothing known.
pub open spec fn initial_state_spec() -> WidgetState {
    WidgetState {
        hwnd: 0,
        visible: true,
        shutting_down: false,
        menu_open: false,
        last_interaction_ms: 0,
        timer_ticks: 0,
        taskbar_color: NO_COLOR,
        dock_available: true,
        last_bounds: None,
        model: initial_model(),
        drag: initial_drag(),
    }
}

/// Whether a drag, started at `(sx, sy)` with the pointer now at `(x, y)`, has moved far enough.
pub open spec fn moved_beyond_threshold(sx: int, sy: int, x: int, y: int) -> bool {
    let dx = x - sx;
    let dy = y - sy;
    (dx > DRAG_THRESHOLD || -dx > DRAG_THRESHOLD) || (dy > DRAG_THRESHOLD || -dy > DRAG_THRESHOLD)
}

/// The pointer arithmetic of a drag stays within `i32` (the offsets and their
/// absolute values).
pub open spec fn drag_fits(sx: int, sy: int, x: int, y: int) -> bool {
    &&& in_i32(x - sx) && x - sx != i32::MIN
    &&& in_i32(y - sy) && y - sy != i32::MIN
}

/// What a message handler computes is defined for this state and input.
pub open spec fn react_defined(s: WidgetState, kind: MessageKind, input: MessageInput) -> bool {
    match input.cursor {
        Some(c) => kind == MessageKind::MouseMove && s.drag.pressed ==> drag_fits(
            s.drag.start_x as int,
            s.drag.start_y as int,
            c.0 as int,
            c.1 as int,
        ),
        None => true,
    }
}

pub open spec fn tick_actions(visible: bool, tick: u32) -> Seq<WindowAction> {
    let first: Seq<WindowAction> = if visible { seq![WindowAction::Reposition] } else { Seq::empty() };
    if tick % 10 == 0 {
        first.push(WindowAction::Invalidate)
    } else {
        first
    }
}

/// The window procedure for a message while the widget's state is attached to
/// the window: the next state, the actions in order and the return value.
pub open spec fn react_spec(s: WidgetState, kind: MessageKind, input: MessageInput) -> (WidgetState, Seq<WindowAction>, MessageResult) {
    match kind {
        MessageKind::TaskbarCreated => (s, seq![WindowAction::Reposition], MessageResult::Handled(0)),
        MessageKind::Paint => (s, seq![WindowAction::Paint], MessageResult::Handled(0)),
        MessageKind::EraseBackground => (s, Seq::empty(), MessageResult::Handled(1)),
        MessageKind::HitTest => (s, Seq::empty(), MessageResult::Handled(HTCLIENT)),
        MessageKind::MouseActivate => (s, Seq::empty(), MessageResult::Handled(MA_NOACTIVATE)),
        MessageKind::LeftButtonDown => {
            let d = s.drag;
            let (sx, sy) = match input.cursor {
                Some(c) => c,
                None => (d.start_x, d.start_y),
            };
            let sw = match input.window {
                Some(w) => w,
                None => d.start_window,
            };
            let drag = DragState { pressed: true, moved: false, start_x: sx, start_y: sy, start_window: sw };
            (
                WidgetState { last_interaction_ms: input.now_ms, drag, ..s },
                seq![WindowAction::CaptureMouse],
                MessageResult::Handled(0),
            )
        },
        MessageKind::MouseMove => {
            let d = s.drag;
            let moved_now = match input.cursor {
                Some(c) => d.pressed && moved_beyond_threshold(d.start_x as int, d.start_y as int, c.0 as int, c.1 as int),
                None => false,
            };
            let drag = DragState { moved: d.moved || moved_now, ..d };
            (WidgetState { drag, ..s }, Seq::empty(), MessageResult::Handled(0))
        },
        MessageKind::LeftButtonUp => {
            let d = s.drag;
            let actions = if d.moved {
                seq![WindowAction::ReleaseMouse]
            } else {
                seq![WindowAction::ReleaseMouse, WindowAction::Emit(NativeWidgetEvent::ToggleDetail)]
            };
            (
                WidgetState { last_interaction_ms: input.now_ms, drag: DragState { pressed: false, ..d }, ..s },
                actions,
                MessageResult::Handled(0),
            )
        },
        MessageKind::ContextMenu => (
            WidgetState { last_interaction_ms: input.now_ms, ..s },
            seq![WindowAction::ShowContextMenu],
            MessageResult::Handled(0),
        ),
        MessageKind::CompositionChanged => (
            s,
            seq![WindowAction::ResetLayer, WindowAction::Invalidate],
            MessageResult::Handled(0),
        ),
        MessageKind::DpiChanged => (s, seq![WindowAction::Invalidate], MessageResult::Handled(0)),
        MessageKind::DisplayChanged => (
            s,
            seq![WindowAction::Reposition, WindowAction::Invalidate],
            MessageResult::Handled(0),
        ),
        MessageKind::PositionTimer => {
            let tick = (s.timer_ticks as int + 1) % 0x1_0000_0000;
            (
                WidgetState { timer_ticks: tick as u32, ..s },
                tick_actions(s.visible, tick as u32),
                MessageResult::Handled(0),
            )
        },
        MessageKind::Refresh => (s, seq![WindowAction::Invalidate], MessageResult::Handled(0)),
        MessageKind::ShowTaskbar => (
            WidgetState { visible: true, ..s },
            seq![WindowAction::Reposition, WindowAction::Invalidate],
            MessageResult::Handled(0),
        ),
        MessageKind::HideWidget => (
            WidgetState { visible: false, ..s },
            seq![WindowAction::HideWindow],
            MessageResult::Handled(0),
        ),
        MessageKind::Close => (
            WidgetState { shutting_down: true, ..s },
            seq![WindowAction::DestroyWindow, WindowAction::PostQuit],
            MessageResult::Handled(0),
        ),
        MessageKind::Destroy => (s, Seq::empty(), MessageResult::Handled(0)),
        MessageKind::NcDestroy => (
            WidgetState { hwnd: 0, ..s },
            seq![WindowAction::ForgetWindow],
            MessageResult::Default,
        ),
        MessageKind::Other => (s, Seq::empty(), MessageResult::Default),
    }
}

/// The window procedure for a message while no state is attached to the window
/// (before creation completes or after it was forgotten).
pub open spec fn detached_spec(kind: MessageKind) -> (Seq<WindowAction>, MessageResult) {
    match kind {
        MessageKind::EraseBackground => (Seq::empty(), MessageResult::Handled(1)),
        MessageKind::HitTest => (Seq::empty(), MessageResult::Handled(HTCLIENT)),
        MessageKind::MouseActivate => (Seq::empty(), MessageResult::Handled(MA_NOACTIVATE)),
        MessageKind::LeftButtonUp => (seq![WindowAction::ReleaseMouse], MessageResult::Handled(0)),
        MessageKind::CompositionChanged => (
            seq![WindowAction::ResetLayer, WindowAction::Invalidate],
            MessageResult::Handled(0),
        ),
        MessageKind::DpiChanged => (seq![WindowAction::Invalidate], MessageResult::Handled(0)),
        MessageKind::Refresh => (seq![WindowAction::Invalidate], MessageResult::Handled(0)),
        MessageKind::HideWidget => (seq![WindowAction::HideWindow], MessageResult::Handled(0)),
        MessageKind::Close => (
            seq![WindowAction::DestroyWindow, WindowAction::PostQuit],
            MessageResult::Handled(0),
        ),
        MessageKind::NcDestroy => (seq![WindowAction::ForgetWindow], MessageResult::Default),
        MessageKind::Other => (Seq::empty(), MessageResult::Default),
        _ => (Seq::empty(), MessageResult::Handled(0)),
    }
}

/// How the window procedure reacts when no state is attached to the window.
pub fn react_detached(kind: MessageKind) -> (r: Reaction)
    ensures
        r.actions@ == detached_spec(kind).0,
        r.result == detached_spec(kind).1,
{
    let mut actions: Vec<WindowAction> = Vec::new();
    let result = match kind {
        MessageKind::EraseBackground => MessageResult::Handled(1),
        MessageKind::HitTest => MessageResult::Handled(HTCLIENT),
        MessageKind::MouseActivate => MessageResult::Handled(MA_NOACTIVATE),
        MessageKind::LeftButtonUp => {
            actions.push(WindowAction::ReleaseMouse);
            MessageResult::Handled(0)
        },
        MessageKind::CompositionChanged => {
            actions.push(WindowAction::ResetLayer);
            actions.push(WindowAction::Invalidate);
            MessageResult::Handled(0)
        },
        MessageKind::DpiChanged | MessageKind::Refresh => {
            actions.push(WindowAction::Invalidate);
            MessageResult::Handled(0)
        },
        MessageKind::HideWidget => {
            actions.push(WindowAction::HideWindow);
            MessageResult::Handled(0)
        },
        MessageKind::Close => {
            actions.push(WindowAction::DestroyWindow);
            actions.push(WindowAction::PostQuit);
            MessageResult::Handled(0)
        },
        MessageKind::NcDestroy => {
            actions.push(WindowAction::ForgetWindow);
            MessageResult::Default
        },
        MessageKind::Other => MessageResult::Default,
        _ => MessageResult::Handled(0),
    };
    assert(actions@ =~= detached_spec(kind).0);
    Reaction { actions, result }
}

/// What the window thread does when its recovery timer fires.
#[derive(Clone, Copy, Debug, PartialEq, Eq, Structural)]
pub enum TimerStep {
    /// No window and no taskbar to put one on: wait for the next tick.
    Wait,
    /// No window: create one, then handle the tick on it.
    CreateThenTick,
    /// Handle the tick on the existing window.
    Tick,
}

pub open spec fn timer_step_spec(has_window: bool, taskbar_count: nat) -> TimerStep {
    if has_window {
        TimerStep::Tick
    } else if taskbar_count == 0 {
        TimerStep::Wait
    } else {
        TimerStep::CreateThenTick
    }
}

/// The thread timer's decision: a window destroyed with Explorer's taskbar is
/// recreated once a taskbar exists again.
pub fn thread_timer_step(has_window: bool, taskbar_count: usize) -> (step: TimerStep)
    ensures
        step == timer_step_spec(has_window, taskbar_count as nat),
{
    if has_window {
        TimerStep::Tick
    } else if taskbar_count == 0 {
        TimerStep::Wait
    } else {
        TimerStep::CreateThenTick
    }
}

/// The style a window gets when it is attached to a parent: a child, no longer a popup.
pub open spec fn child_style_spec(style: u32) -> u32 {
    (style & !WS_POPUP) | WS_CHILD
}

/// The style that attaching a window to a parent gives it.
pub fn child_style(style: u32) -> (s: u32)
    ensures
        s == child_style_spec(style),
{
    (style & !WS_POPUP) | WS_CHILD
}

/// Attaching makes the window a child and not a popup, and keeps every other style bit.
pub proof fn lemma_child_style(style: u32)
    ensures
        child_style_spec(style) & WS_CHILD == WS_CHILD,
        child_style_spec(style) & WS_POPUP == 0,
        child_style_spec(style) & !(WS_CHILD | WS_POPUP) == style & !(WS_CHILD | WS_POPUP),
{
    assert((((style & !0x8000_0000u32) | 0x4000_0000u32) & 0x4000_0000u32) == 0x4000_0000u32) by (bit_vector);
    assert((((style & !0x8000_0000u32) | 0x4000_0000u32) & 0x8000_0000u32) == 0) by (bit_vector);
    assert((((style & !0x8000_0000u32) | 0x4000_0000u32) & !(0x4000_0000u32 | 0x8000_0000u32)) == (style
        & !(0x4000_0000u32 | 0x8000_0000u32))) by (bit_vector);
}

/// The extended style with the layered bit cleared, then set; the surface is
/// recreated by clearing and setting it again.
pub fn layered_styles(ex_style: u32) -> (s: (u32, u32))
    ensures
        s.0 == ex_style & !WS_EX_LAYERED,
        s.1 == ex_style | WS_EX_LAYERED,
        s.0 & WS_EX_LAYERED == 0,
        s.1 & WS_EX_LAYERED == WS_EX_LAYERED,
{
    let cleared = ex_style & !WS_EX_LAYERED;
    let set = ex_style | WS_EX_LAYERED;
    assert((ex_style & !0x0008_0000u32) & 0x0008_0000u32 == 0) by (bit_vector);
    assert((ex_style | 0x0008_0000u32) & 0x0008_0000u32 == 0x0008_0000u32) by (bit_vector);
    (cleared, set)
}

/// Whether an extended style has the layered bit.
pub fn is_layered(ex_style: u32) -> (b: bool)
    ensures
        b == (ex_style & WS_EX_LAYERED != 0),
{
    ex_style & WS_EX_LAYERED != 0
}

/// The point just beyond the widget's top-right corner where the taskbar's
/// colour is sampled; `None` when it leaves the coordinate range.
pub fn background_sample_point(window: Bounds) -> (p: Option<(i32, i32)>)
    ensures
        p is Some <==> (window.right as int + 2 <= i32::MAX && window.top as int + 2 <= i32::MAX),
        p matches Some(q) ==> q.0 == window.right + 2 && q.1 == window.top + 2,
{
    if window.right > i32::MAX - 2 || window.top > i32::MAX - 2 {
        None
    } else {
        Some((window.right + 2, window.top + 2))
    }
}

/// The message the controller posts to the window, if there is a window.
pub open spec fn post_spec(hwnd: isize, message: u32) -> Option<u32> {
    if hwnd != 0 {
        Some(message)
    } else {
        None
    }
}

/// What happened in the procedure that docks the widget onto a taskbar.
#[derive(Clone, Copy, Debug, PartialEq, Eq, Structural)]
pub enum DockEvent {
    /// Explorer has no taskbar.
    TaskbarsMissing,
    /// Making the widget a child of the nearest taskbar failed.
    AttachFailed,
    /// Recreating the layered surface after attaching failed.
    LayerResetFailed,
    /// The widget is a child of the taskbar (`parent_changed` when it was
    /// attached just now) and should occupy `desired`, in screen coordinates.
    Docked { parent_changed: bool, desired: Bounds },
    /// Converting to the taskbar's coordinates or moving the window failed.
    MoveFailed,
    /// The widget stands where it should; `style` is its window style.
    Placed { style: u32 },
}

/// What the docking procedure does next.
#[derive(Clone, Copy, Debug, PartialEq, Eq, Structural)]
pub enum DockReply {
    /// Hide the window and stop; `report` when the failure is worth logging.
    Hide { report: bool },
    /// Move the window to the placement first when `move_window`, then go on;
    /// `recovered` when docking works again after it had failed.
    Place { move_window: bool, recovered: bool },
    /// Show the window when `show`; the procedure ends.
    Finish { show: bool },
}

/// The docking procedure's decisions: a missing taskbar or a failed attach
/// hides the widget and marks docking unavailable, reported only when it was
/// available until then; a failed layer reset hides the widget and is always
/// reported; a successful dock marks docking available again and moves the
/// window when it was just attached or its placement differs from the last one
/// recorded; a failed move hides the widget and forgets the placement, so the
/// next dock moves it again; at the end the window is shown when the user wants
/// it and its own visible bit is clear (the parent's visibility is not
/// consulted, so a hidden or covered taskbar keeps the widget hidden).
pub open spec fn dock_step_spec(s: WidgetState, event: DockEvent) -> (WidgetState, DockReply) {
    match event {
        DockEvent::TaskbarsMissing | DockEvent::AttachFailed => (
            WidgetState { dock_available: false, ..s },
            DockReply::Hide { report: s.dock_available },
        ),
        DockEvent::LayerResetFailed => (s, DockReply::Hide { report: true }),
        DockEvent::Docked { parent_changed, desired } => (
            WidgetState { dock_available: true, last_bounds: Some(desired), ..s },
            DockReply::Place {
                move_window: parent_changed || s.last_bounds != Some(desired),
                recovered: !s.dock_available,
            },
        ),
        DockEvent::MoveFailed => (WidgetState { last_bounds: None, ..s }, DockReply::Hide { report: false }),
        DockEvent::Placed { style } => (
            s,
            DockReply::Finish { show: s.visible && style & WS_VISIBLE == 0 },
        ),
    }
}

/// Losing focus does not close the detail panel while the menu is open or
/// within `BLUR_GRACE_MS` of the last interaction (time going backwards counts as 0).
pub open spec fn blur_suppressed_spec(s: WidgetState, now_ms: u64) -> bool {
    s.menu_open || (if now_ms >= s.last_interaction_ms {
        now_ms - s.last_interaction_ms
    } else {
        0
    }) < BLUR_GRACE_MS
}

impl WidgetState {
    /// A freshly started widget.
    pub fn new() -> (s: Self)
        ensures
            s == initial_state_spec(),
    {
        WidgetState {
            hwnd: 0,
            visible: true,
            shutting_down: false,
            menu_open: false,
            last_interaction_ms: 0,
            timer_ticks: 0,
            taskbar_color: NO_COLOR,
            dock_available: true,
            last_bounds: None,
            model: WidgetModel {
                codex_remaining: None,
                resets_at: None,
                cpu_percent: None,
                memory_percent: None,
                detail_visible: false,
                theme: WidgetTheme::Dark,
                autostart_enabled: false,
            },
            drag: DragState {
                pressed: false,
                moved: false,
                start_x: 0,
                start_y: 0,
                start_window: Bounds { left: 0, top: 0, right: 0, bottom: 0 },
            },
        }
    }

    fn post(&self, message: u32) -> (m: Option<u32>)
        ensures
            m == post_spec(self.hwnd, message),
    {
        if self.hwnd != 0 {
            Some(message)
        } else {
            None
        }
    }

    /// Whether `react` is defined for this message and input.
    pub fn can_react(&self, kind: MessageKind, input: MessageInput) -> (ok: bool)
        ensures
            ok == react_defined(*self, kind, input),
    {
        match (kind, input.cursor) {
            (MessageKind::MouseMove, Some(c)) => {
                if !self.drag.pressed {
                    return true;
                }
                let dx: i64 = c.0 as i64 - self.drag.start_x as i64;
                let dy: i64 = c.1 as i64 - self.drag.start_y as i64;
                dx > i32::MIN as i64 && dx <= i32::MAX as i64 && dy > i32::MIN as i64 && dy
                    <= i32::MAX as i64
            },
            _ => true,
        }
    }

    /// The window procedure's decisions for a message while this state is
    /// attached to the window.
    pub fn react(&mut self, kind: MessageKind, input: MessageInput) -> (r: Reaction)
        requires
            react_defined(*old(self), kind, input),
        ensures
            *final(self) == react_spec(*old(self), kind, input).0,
            r.actions@ == react_spec(*old(self), kind, input).1,
            r.result == react_spec(*old(self), kind, input).2,
    {
        let mut actions: Vec<WindowAction> = Vec::new();
        let result = match kind {
            MessageKind::TaskbarCreated => {
                actions.push(WindowAction::Reposition);
                MessageResult::Handled(0)
            },
            MessageKind::Paint => {
                actions.push(WindowAction::Paint);
                MessageResult::Handled(0)
            },
            MessageKind::EraseBackground => MessageResult::Handled(1),
            MessageKind::HitTest => MessageResult::Handled(HTCLIENT),
            MessageKind::MouseActivate => MessageResult::Handled(MA_NOACTIVATE),
            MessageKind::LeftButtonDown => {
                self.last_interaction_ms = input.now_ms;
                self.drag.pressed = true;
                self.drag.moved = false;
                if let Some(c) = input.cursor {
                    self.drag.start_x = c.0;
                    self.drag.start_y = c.1;
                }
                if let Some(w) = input.window {
                    self.drag.start_window = w;
                }
                actions.push(WindowAction::CaptureMouse);
                MessageResult::Handled(0)
            },
            MessageKind::MouseMove => {
                if self.drag.pressed {
                    if let Some(c) = input.cursor {
                        let dx: i32 = c.0 - self.drag.start_x;
                        let dy: i32 = c.1 - self.drag.start_y;
                        let adx: i32 = if dx < 0 { -dx } else { dx };
                        let ady: i32 = if dy < 0 { -dy } else { dy };
                        if adx > DRAG_THRESHOLD || ady > DRAG_THRESHOLD {
                            self.drag.moved = true;
                        }
                    }
                }
                MessageResult::Handled(0)
            },
            MessageKind::LeftButtonUp => {
                actions.push(WindowAction::ReleaseMouse);
                self.last_interaction_ms = input.now_ms;
                let moved = self.drag.moved;
                self.drag.pressed = false;
                if !moved {
                    actions.push(WindowAction::Emit(NativeWidgetEvent::ToggleDetail));
                }
                MessageResult::Handled(0)
            },
            MessageKind::ContextMenu => {
                self.last_interaction_ms = input.now_ms;
                actions.push(WindowAction::ShowContextMenu);
                MessageResult::Handled(0)
            },
            MessageKind::CompositionChanged => {
                actions.push(WindowAction::ResetLayer);
                actions.push(WindowAction::Invalidate);
                MessageResult::Handled(0)
            },
            MessageKind::DpiChanged => {
                actions.push(WindowAction::Invalidate);
                MessageResult::Handled(0)
            },
            MessageKind::DisplayChanged => {
                actions.push(WindowAction::Reposition);
                actions.push(WindowAction::Invalidate);
                MessageResult::Handled(0)
            },
            MessageKind::PositionTimer => {
                let tick = self.timer_ticks.wrapping_add(1);
                self.timer_ticks = tick;
                if self.visible {
                    actions.push(WindowAction::Reposition);
                }
                if tick % 10 == 0 {
                    actions.push(WindowAction::Invalidate);
                }
                MessageResult::Handled(0)
            },
            MessageKind::Refresh => {
                actions.push(WindowAction::Invalidate);
                MessageResult::Handled(0)
            },
            MessageKind::ShowTaskbar => {
                self.visible = true;
                actions.push(WindowAction::Reposition);
                actions.push(WindowAction::Invalidate);
                MessageResult::Handled(0)
            },
            MessageKind::HideWidget => {
                self.visible = false;
                actions.push(WindowAction::HideWindow);
                MessageResult::Handled(0)
            },
            MessageKind::Close => {
                self.shutting_down = true;
                actions.push(WindowAction::DestroyWindow);
                actions.push(WindowAction::PostQuit);
                MessageResult::Handled(0)
            },
            MessageKind::Destroy => MessageResult::Handled(0),
            MessageKind::NcDestroy => {
                self.hwnd = 0;
                actions.push(WindowAction::ForgetWindow);
                MessageResult::Default
            },
            MessageKind::Other => MessageResult::Default,
        };
        assert(actions@ =~= react_spec(*old(self), kind, input).1);
        Reaction { actions, result }
    }

    /// Records a user interaction at `now_ms`.
    pub fn record_interaction(&mut self, now_ms: u64)
        ensures
            *final(self) == (WidgetState { last_interaction_ms: now_ms, ..*old(self) }),
    {
        self.last_interaction_ms = now_ms;
    }

    /// The context menu opened.
    pub fn menu_opened(&mut self)
        ensures
            *final(self) == (WidgetState { menu_open: true, ..*old(self) }),
    {
        self.menu_open = true;
    }

    /// The context menu closed at `now_ms`; closing counts as an interaction.
    pub fn menu_closed(&mut self, now_ms: u64)
        ensures
            *final(self) == (WidgetState { menu_open: false, last_interaction_ms: now_ms, ..*old(self) }),
    {
        self.menu_open = false;
        self.last_interaction_ms = now_ms;
    }

    /// Whether losing focus right now must not close the detail panel: while the
    /// context menu is open, and within `BLUR_GRACE_MS` of the last interaction.
    pub fn should_suppress_detail_blur(&self, now_ms: u64) -> (b: bool)
        ensures
            b == blur_suppressed_spec(*self, now_ms),
    {
        if self.menu_open {
            return true;
        }
        now_ms.saturating_sub(self.last_interaction_ms) < BLUR_GRACE_MS
    }

    /// New Codex figures; the window is asked to repaint.
    pub fn update_codex(&mut self, remaining: Option<i64>, resets_at: Option<String>) -> (post: Option<u32>)
        ensures
            *final(self) == (WidgetState {
                model: WidgetModel { codex_remaining: remaining, resets_at: resets_at, ..old(self).model },
                ..*old(self)
            }),
            post == post_spec(old(self).hwnd, MSG_REFRESH),
    {
        self.model.codex_remaining = remaining;
        self.model.resets_at = resets_at;
        self.post(MSG_REFRESH)
    }

    /// New system figures, known only when `available`; the window is asked to repaint.
    pub fn update_system(&mut self, available: bool, cpu_percent: Option<i64>, memory_percent: Option<i64>) -> (post: Option<u32>)
        ensures
            *final(self) == (WidgetState {
                model: WidgetModel {
                    cpu_percent: if available { cpu_percent } else { None },
                    memory_percent: if available { memory_percent } else { None },
                    ..old(self).model
                },
                ..*old(self)
            }),
            post == post_spec(old(self).hwnd, MSG_REFRESH),
    {
        self.model.cpu_percent = if available { cpu_percent } else { None };
        self.model.memory_percent = if available { memory_percent } else { None };
        self.post(MSG_REFRESH)
    }

    /// Records whether the detail panel is open.
    pub fn set_detail_visible(&mut self, visible: bool)
        ensures
            *final(self) == (WidgetState {
                model: WidgetModel { detail_visible: visible, ..old(self).model },
                ..*old(self)
            }),
    {
        self.model.detail_visible = visible;
    }

    /// Switches the theme; the window is asked to repaint.
    pub fn set_theme(&mut self, theme: WidgetTheme) -> (post: Option<u32>)
        ensures
            *final(self) == (WidgetState { model: WidgetModel { theme, ..old(self).model }, ..*old(self) }),
            post == post_spec(old(self).hwnd, MSG_REFRESH),
    {
        self.model.theme = theme;
        self.post(MSG_REFRESH)
    }

    /// Records whether the widget starts with Windows (shown as a check mark).
    pub fn set_autostart_enabled(&mut self, enabled: bool)
        ensures
            *final(self) == (WidgetState {
                model: WidgetModel { autostart_enabled: enabled, ..old(self).model },
                ..*old(self)
            }),
    {
        self.model.autostart_enabled = enabled;
    }

    /// The user wants the widget on the taskbar.
    pub fn show_taskbar(&mut self) -> (post: Option<u32>)
        ensures
            *final(self) == (WidgetState { visible: true, ..*old(self) }),
            post == post_spec(old(self).hwnd, MSG_SHOW_TASKBAR),
    {
        self.visible = true;
        self.post(MSG_SHOW_TASKBAR)
    }

    /// The user hid the widget; the choice holds even while the window is recreated.
    pub fn hide_widget(&mut self) -> (post: Option<u32>)
        ensures
            *final(self) == (WidgetState { visible: false, ..*old(self) }),
            post == post_spec(old(self).hwnd, MSG_HIDE_WIDGET),
    {
        self.visible = false;
        self.post(MSG_HIDE_WIDGET)
    }

    /// The widget is shutting down.
    pub fn shutdown(&mut self) -> (post: Option<u32>)
        ensures
            *final(self) == (WidgetState { shutting_down: true, ..*old(self) }),
            post == post_spec(old(self).hwnd, MSG_SHUTDOWN),
    {
        self.shutting_down = true;
        self.post(MSG_SHUTDOWN)
    }

    /// A window was created for the widget.
    pub fn window_created(&mut self, hwnd: isize)
        ensures
            *final(self) == (WidgetState { hwnd, ..*old(self) }),
    {
        self.hwnd = hwnd;
    }

    /// The docking procedure's decision after one of its steps (see `dock_step_spec`).
    pub fn dock_step(&mut self, event: DockEvent) -> (reply: DockReply)
        ensures
            (*final(self), reply) == dock_step_spec(*old(self), event),
    {
        match event {
            DockEvent::TaskbarsMissing | DockEvent::AttachFailed => {
                let was = self.dock_available;
                self.dock_available = false;
                DockReply::Hide { report: was }
            },
            DockEvent::LayerResetFailed => DockReply::Hide { report: true },
            DockEvent::Docked { parent_changed, desired } => {
                let recovered = !self.dock_available;
                self.dock_available = true;
                let changed = match self.last_bounds {
                    Some(b) => b.left != desired.left || b.top != desired.top || b.right
                        != desired.right || b.bottom != desired.bottom,
                    None => true,
                };
                self.last_bounds = Some(desired);
                DockReply::Place { move_window: parent_changed || changed, recovered }
            },
            DockEvent::MoveFailed => {
                self.last_bounds = None;
                DockReply::Hide { report: false }
            },
            DockEvent::Placed { style } => DockReply::Finish {
                show: self.visible && style & WS_VISIBLE == 0,
            },
        }
    }

    /// Whether the taskbar's colour may be sampled now: not while the menu or the
    /// detail panel could cover the sample point.
    pub fn may_sample_background(&self) -> (b: bool)
        ensures
            b == (!self.menu_open && !self.model.detail_visible),
    {
        !self.menu_open && !self.model.detail_visible
    }

    /// Keeps a newly sampled taskbar colour; a failed sample keeps the previous one.
    pub fn store_sampled_color(&mut self, sampled: Option<u32>)
        ensures
            *final(self) == (match sampled {
                Some(c) => WidgetState { taskbar_color: c, ..*old(self) },
                None => *old(self),
            }),
    {
        if let Some(c) = sampled {
            self.taskbar_color = c;
        }
    }

    /// The background the widget paints now.
    pub fn background(&self) -> (c: u32)
        ensures
            c == background_spec(self.taskbar_color, self.model.theme),
    {
        background_color(self.taskbar_color, self.model.theme)
    }
}

} // verus!
