use windows_sys::Win32::UI::WindowsAndMessaging as wm;
use codex_pulse::event::NativeWidgetEvent;
use codex_pulse::geometry::Bounds;
use codex_pulse::theme::WidgetTheme;
use codex_pulse::window::{
    child_style, classify_message, is_layered, layered_styles, react_detached, thread_timer_step,
    background_sample_point, DockEvent, DockReply, MessageInput, MessageKind, MessageResult, TimerStep, WidgetState, WindowAction,
    HTCLIENT, MA_NOACTIVATE, MSG_HIDE_WIDGET, MSG_REFRESH, MSG_SHOW_TASKBAR, MSG_SHUTDOWN, WS_CHILD,
    WS_EX_LAYERED, WS_POPUP, WS_VISIBLE,
};

fn input(now_ms: u64, cursor: Option<(i32, i32)>) -> MessageInput {
    MessageInput { now_ms, cursor, window: Some(Bounds { left: 8, top: 1032, right: 256, bottom: 1080 }) }
}

fn react(state: &mut WidgetState, kind: MessageKind, i: MessageInput) -> (Vec<WindowAction>, MessageResult) {
    assert!(state.can_react(kind, i));
    let r = state.react(kind, i);
    (r.actions, r.result)
}

#[test]
fn new_state_is_visible_without_window() {
    let s = WidgetState::new();
    assert_eq!(s.hwnd, 0);
    assert!(s.visible);
    assert!(!s.shutting_down);
    assert!(s.dock_available);
    assert_eq!(s.taskbar_color, u32::MAX);
    assert_eq!(s.model.theme, WidgetTheme::Dark);
    assert_eq!(s.last_bounds, None);
}

#[test]
fn click_without_drag_toggles_detail() {
    let mut s = WidgetState::new();
    let (a, r) = react(&mut s, MessageKind::LeftButtonDown, input(1000, Some((20, 1050))));
    assert_eq!(a, vec![WindowAction::CaptureMouse]);
    assert_eq!(r, MessageResult::Handled(0));
    assert!(s.drag.pressed);
    assert_eq!((s.drag.start_x, s.drag.start_y), (20, 1050));
    let (a, _) = react(&mut s, MessageKind::MouseMove, input(1001, Some((23, 1046))));
    assert!(a.is_empty());
    assert!(!s.drag.moved);
    let (a, _) = react(&mut s, MessageKind::LeftButtonUp, input(1100, None));
    assert_eq!(a, vec![WindowAction::ReleaseMouse, WindowAction::Emit(NativeWidgetEvent::ToggleDetail)]);
    assert!(!s.drag.pressed);
    assert_eq!(s.last_interaction_ms, 1100);
}

#[test]
fn drag_does_not_toggle_detail() {
    let mut s = WidgetState::new();
    react(&mut s, MessageKind::LeftButtonDown, input(1000, Some((20, 1050))));
    react(&mut s, MessageKind::MouseMove, input(1001, Some((25, 1050))));
    assert!(s.drag.moved);
    react(&mut s, MessageKind::MouseMove, input(1002, Some((20, 1050))));
    assert!(s.drag.moved);
    let (a, _) = react(&mut s, MessageKind::LeftButtonUp, input(1100, None));
    assert_eq!(a, vec![WindowAction::ReleaseMouse]);
}

#[test]
fn unpressed_moves_are_ignored() {
    let mut s = WidgetState::new();
    react(&mut s, MessageKind::MouseMove, input(1, Some((500, 500))));
    assert!(!s.drag.moved);
}

#[test]
fn extreme_drag_offsets_are_refused() {
    let mut s = WidgetState::new();
    react(&mut s, MessageKind::LeftButtonDown, input(1, Some((i32::MIN, 0))));
    assert!(!s.can_react(MessageKind::MouseMove, input(2, Some((i32::MAX, 0)))));
    assert!(s.can_react(MessageKind::MouseMove, input(2, None)));
}

#[test]
fn timer_repositions_only_visible_widget_and_repaints_every_tenth_tick() {
    let mut s = WidgetState::new();
    for tick in 1..=20u32 {
        let (a, _) = react(&mut s, MessageKind::PositionTimer, input(0, None));
        assert_eq!(s.timer_ticks, tick);
        let mut expected = vec![WindowAction::Reposition];
        if tick % 10 == 0 {
            expected.push(WindowAction::Invalidate);
        }
        assert_eq!(a, expected);
    }
    assert_eq!(s.hide_widget(), None);
    let (a, _) = react(&mut s, MessageKind::PositionTimer, input(0, None));
    assert!(a.is_empty());
    s.timer_ticks = u32::MAX;
    let (a, _) = react(&mut s, MessageKind::PositionTimer, input(0, None));
    assert_eq!(s.timer_ticks, 0);
    assert_eq!(a, vec![WindowAction::Invalidate]);
}

#[test]
fn controller_posts_only_to_a_window() {
    let mut s = WidgetState::new();
    assert_eq!(s.set_theme(WidgetTheme::Light), None);
    assert_eq!(s.model.theme, WidgetTheme::Light);
    s.window_created(0x1234);
    assert_eq!(s.update_codex(Some(37), Some("2026-01-01T00:00:00Z".to_string())), Some(MSG_REFRESH));
    assert_eq!(s.model.codex_remaining, Some(37));
    assert_eq!(s.update_system(false, Some(12), Some(34)), Some(MSG_REFRESH));
    assert_eq!((s.model.cpu_percent, s.model.memory_percent), (None, None));
    assert_eq!(s.update_system(true, Some(12), Some(34)), Some(MSG_REFRESH));
    assert_eq!((s.model.cpu_percent, s.model.memory_percent), (Some(12), Some(34)));
    assert_eq!(s.show_taskbar(), Some(MSG_SHOW_TASKBAR));
    assert_eq!(s.hide_widget(), Some(MSG_HIDE_WIDGET));
    assert!(!s.visible);
    s.set_detail_visible(true);
    s.set_autostart_enabled(true);
    assert!(s.model.detail_visible && s.model.autostart_enabled);
    assert_eq!(s.shutdown(), Some(MSG_SHUTDOWN));
    assert!(s.shutting_down);
    react(&mut s, MessageKind::NcDestroy, input(0, None));
    assert_eq!(s.hwnd, 0);
    assert_eq!(s.set_theme(WidgetTheme::Dark), None);
}

#[test]
fn show_and_hide_messages() {
    let mut s = WidgetState::new();
    let (a, _) = react(&mut s, MessageKind::HideWidget, input(0, None));
    assert_eq!(a, vec![WindowAction::HideWindow]);
    assert!(!s.visible);
    let (a, _) = react(&mut s, MessageKind::ShowTaskbar, input(0, None));
    assert_eq!(a, vec![WindowAction::Reposition, WindowAction::Invalidate]);
    assert!(s.visible);
    let (a, _) = react(&mut s, MessageKind::Close, input(0, None));
    assert_eq!(a, vec![WindowAction::DestroyWindow, WindowAction::PostQuit]);
    assert!(s.shutting_down);
}

#[test]
fn fixed_answers() {
    let mut s = WidgetState::new();
    assert_eq!(react(&mut s, MessageKind::EraseBackground, input(0, None)).1, MessageResult::Handled(1));
    assert_eq!(react(&mut s, MessageKind::HitTest, input(0, None)).1, MessageResult::Handled(HTCLIENT));
    assert_eq!(react(&mut s, MessageKind::MouseActivate, input(0, None)).1, MessageResult::Handled(MA_NOACTIVATE));
    assert_eq!(react(&mut s, MessageKind::Other, input(0, None)).1, MessageResult::Default);
    assert_eq!(react(&mut s, MessageKind::Paint, input(0, None)).0, vec![WindowAction::Paint]);
    assert_eq!(react(&mut s, MessageKind::TaskbarCreated, input(0, None)).0, vec![WindowAction::Reposition]);
    assert_eq!(
        react(&mut s, MessageKind::DisplayChanged, input(0, None)).0,
        vec![WindowAction::Reposition, WindowAction::Invalidate]
    );
    assert_eq!(react(&mut s, MessageKind::ContextMenu, input(77, None)).0, vec![WindowAction::ShowContextMenu]);
    assert_eq!(s.last_interaction_ms, 77);
}

#[test]
fn detached_window_reactions() {
    let r = react_detached(MessageKind::LeftButtonUp);
    assert_eq!(r.actions, vec![WindowAction::ReleaseMouse]);
    let r = react_detached(MessageKind::LeftButtonDown);
    assert!(r.actions.is_empty());
    assert_eq!(r.result, MessageResult::Handled(0));
    assert_eq!(react_detached(MessageKind::Paint).actions, vec![]);
    assert_eq!(react_detached(MessageKind::NcDestroy).result, MessageResult::Default);
    assert_eq!(react_detached(MessageKind::HideWidget).actions, vec![WindowAction::HideWindow]);
}

#[test]
fn blur_suppression_window() {
    let mut s = WidgetState::new();
    s.record_interaction(10_000);
    assert!(s.should_suppress_detail_blur(10_000));
    assert!(s.should_suppress_detail_blur(10_349));
    assert!(!s.should_suppress_detail_blur(10_350));
    assert!(s.should_suppress_detail_blur(5_000));
    s.menu_opened();
    assert!(s.should_suppress_detail_blur(99_999));
    s.menu_closed(50_000);
    assert!(!s.menu_open);
    assert!(s.should_suppress_detail_blur(50_100));
    assert!(!s.should_suppress_detail_blur(60_000));
}

#[test]
fn docking_bookkeeping() {
    let mut s = WidgetState::new();
    assert_eq!(s.dock_step(DockEvent::TaskbarsMissing), DockReply::Hide { report: true });
    assert!(!s.dock_available);
    assert_eq!(s.dock_step(DockEvent::AttachFailed), DockReply::Hide { report: false });
    assert_eq!(s.dock_step(DockEvent::LayerResetFailed), DockReply::Hide { report: true });
    let place = Bounds { left: 8, top: 1032, right: 256, bottom: 1080 };
    assert_eq!(
        s.dock_step(DockEvent::Docked { parent_changed: true, desired: place }),
        DockReply::Place { move_window: true, recovered: true }
    );
    assert!(s.dock_available);
    assert_eq!(s.last_bounds, Some(place));
    assert_eq!(
        s.dock_step(DockEvent::Docked { parent_changed: false, desired: place }),
        DockReply::Place { move_window: false, recovered: false }
    );
    assert_eq!(
        s.dock_step(DockEvent::Docked { parent_changed: true, desired: place }),
        DockReply::Place { move_window: true, recovered: false }
    );
    assert_eq!(s.dock_step(DockEvent::MoveFailed), DockReply::Hide { report: false });
    assert_eq!(s.last_bounds, None);
    assert_eq!(
        s.dock_step(DockEvent::Docked { parent_changed: false, desired: place }),
        DockReply::Place { move_window: true, recovered: false }
    );
    assert_eq!(s.dock_step(DockEvent::Placed { style: 0 }), DockReply::Finish { show: true });
    assert_eq!(s.dock_step(DockEvent::Placed { style: WS_VISIBLE }), DockReply::Finish { show: false });
    s.hide_widget();
    assert_eq!(s.dock_step(DockEvent::Placed { style: 0 }), DockReply::Finish { show: false });
}

#[test]
fn background_sampling() {
    let mut s = WidgetState::new();
    assert!(s.may_sample_background());
    assert_eq!(s.background(), codex_pulse::color::rgb(28, 34, 44));
    s.store_sampled_color(Some(0x0011_2233));
    s.store_sampled_color(None);
    assert_eq!(s.background(), 0x0011_2233);
    s.set_detail_visible(true);
    assert!(!s.may_sample_background());
    assert_eq!(
        background_sample_point(Bounds { left: 8, top: 1032, right: 256, bottom: 1080 }),
        Some((258, 1034))
    );
    assert_eq!(background_sample_point(Bounds { left: 0, top: 0, right: i32::MAX, bottom: 0 }), None);
}

#[test]
fn timer_thread_steps() {
    assert_eq!(thread_timer_step(true, 0), TimerStep::Tick);
    assert_eq!(thread_timer_step(false, 0), TimerStep::Wait);
    assert_eq!(thread_timer_step(false, 2), TimerStep::CreateThenTick);
}

#[test]
fn styles_for_docking() {
    let popup = WS_POPUP | 0x0000_00ff;
    let child = child_style(popup);
    assert_eq!(child, WS_CHILD | 0x0000_00ff);
    let (cleared, set) = layered_styles(WS_EX_LAYERED | 0x80);
    assert_eq!(cleared, 0x80);
    assert_eq!(set, WS_EX_LAYERED | 0x80);
    assert!(is_layered(set));
    assert!(!is_layered(cleared));
}

#[test]
fn message_constants_match_win32() {
    assert_eq!(codex_pulse::window::WM_PAINT, wm::WM_PAINT);
    assert_eq!(codex_pulse::window::WM_ERASEBKGND, wm::WM_ERASEBKGND);
    assert_eq!(codex_pulse::window::WM_NCHITTEST, wm::WM_NCHITTEST);
    assert_eq!(codex_pulse::window::WM_MOUSEACTIVATE, wm::WM_MOUSEACTIVATE);
    assert_eq!(codex_pulse::window::WM_LBUTTONDOWN, wm::WM_LBUTTONDOWN);
    assert_eq!(codex_pulse::window::WM_LBUTTONUP, wm::WM_LBUTTONUP);
    assert_eq!(codex_pulse::window::WM_MOUSEMOVE, wm::WM_MOUSEMOVE);
    assert_eq!(codex_pulse::window::WM_RBUTTONUP, wm::WM_RBUTTONUP);
    assert_eq!(codex_pulse::window::WM_CONTEXTMENU, wm::WM_CONTEXTMENU);
    assert_eq!(codex_pulse::window::WM_DWMCOMPOSITIONCHANGED, wm::WM_DWMCOMPOSITIONCHANGED);
    assert_eq!(codex_pulse::window::WM_DPICHANGED, wm::WM_DPICHANGED);
    assert_eq!(codex_pulse::window::WM_DISPLAYCHANGE, wm::WM_DISPLAYCHANGE);
    assert_eq!(codex_pulse::window::WM_SETTINGCHANGE, wm::WM_SETTINGCHANGE);
    assert_eq!(codex_pulse::window::WM_TIMER, wm::WM_TIMER);
    assert_eq!(codex_pulse::window::WM_CLOSE, wm::WM_CLOSE);
    assert_eq!(codex_pulse::window::WM_DESTROY, wm::WM_DESTROY);
    assert_eq!(codex_pulse::window::WM_NCDESTROY, wm::WM_NCDESTROY);
    assert_eq!(codex_pulse::window::WM_NCCREATE, wm::WM_NCCREATE);
    assert_eq!(codex_pulse::window::WM_APP, wm::WM_APP);
    assert_eq!(MSG_REFRESH, wm::WM_APP + 1);
    assert_eq!(MSG_SHUTDOWN, wm::WM_APP + 4);
    assert_eq!(HTCLIENT, wm::HTCLIENT as isize);
    assert_eq!(MA_NOACTIVATE, wm::MA_NOACTIVATE as isize);
    assert_eq!(WS_POPUP, wm::WS_POPUP);
    assert_eq!(WS_CHILD, wm::WS_CHILD);
    assert_eq!(WS_VISIBLE, wm::WS_VISIBLE);
    assert_eq!(WS_EX_LAYERED, wm::WS_EX_LAYERED);
}

#[test]
fn classify_raw_messages() {
    assert_eq!(classify_message(0xC123, 0, 0xC123), MessageKind::TaskbarCreated);
    assert_eq!(classify_message(0, 0, 0), MessageKind::Other);
    assert_eq!(classify_message(wm::WM_PAINT, 0, 0xC123), MessageKind::Paint);
    assert_eq!(classify_message(wm::WM_RBUTTONUP, 0, 0), MessageKind::ContextMenu);
    assert_eq!(classify_message(wm::WM_CONTEXTMENU, 0, 0), MessageKind::ContextMenu);
    assert_eq!(classify_message(wm::WM_TIMER, 1, 0), MessageKind::PositionTimer);
    assert_eq!(classify_message(wm::WM_TIMER, 2, 0), MessageKind::Other);
    assert_eq!(classify_message(wm::WM_CLOSE, 0, 0), MessageKind::Close);
    assert_eq!(classify_message(MSG_SHUTDOWN, 0, 0), MessageKind::Close);
    assert_eq!(classify_message(MSG_HIDE_WIDGET, 0, 0), MessageKind::HideWidget);
    assert_eq!(classify_message(wm::WM_SETTINGCHANGE, 0, 0), MessageKind::DisplayChanged);
    assert_eq!(classify_message(wm::WM_NCCREATE, 0, 0), MessageKind::Other);
}
