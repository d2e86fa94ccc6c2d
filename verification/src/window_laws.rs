use vstd::prelude::*;
use crate::event::NativeWidgetEvent;
use crate::geometry::Bounds;
use crate::window::{
    blur_suppressed_spec, classify_spec, detached_spec, dock_step_spec, handled_kind, moved_beyond_threshold, post_spec, react_spec, timer_step_spec,
    DockEvent, DockReply, MessageInput, MessageKind, TimerStep, WidgetState, WindowAction, BLUR_GRACE_MS,
};

verus! {

/// A press and release of the left button without movement in between opens
/// or closes the detail panel (sends exactly `ToggleDetail`), whatever the
/// state before.
pub proof fn lemma_click_toggles_detail(s: WidgetState, down: MessageInput, up: MessageInput)
    ensures
        ({
            let after_down = react_spec(s, MessageKind::LeftButtonDown, down).0;
            react_spec(after_down, MessageKind::LeftButtonUp, up).1 == seq![
                WindowAction::ReleaseMouse,
                WindowAction::Emit(NativeWidgetEvent::ToggleDetail),
            ]
        }),
{
}

/// A press that the pointer drags beyond the threshold before the release
/// sends no event: dragging is not clicking.
pub proof fn lemma_drag_is_no_click(
    s: WidgetState,
    down: MessageInput,
    moves: MessageInput,
    up: MessageInput,
)
    requires
        down.cursor is Some,
        moves.cursor is Some,
        ({
            let c0 = down.cursor->0;
            let c1 = moves.cursor->0;
            moved_beyond_threshold(c0.0 as int, c0.1 as int, c1.0 as int, c1.1 as int)
        }),
    ensures
        ({
            let s1 = react_spec(s, MessageKind::LeftButtonDown, down).0;
            let s2 = react_spec(s1, MessageKind::MouseMove, moves).0;
            react_spec(s2, MessageKind::LeftButtonUp, up).1 == seq![WindowAction::ReleaseMouse]
        }),
{
}

/// Once dragged, a press stays a drag however the pointer moves afterwards,
/// until the button is released.
pub proof fn lemma_drag_stays_drag(s: WidgetState, input: MessageInput)
    requires
        s.drag.moved,
    ensures
        react_spec(s, MessageKind::MouseMove, input).0.drag.moved,
{
}

/// A widget the user hid is never moved back onto the taskbar by the position
/// timer; one the user shows is re-placed on every tick.
pub proof fn lemma_timer_respects_visibility(s: WidgetState, input: MessageInput)
    ensures
        !s.visible ==> !react_spec(s, MessageKind::PositionTimer, input).1.contains(WindowAction::Reposition),
        s.visible ==> react_spec(s, MessageKind::PositionTimer, input).1[0] == WindowAction::Reposition,
{
    let acts = react_spec(s, MessageKind::PositionTimer, input).1;
    if !s.visible {
        assert forall|i: int| 0 <= i < acts.len() implies acts[i] != WindowAction::Reposition by {
            assert(acts[i] == WindowAction::Invalidate);
        }
    }
}

/// The controller's `hide_widget` is remembered across window messages: after
/// it, the timer never re-places the widget until `show_taskbar`.
pub proof fn lemma_hide_then_tick(s: WidgetState, input: MessageInput)
    ensures
        ({
            let hidden = WidgetState { visible: false, ..s };
            !react_spec(hidden, MessageKind::PositionTimer, input).1.contains(WindowAction::Reposition)
        }),
        ({
            let shown = WidgetState { visible: true, ..s };
            react_spec(shown, MessageKind::PositionTimer, input).1[0] == WindowAction::Reposition
        }),
{
    lemma_timer_respects_visibility(WidgetState { visible: false, ..s }, input);
    lemma_timer_respects_visibility(WidgetState { visible: true, ..s }, input);
}

/// The widget repaints on every tenth tick of the position timer, and only then
/// (counting ticks modulo 2^32).
pub proof fn lemma_repaint_every_tenth_tick(s: WidgetState, input: MessageInput)
    ensures
        ({
            let (next, acts, _) = react_spec(s, MessageKind::PositionTimer, input);
            &&& next.timer_ticks == (s.timer_ticks as int + 1) % 0x1_0000_0000
            &&& (acts.contains(WindowAction::Invalidate) <==> next.timer_ticks % 10 == 0)
        }),
{
    let (next, acts, _) = react_spec(s, MessageKind::PositionTimer, input);
    if next.timer_ticks % 10 == 0 {
        assert(acts[acts.len() - 1] == WindowAction::Invalidate);
    } else {
        assert forall|i: int| 0 <= i < acts.len() implies acts[i] != WindowAction::Invalidate by {
            assert(acts[i] == WindowAction::Reposition);
        }
    }
}

/// Shutting down is final: no window message brings the widget back.
pub proof fn lemma_shutdown_is_final(s: WidgetState, kind: MessageKind, input: MessageInput)
    requires
        s.shutting_down,
    ensures
        react_spec(s, kind, input).0.shutting_down,
{
}

/// Closing the window ends the message loop: the widget then shuts down,
/// destroys its window and posts the quit message, attached or not.
pub proof fn lemma_close_ends_loop(s: WidgetState, input: MessageInput)
    ensures
        react_spec(s, MessageKind::Close, input).0.shutting_down,
        react_spec(s, MessageKind::Close, input).1 == seq![WindowAction::DestroyWindow, WindowAction::PostQuit],
        detached_spec(MessageKind::Close).0 == seq![WindowAction::DestroyWindow, WindowAction::PostQuit],
{
}

/// Once the window is gone, the controller posts nothing to it.
pub proof fn lemma_forgotten_window_gets_no_posts(s: WidgetState, input: MessageInput, message: u32)
    ensures
        post_spec(react_spec(s, MessageKind::NcDestroy, input).0.hwnd, message) is None,
{
}

/// Right after a click the detail panel does not close on losing focus; the
/// grace period is `BLUR_GRACE_MS` from the release.
pub proof fn lemma_blur_grace_after_click(s: WidgetState, up: MessageInput, now_ms: u64)
    requires
        up.now_ms <= now_ms < up.now_ms + BLUR_GRACE_MS,
    ensures
        blur_suppressed_spec(react_spec(s, MessageKind::LeftButtonUp, up).0, now_ms),
{
}

/// Only the window's own messages change the shared state's figures: no window
/// message alters the model the controller wrote.
pub proof fn lemma_messages_keep_model(s: WidgetState, kind: MessageKind, input: MessageInput)
    ensures
        react_spec(s, kind, input).0.model == s.model,
        react_spec(s, kind, input).0.taskbar_color == s.taskbar_color,
        react_spec(s, kind, input).0.last_bounds == s.last_bounds,
{
}

/// After Explorer destroyed the taskbar (and the widget with it), the thread
/// timer recreates the widget as soon as a taskbar exists, and never before.
pub proof fn lemma_window_recreated_with_taskbar(taskbar_count: nat)
    ensures
        timer_step_spec(false, taskbar_count) == TimerStep::CreateThenTick <==> taskbar_count > 0,
        timer_step_spec(true, taskbar_count) == TimerStep::Tick,
{
}

/// A placement that has not changed does not move the window again, unless
/// the widget was just attached; after a failed move (which hides the widget
/// and forgets the placement) the next dock moves it again.
pub proof fn lemma_placement_retry(s: WidgetState, desired: Bounds, attached: bool)
    ensures
        ({
            let first = dock_step_spec(s, DockEvent::Docked { parent_changed: attached, desired }).0;
            dock_step_spec(first, DockEvent::Docked { parent_changed: false, desired }).1
                == DockReply::Place { move_window: false, recovered: false }
        }),
        ({
            let failed = dock_step_spec(s, DockEvent::MoveFailed);
            &&& failed.1 == DockReply::Hide { report: false }
            &&& dock_step_spec(failed.0, DockEvent::Docked { parent_changed: false, desired }).1
                matches DockReply::Place { move_window: true, .. }
        }),
{
}

/// Losing the taskbar is reported once: a second failure in a row is silent,
/// and the next successful dock reports the recovery, once.
pub proof fn lemma_dock_loss_reported_once(s: WidgetState, second: DockEvent, desired: Bounds)
    requires
        second == DockEvent::TaskbarsMissing || second == DockEvent::AttachFailed,
    ensures
        ({
            let lost = dock_step_spec(s, DockEvent::TaskbarsMissing).0;
            let again = dock_step_spec(lost, second);
            let back = dock_step_spec(again.0, DockEvent::Docked { parent_changed: true, desired });
            let steady = dock_step_spec(back.0, DockEvent::Docked { parent_changed: false, desired });
            &&& again.1 == DockReply::Hide { report: false }
            &&& back.1 == DockReply::Place { move_window: true, recovered: true }
            &&& steady.1 == DockReply::Place { move_window: false, recovered: false }
        }),
{
}

/// Every docking failure hides the widget; only a successful dock shows it,
/// and only if the user wants it shown.
pub proof fn lemma_dock_failures_hide(s: WidgetState, event: DockEvent)
    ensures
        (event == DockEvent::TaskbarsMissing || event == DockEvent::AttachFailed
            || event == DockEvent::LayerResetFailed || event == DockEvent::MoveFailed)
            ==> dock_step_spec(s, event).1 matches DockReply::Hide { .. },
        dock_step_spec(s, event).1 matches DockReply::Finish { show: true } ==> s.visible,
        !dock_step_spec(s, event).0.visible == !s.visible,
{
}

/// A pressed button whose pointer moves more than 4 px away from the press
/// point along either axis, in either direction, marks the press as a drag; a
/// move that stays within 4 px on both axes does not. The offsets are measured
/// from the point where the button went down.
pub proof fn lemma_drag_threshold(s: WidgetState, down: MessageInput, moves: MessageInput, sx: i32, sy: i32, x: i32, y: i32)
    requires
        down.cursor == Some((sx, sy)),
        moves.cursor == Some((x, y)),
    ensures
        ({
            let s1 = react_spec(s, MessageKind::LeftButtonDown, down).0;
            let s2 = react_spec(s1, MessageKind::MouseMove, moves).0;
            &&& (x - sx > 4 || sx - x > 4 || y - sy > 4 || sy - y > 4) ==> s2.drag.moved
            &&& (-4 <= x - sx <= 4 && -4 <= y - sy <= 4) ==> !s2.drag.moved
        }),
{
}

/// Press, move more than 4 px along either axis, release: no `ToggleDetail` is
/// sent, only the mouse is released. Press, move at most 4 px on both axes,
/// release: `ToggleDetail` is sent.
pub proof fn lemma_drag_release(
    s: WidgetState,
    down: MessageInput,
    moves: MessageInput,
    up: MessageInput,
    sx: i32,
    sy: i32,
    x: i32,
    y: i32,
)
    requires
        down.cursor == Some((sx, sy)),
        moves.cursor == Some((x, y)),
    ensures
        ({
            let s1 = react_spec(s, MessageKind::LeftButtonDown, down).0;
            let s2 = react_spec(s1, MessageKind::MouseMove, moves).0;
            let acts = react_spec(s2, MessageKind::LeftButtonUp, up).1;
            &&& (x - sx > 4 || sx - x > 4 || y - sy > 4 || sy - y > 4) ==> acts == seq![WindowAction::ReleaseMouse]
            &&& (-4 <= x - sx <= 4 && -4 <= y - sy <= 4) ==> acts == seq![
                WindowAction::ReleaseMouse,
                WindowAction::Emit(NativeWidgetEvent::ToggleDetail),
            ]
        }),
{
    lemma_drag_threshold(s, down, moves, sx, sy, x, y);
}

/// A dock whose placement differs from the recorded one in any edge moves the
/// window; one equal in all four edges, after no re-attachment, does not; with
/// nothing recorded, the window moves.
pub proof fn lemma_dock_moves_on_any_edge(s: WidgetState, parent_changed: bool, desired: Bounds, b: Bounds)
    ensures
        (s.last_bounds == Some(b) && (b.left != desired.left || b.top != desired.top || b.right != desired.right
            || b.bottom != desired.bottom)) ==> dock_step_spec(s, DockEvent::Docked { parent_changed, desired }).1
            == (DockReply::Place { move_window: true, recovered: !s.dock_available }),
        (s.last_bounds == Some(b) && b.left == desired.left && b.top == desired.top && b.right == desired.right
            && b.bottom == desired.bottom) ==> dock_step_spec(s, DockEvent::Docked { parent_changed, desired }).1
            == (DockReply::Place { move_window: parent_changed, recovered: !s.dock_available }),
        s.last_bounds.is_none() ==> dock_step_spec(s, DockEvent::Docked { parent_changed, desired }).1
            == (DockReply::Place { move_window: true, recovered: !s.dock_available }),
{
}

/// Every message the widget handles reaches its own handler, whatever the
/// registered TaskbarCreated message is, unless it is that very message.
pub proof fn lemma_messages_reach_handlers(message: u32, wparam: usize, taskbar_created: u32)
    requires
        message != taskbar_created || taskbar_created == 0,
    ensures
        handled_kind(message, wparam, classify_spec(message, wparam, taskbar_created)),
        message == 0x0202 ==> classify_spec(message, wparam, taskbar_created) == MessageKind::LeftButtonUp,
        message == 0x0201 ==> classify_spec(message, wparam, taskbar_created) == MessageKind::LeftButtonDown,
        message == 0x0205 ==> classify_spec(message, wparam, taskbar_created) == MessageKind::ContextMenu,
{
}

/// The registered TaskbarCreated message, when there is one, wins over every
/// other meaning.
pub proof fn lemma_taskbar_created_first(message: u32, wparam: usize)
    requires
        message != 0,
    ensures
        classify_spec(message, wparam, message) == MessageKind::TaskbarCreated,
{
}

} // verus!
