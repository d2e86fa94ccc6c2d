use vstd::prelude::*;
use crate::theme::{WidgetTheme, opposite_theme};

verus! {

/// What the widget asks the application to do.
#[derive(Clone, Debug, PartialEq, Eq)]
pub enum NativeWidgetEvent {
    ToggleDetail,
    Refresh,
    SwitchToOverlay,
    SetTheme(WidgetTheme),
    ToggleAutostart,
    Hide,
    Quit,
}

pub const MENU_DETAIL: usize = 1001;
pub const MENU_REFRESH: usize = 1002;
pub const MENU_OVERLAY: usize = 1003;
pub const MENU_THEME: usize = 1004;
pub const MENU_AUTOSTART: usize = 1005;
pub const MENU_HIDE: usize = 1006;
pub const MENU_QUIT: usize = 1007;

/// One line of the widget's context menu.
#[derive(Clone, Debug, PartialEq, Eq)]
pub enum MenuEntry {
    Item { id: usize, label: String, checked: bool },
    Separator,
}

/// A menu line as a mathematical value.
pub enum MenuLine {
    Item(usize, Seq<char>, bool),
    Separator,
}

pub open spec fn menu_line(entry: MenuEntry) -> MenuLine {
    match entry {
        MenuEntry::Item { id, label, checked } => MenuLine::Item(id, label@, checked),
        MenuEntry::Separator => MenuLine::Separator,
    }
}

/// The context menu for the widget's current state: detail toggle, refresh,
/// overlay mode, theme switch, autostart (checked when enabled), hide and quit.
pub open spec fn menu_spec(detail_visible: bool, theme: WidgetTheme, autostart_enabled: bool) -> Seq<MenuLine> {
    seq![
        MenuLine::Item(
            MENU_DETAIL,
            if detail_visible { "상세 정보 닫기"@ } else { "상세 정보 열기"@ },
            false,
        ),
        MenuLine::Item(MENU_REFRESH, "사용량 새로고침"@, false),
        MenuLine::Separator,
        MenuLine::Item(MENU_OVERLAY, "자유 배치"@, false),
        MenuLine::Item(
            MENU_THEME,
            if theme == WidgetTheme::Dark { "라이트 모드"@ } else { "다크 모드"@ },
            false,
        ),
        MenuLine::Item(MENU_AUTOSTART, "Windows 시작 시 자동 실행"@, autostart_enabled),
        MenuLine::Separator,
        MenuLine::Item(MENU_HIDE, "위젯 숨기기"@, false),
        MenuLine::Item(MENU_QUIT, "앱 종료"@, false),
    ]
}

fn item(id: usize, label: &str, checked: bool) -> (entry: MenuEntry)
    ensures
        menu_line(entry) == MenuLine::Item(id, label@, checked),
{
    MenuEntry::Item { id, label: String::from_str(label), checked }
}

/// The context menu's lines, top to bottom.
pub fn context_menu_entries(detail_visible: bool, theme: WidgetTheme, autostart_enabled: bool) -> (entries: Vec<MenuEntry>)
    ensures
        entries@.map_values(|e: MenuEntry| menu_line(e)) == menu_spec(detail_visible, theme, autostart_enabled),
{
    let mut entries: Vec<MenuEntry> = Vec::new();
    entries.push(item(MENU_DETAIL, if detail_visible { "상세 정보 닫기" } else { "상세 정보 열기" }, false));
    entries.push(item(MENU_REFRESH, "사용량 새로고침", false));
    entries.push(MenuEntry::Separator);
    entries.push(item(MENU_OVERLAY, "자유 배치", false));
    entries.push(item(MENU_THEME, if theme == WidgetTheme::Dark { "라이트 모드" } else { "다크 모드" }, false));
    entries.push(item(MENU_AUTOSTART, "Windows 시작 시 자동 실행", autostart_enabled));
    entries.push(MenuEntry::Separator);
    entries.push(item(MENU_HIDE, "위젯 숨기기", false));
    entries.push(item(MENU_QUIT, "앱 종료", false));
    assert(entries@.map_values(|e: MenuEntry| menu_line(e)) =~= menu_spec(detail_visible, theme, autostart_enabled));
    entries
}

/// The event that choosing a menu command sends; none for anything else
/// (including a dismissed menu).
pub open spec fn menu_event_spec(selected: usize, theme: WidgetTheme) -> Option<NativeWidgetEvent> {
    if selected == MENU_DETAIL {
        Some(NativeWidgetEvent::ToggleDetail)
    } else if selected == MENU_REFRESH {
        Some(NativeWidgetEvent::Refresh)
    } else if selected == MENU_OVERLAY {
        Some(NativeWidgetEvent::SwitchToOverlay)
    } else if selected == MENU_THEME {
        Some(NativeWidgetEvent::SetTheme(opposite_theme(theme)))
    } else if selected == MENU_AUTOSTART {
        Some(NativeWidgetEvent::ToggleAutostart)
    } else if selected == MENU_HIDE {
        Some(NativeWidgetEvent::Hide)
    } else if selected == MENU_QUIT {
        Some(NativeWidgetEvent::Quit)
    } else {
        None
    }
}

/// The event for the command the user picked, given the theme shown in the menu.
pub fn menu_event(selected: usize, theme: WidgetTheme) -> (event: Option<NativeWidgetEvent>)
    ensures
        event == menu_event_spec(selected, theme),
{
    if selected == MENU_DETAIL {
        Some(NativeWidgetEvent::ToggleDetail)
    } else if selected == MENU_REFRESH {
        Some(NativeWidgetEvent::Refresh)
    } else if selected == MENU_OVERLAY {
        Some(NativeWidgetEvent::SwitchToOverlay)
    } else if selected == MENU_THEME {
        Some(NativeWidgetEvent::SetTheme(theme.toggled()))
    } else if selected == MENU_AUTOSTART {
        Some(NativeWidgetEvent::ToggleAutostart)
    } else if selected == MENU_HIDE {
        Some(NativeWidgetEvent::Hide)
    } else if selected == MENU_QUIT {
        Some(NativeWidgetEvent::Quit)
    } else {
        None
    }
}

/// Every command the menu offers sends an event, each command a different one,
/// and the theme command switches to the other theme.
pub proof fn lemma_menu_items_send_events(detail_visible: bool, theme: WidgetTheme, autostart_enabled: bool)
    ensures
        forall|i: int|
            0 <= i < menu_spec(detail_visible, theme, autostart_enabled).len()
                ==> match #[trigger] menu_spec(detail_visible, theme, autostart_enabled)[i] {
                MenuLine::Item(id, _, _) => menu_event_spec(id, theme) is Some,
                MenuLine::Separator => true,
            },
        forall|a: usize, b: usize|
            menu_event_spec(a, theme) is Some && #[trigger] menu_event_spec(a, theme) == #[trigger] menu_event_spec(b, theme) ==> a == b,
        menu_event_spec(MENU_THEME, theme) == Some(NativeWidgetEvent::SetTheme(opposite_theme(theme))),
{
    let m = menu_spec(detail_visible, theme, autostart_enabled);
    assert forall|i: int| 0 <= i < m.len() implies match #[trigger] m[i] {
        MenuLine::Item(id, _, _) => menu_event_spec(id, theme) is Some,
        MenuLine::Separator => true,
    } by {
        assert(0 <= i < 9);
    }
}

} // verus!
