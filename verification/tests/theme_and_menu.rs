use codex_pulse::event::{
    context_menu_entries, menu_event, MenuEntry, NativeWidgetEvent, MENU_AUTOSTART, MENU_DETAIL, MENU_HIDE,
    MENU_OVERLAY, MENU_QUIT, MENU_REFRESH, MENU_THEME,
};
use codex_pulse::theme::WidgetTheme;

#[test]
fn theme_names() {
    assert_eq!(WidgetTheme::Dark.as_str(), "dark");
    assert_eq!(WidgetTheme::Light.as_str(), "light");
}

#[test]
fn theme_toggles_back_and_forth() {
    assert_eq!(WidgetTheme::Dark.toggled(), WidgetTheme::Light);
    assert_eq!(WidgetTheme::Light.toggled(), WidgetTheme::Dark);
    for theme in [WidgetTheme::Dark, WidgetTheme::Light] {
        assert_eq!(theme.toggled().toggled(), theme);
        assert_ne!(theme.toggled(), theme);
    }
}

#[test]
fn default_theme_is_dark() {
    assert_eq!(WidgetTheme::default(), WidgetTheme::Dark);
}

fn item(entry: &MenuEntry) -> (usize, String, bool) {
    match entry {
        MenuEntry::Item { id, label, checked } => (*id, label.clone(), *checked),
        MenuEntry::Separator => (0, String::new(), false),
    }
}

#[test]
fn context_menu_for_closed_detail_in_dark_theme() {
    let entries = context_menu_entries(false, WidgetTheme::Dark, true);
    assert_eq!(entries.len(), 9);
    assert_eq!(item(&entries[0]), (MENU_DETAIL, "상세 정보 열기".to_string(), false));
    assert_eq!(item(&entries[1]), (MENU_REFRESH, "사용량 새로고침".to_string(), false));
    assert_eq!(entries[2], MenuEntry::Separator);
    assert_eq!(item(&entries[3]), (MENU_OVERLAY, "자유 배치".to_string(), false));
    assert_eq!(item(&entries[4]), (MENU_THEME, "라이트 모드".to_string(), false));
    assert_eq!(item(&entries[5]), (MENU_AUTOSTART, "Windows 시작 시 자동 실행".to_string(), true));
    assert_eq!(entries[6], MenuEntry::Separator);
    assert_eq!(item(&entries[7]), (MENU_HIDE, "위젯 숨기기".to_string(), false));
    assert_eq!(item(&entries[8]), (MENU_QUIT, "앱 종료".to_string(), false));
}

#[test]
fn context_menu_for_open_detail_in_light_theme() {
    let entries = context_menu_entries(true, WidgetTheme::Light, false);
    assert_eq!(item(&entries[0]).1, "상세 정보 닫기");
    assert_eq!(item(&entries[4]).1, "다크 모드");
    assert!(!item(&entries[5]).2);
}

#[test]
fn menu_commands_map_to_events() {
    assert_eq!(menu_event(MENU_DETAIL, WidgetTheme::Dark), Some(NativeWidgetEvent::ToggleDetail));
    assert_eq!(menu_event(MENU_REFRESH, WidgetTheme::Dark), Some(NativeWidgetEvent::Refresh));
    assert_eq!(menu_event(MENU_OVERLAY, WidgetTheme::Dark), Some(NativeWidgetEvent::SwitchToOverlay));
    assert_eq!(
        menu_event(MENU_THEME, WidgetTheme::Dark),
        Some(NativeWidgetEvent::SetTheme(WidgetTheme::Light))
    );
    assert_eq!(
        menu_event(MENU_THEME, WidgetTheme::Light),
        Some(NativeWidgetEvent::SetTheme(WidgetTheme::Dark))
    );
    assert_eq!(menu_event(MENU_AUTOSTART, WidgetTheme::Dark), Some(NativeWidgetEvent::ToggleAutostart));
    assert_eq!(menu_event(MENU_HIDE, WidgetTheme::Dark), Some(NativeWidgetEvent::Hide));
    assert_eq!(menu_event(MENU_QUIT, WidgetTheme::Dark), Some(NativeWidgetEvent::Quit));
}

#[test]
fn dismissed_menu_sends_nothing() {
    assert_eq!(menu_event(0, WidgetTheme::Dark), None);
    assert_eq!(menu_event(1000, WidgetTheme::Light), None);
    assert_eq!(menu_event(1008, WidgetTheme::Light), None);
}

#[test]
fn every_offered_command_sends_an_event() {
    for detail in [false, true] {
        for theme in [WidgetTheme::Dark, WidgetTheme::Light] {
            for entry in context_menu_entries(detail, theme, detail) {
                if let MenuEntry::Item { id, .. } = entry {
                    assert!(menu_event(id, theme).is_some());
                }
            }
        }
    }
}
