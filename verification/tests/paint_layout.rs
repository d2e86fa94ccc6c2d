use codex_pulse::color::rgb;
use codex_pulse::geometry::Bounds;
use codex_pulse::paint::{display_texts, display_texts_at, paint_plan, DisplayTexts, FontRole, ScaledLengths};
use codex_pulse::window::WidgetState;

fn unit_lengths() -> ScaledLengths {
    ScaledLengths {
        px3: 3, px4: 4, px6: 6, px7: 7, px8: 8, px11: 11, px12: 12, px15: 15, px17: 17, px18: 18, px20: 20,
        px22: 22, px23: 23, px25: 25, px27: 27, px35: 35, px36: 36, px48: 48, px54: 54, px57: 57, px70: 70,
        px72: 72, px135: 135, px145: 145, px155: 155, px190: 190,
    }
}

fn texts() -> DisplayTexts {
    DisplayTexts {
        codex: "63 %".to_string(),
        reset: "02:30".to_string(),
        cpu: "12 %".to_string(),
        memory: "-".to_string(),
    }
}

fn r(left: i32, top: i32, right: i32, bottom: i32) -> Bounds {
    Bounds { left, top, right, bottom }
}

#[test]
fn figures_as_text() {
    let mut s = WidgetState::new();
    let t = display_texts_at(&s.model, (0, 0));
    assert_eq!((t.codex.as_str(), t.reset.as_str(), t.cpu.as_str(), t.memory.as_str()), ("-", "-", "-", "-"));
    s.update_codex(Some(63), Some("1970-01-01T02:30:00Z".to_string()));
    s.update_system(true, Some(12), Some(101));
    let t = display_texts_at(&s.model, (0, 0));
    assert_eq!(t.codex, "63 %");
    assert_eq!(t.reset, "02:30");
    assert_eq!(t.cpu, "12 %");
    assert_eq!(t.memory, "100 %");
    s.update_codex(None, None);
    let t = display_texts(&s.model);
    assert_eq!(t.codex, "-");
    assert_eq!(t.reset, "-");
}

#[test]
fn frame_at_design_size() {
    let background = rgb(28, 34, 44);
    let plan = paint_plan(unit_lengths(), r(0, 0, 248, 48), background, &texts()).unwrap();
    assert_eq!((plan.width, plan.height), (248, 48));
    assert_eq!(plan.background, background);
    assert_eq!((plan.label_font, plan.small_font, plan.value_font), (12, 11, 12));
    assert_eq!(plan.texts.len(), 8);
    assert_eq!(plan.texts[0].text, "CODEX");
    assert_eq!(plan.texts[0].rect, r(20, 4, 68, 27));
    assert_eq!(plan.texts[0].font, FontRole::Label);
    assert_eq!(plan.texts[0].color, rgb(215, 224, 237));
    assert_eq!(plan.texts[1].text, "63 %");
    assert_eq!(plan.texts[1].rect, r(70, 4, 124, 27));
    assert_eq!(plan.texts[3].text, "02:30");
    assert_eq!(plan.texts[3].rect, r(57, 25, 129, 43));
    assert_eq!(plan.texts[3].color, rgb(85, 215, 186));
    assert_eq!(plan.texts[3].font, FontRole::Small);
    assert_eq!(plan.texts[6].text, "MEM");
    assert_eq!(plan.texts[7].rect, r(190, 23, 238, 45));
    assert_eq!(plan.fills.len(), 4);
    assert_eq!(plan.fills[0].rect, r(8, 8, 11, 25));
    assert_eq!(plan.fills[1].rect, r(135, 6, 136, 42));
    assert_eq!(plan.fills[1].color, rgb(55, 67, 83));
    assert_eq!(plan.fills[2].color, rgb(245, 185, 30));
    assert_eq!(plan.fills[3].rect, r(145, 27, 148, 42));
    assert_eq!(plan.fills[3].color, rgb(155, 104, 232));
}

#[test]
fn frame_centres_in_taller_client_and_uses_dark_ink_on_light() {
    let plan = paint_plan(unit_lengths(), r(0, 0, 248, 60), rgb(235, 238, 242), &texts()).unwrap();
    assert_eq!(plan.texts[0].rect, r(20, 10, 68, 33));
    assert_eq!(plan.texts[0].color, rgb(44, 52, 66));
    assert_eq!(plan.fills[0].color, rgb(0, 143, 122));
    let flat = paint_plan(unit_lengths(), r(0, 0, 0, 0), 0, &texts()).unwrap();
    assert_eq!((flat.width, flat.height), (1, 1));
    assert_eq!(flat.texts[0].rect, r(20, 4, 68, 27));
}

#[test]
fn oversized_frame_is_refused() {
    let mut m = unit_lengths();
    m.px48 = i32::MAX;
    assert!(paint_plan(m, r(0, 0, 248, 48), 0, &texts()).is_none());
    assert!(paint_plan(unit_lengths(), r(i32::MIN, 0, i32::MAX, 48), 0, &texts()).is_none());
}
