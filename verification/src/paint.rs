use vstd::prelude::*;
use crate::clock::{countdown_at_spec, countdown_text, countdown_text_at};
use crate::color::{Palette, palette_for, palette_spec, rgb, rgb_value};
use crate::geometry::{Bounds, in_i32};
use crate::text::{percent_spec, percent_text};
use crate::window::WidgetModel;

verus! {

/// The widget's design lengths (in logical pixels, named by their value) scaled
/// to the window's DPI and rounded to whole pixels by the caller.
#[derive(Clone, Copy, Debug, PartialEq, Eq, Structural)]
pub struct ScaledLengths {
    pub px3: i32,
    pub px4: i32,
    pub px6: i32,
    pub px7: i32,
    pub px8: i32,
    pub px11: i32,
    pub px12: i32,
    pub px15: i32,
    pub px17: i32,
    pub px18: i32,
    pub px20: i32,
    pub px22: i32,
    pub px23: i32,
    pub px25: i32,
    pub px27: i32,
    pub px35: i32,
    pub px36: i32,
    pub px48: i32,
    pub px54: i32,
    pub px57: i32,
    pub px70: i32,
    pub px72: i32,
    pub px135: i32,
    pub px145: i32,
    pub px155: i32,
    pub px190: i32,
}

pub open spec fn lengths_nonnegative(m: ScaledLengths) -> bool {
    &&& m.px3 >= 0 && m.px4 >= 0 && m.px6 >= 0 && m.px7 >= 0 && m.px8 >= 0
    &&& m.px11 >= 0 && m.px12 >= 0 && m.px15 >= 0 && m.px17 >= 0 && m.px18 >= 0
    &&& m.px20 >= 0 && m.px22 >= 0 && m.px23 >= 0 && m.px25 >= 0 && m.px27 >= 0
    &&& m.px35 >= 0 && m.px36 >= 0 && m.px48 >= 0 && m.px54 >= 0 && m.px57 >= 0
    &&& m.px70 >= 0 && m.px72 >= 0 && m.px135 >= 0 && m.px145 >= 0 && m.px155 >= 0
    &&& m.px190 >= 0
}

/// The four figures the widget shows.
#[derive(Clone, Debug, PartialEq, Eq)]
pub struct DisplayTexts {
    pub codex: String,
    pub reset: String,
    pub cpu: String,
    pub memory: String,
}

pub open spec fn optional_percent_spec(value: Option<i64>) -> Seq<char> {
    match value {
        Some(v) => percent_spec(v as int),
        None => seq!['-'],
    }
}

pub open spec fn optional_countdown_spec(reset: Option<String>, now: (i64, u32)) -> Seq<char> {
    match reset {
        Some(r) => countdown_at_spec(r@, now),
        None => seq!['-'],
    }
}

fn optional_percent(value: Option<i64>) -> (s: String)
    ensures
        s@ == optional_percent_spec(value),
{
    match value {
        Some(v) => percent_text(v),
        None => {
            proof {
                reveal_strlit("-");
            }
            String::from_str("-")
        },
    }
}

/// The figures as seen at the instant `now`: each known value as text, `"-"` for
/// each unknown one.
pub fn display_texts_at(model: &WidgetModel, now: (i64, u32)) -> (t: DisplayTexts)
    ensures
        t.codex@ == optional_percent_spec(model.codex_remaining),
        t.reset@ == optional_countdown_spec(model.resets_at, now),
        t.cpu@ == optional_percent_spec(model.cpu_percent),
        t.memory@ == optional_percent_spec(model.memory_percent),
{
    let reset = match &model.resets_at {
        Some(r) => countdown_text_at(r.as_str(), now),
        None => {
            proof {
                reveal_strlit("-");
            }
            String::from_str("-")
        },
    };
    DisplayTexts {
        codex: optional_percent(model.codex_remaining),
        reset,
        cpu: optional_percent(model.cpu_percent),
        memory: optional_percent(model.memory_percent),
    }
}

/// The figures as seen now. The countdown is `"-"` or the one seen at the
/// instant the clock reported (which instant, the clause leaves open); the
/// other figures are exact.
pub fn display_texts(model: &WidgetModel) -> (t: DisplayTexts)
    ensures
        t.codex@ == optional_percent_spec(model.codex_remaining),
        t.cpu@ == optional_percent_spec(model.cpu_percent),
        t.memory@ == optional_percent_spec(model.memory_percent),
        model.resets_at is None ==> t.reset@ == seq!['-'],
        model.resets_at matches Some(r) ==> (t.reset@ == seq!['-'] || exists|now: (i64, u32)|
            now.1 < 1_000_000_000 && t.reset@ == countdown_at_spec(r@, now)),
{
    let reset = match &model.resets_at {
        Some(r) => countdown_text(r.as_str()),
        None => {
            proof {
                reveal_strlit("-");
            }
            String::from_str("-")
        },
    };
    DisplayTexts {
        codex: optional_percent(model.codex_remaining),
        reset,
        cpu: optional_percent(model.cpu_percent),
        memory: optional_percent(model.memory_percent),
    }
}

/// The font a text is drawn in.
#[derive(Clone, Copy, Debug, PartialEq, Eq, Structural)]
pub enum FontRole {
    Label,
    Small,
    Value,
}

/// A text to draw, left-aligned and vertically centred in its rectangle.
#[derive(Clone, Debug, PartialEq, Eq)]
pub struct TextItem {
    pub text: String,
    pub rect: Bounds,
    pub color: u32,
    pub font: FontRole,
}

/// A solid rectangle to fill.
#[derive(Clone, Copy, Debug, PartialEq, Eq, Structural)]
pub struct FillItem {
    pub rect: Bounds,
    pub color: u32,
}

/// Everything the widget paints in one frame, in drawing order: the background,
/// the texts, then the marks.
#[derive(Clone, Debug, PartialEq, Eq)]
pub struct PaintPlan {
    /// Size of the bitmap, at least one pixel each way.
    pub width: i32,
    pub height: i32,
    pub background: u32,
    /// Font heights for the label, small and value fonts (at least 1).
    pub label_font: i32,
    pub small_font: i32,
    pub value_font: i32,
    pub texts: Vec<TextItem>,
    pub fills: Vec<FillItem>,
}

/// A text of the plan as a mathematical value: text, rectangle edges, colour, font.
pub struct TextSpec {
    pub text: Seq<char>,
    pub left: int,
    pub top: int,
    pub right: int,
    pub bottom: int,
    pub color: u32,
    pub font: FontRole,
}

/// A fill of the plan as a mathematical value.
pub struct FillSpec {
    pub left: int,
    pub top: int,
    pub right: int,
    pub bottom: int,
    pub color: u32,
}

pub open spec fn text_at(text: Seq<char>, x: int, y: int, w: int, h: int, color: u32, font: FontRole) -> TextSpec {
    TextSpec { text, left: x, top: y, right: x + w, bottom: y + h, color, font }
}

/// A fill is at least one pixel wide and high.
pub open spec fn fill_at(x: int, y: int, w: int, h: int, color: u32) -> FillSpec {
    FillSpec {
        left: x,
        top: y,
        right: x + if w >= 1 { w } else { 1 },
        bottom: y + if h >= 1 { h } else { 1 },
        color,
    }
}

pub open spec fn at_least_one(v: int) -> int {
    if v >= 1 {
        v
    } else {
        1
    }
}

/// The vertical offset that centres the design height in the client area (never negative).
pub open spec fn y_offset_spec(m: ScaledLengths, client: Bounds) -> int {
    let height = at_least_one(client.bottom - client.top);
    if height >= m.px48 {
        (height - m.px48) / 2
    } else {
        0
    }
}

/// The widget's texts: CODEX and its remaining share, RESET and its countdown
/// on the left; CPU and MEM with their loads on the right.
pub open spec fn texts_spec(m: ScaledLengths, client: Bounds, p: Palette, t: DisplayTexts) -> Seq<TextSpec> {
    let yo = y_offset_spec(m, client);
    seq![
        text_at(seq!['C', 'O', 'D', 'E', 'X'], m.px20 as int, yo + m.px4, m.px48 as int, m.px23 as int, p.label, FontRole::Label),
        text_at(t.codex@, m.px70 as int, yo + m.px4, m.px54 as int, m.px23 as int, p.value, FontRole::Value),
        text_at(seq!['R', 'E', 'S', 'E', 'T'], m.px20 as int, yo + m.px25, m.px36 as int, m.px18 as int, p.secondary, FontRole::Small),
        text_at(t.reset@, m.px57 as int, yo + m.px25, m.px72 as int, m.px18 as int, p.accent, FontRole::Small),
        text_at(seq!['C', 'P', 'U'], m.px155 as int, yo + m.px3, m.px35 as int, m.px22 as int, p.label, FontRole::Label),
        text_at(t.cpu@, m.px190 as int, yo + m.px3, m.px48 as int, m.px22 as int, p.value, FontRole::Value),
        text_at(seq!['M', 'E', 'M'], m.px155 as int, yo + m.px23, m.px35 as int, m.px22 as int, p.label, FontRole::Label),
        text_at(t.memory@, m.px190 as int, yo + m.px23, m.px48 as int, m.px22 as int, p.value, FontRole::Value),
    ]
}

/// The widget's marks: the Codex accent bar, the separator, and the CPU (amber)
/// and memory (violet) bars.
pub open spec fn fills_spec(m: ScaledLengths, client: Bounds, p: Palette) -> Seq<FillSpec> {
    let yo = y_offset_spec(m, client);
    seq![
        fill_at(m.px8 as int, yo + m.px8, m.px3 as int, m.px17 as int, p.accent),
        fill_at(m.px135 as int, yo + m.px6, 1, m.px36 as int, p.separator),
        fill_at(m.px145 as int, yo + m.px7, m.px3 as int, m.px15 as int, rgb_value(245, 185, 30)),
        fill_at(m.px145 as int, yo + m.px27, m.px3 as int, m.px15 as int, rgb_value(155, 104, 232)),
    ]
}

pub open spec fn text_fits(t: TextSpec) -> bool {
    in_i32(t.top) && in_i32(t.right) && in_i32(t.bottom)
}

pub open spec fn fill_fits(f: FillSpec) -> bool {
    in_i32(f.top) && in_i32(f.right) && in_i32(f.bottom)
}

/// Every coordinate of the frame fits in `i32`.
pub open spec fn plan_fits(m: ScaledLengths, client: Bounds, p: Palette, t: DisplayTexts) -> bool {
    &&& in_i32(client.right - client.left)
    &&& in_i32(client.bottom - client.top)
    &&& forall|i: int| 0 <= i < 8 ==> text_fits(#[trigger] texts_spec(m, client, p, t)[i])
    &&& forall|i: int| 0 <= i < 4 ==> fill_fits(#[trigger] fills_spec(m, client, p)[i])
}

pub open spec fn text_item_matches(item: TextItem, s: TextSpec) -> bool {
    &&& item.text@ == s.text
    &&& item.rect.left == s.left && item.rect.top == s.top
    &&& item.rect.right == s.right && item.rect.bottom == s.bottom
    &&& item.color == s.color && item.font == s.font
}

pub open spec fn fill_item_matches(item: FillItem, s: FillSpec) -> bool {
    &&& item.rect.left == s.left && item.rect.top == s.top
    &&& item.rect.right == s.right && item.rect.bottom == s.bottom
    &&& item.color == s.color
}

fn text_item(text: &String, x: i32, y: i64, w: i32, h: i32, color: u32, font: FontRole) -> (item: Option<TextItem>)
    requires
        -0x1_0000_0000 <= y <= 0x1_0000_0000,
    ensures
        item is Some <==> text_fits(text_at(text@, x as int, y as int, w as int, h as int, color, font)),
        item matches Some(it) ==> text_item_matches(it, text_at(text@, x as int, y as int, w as int, h as int, color, font)),
{
    let right: i64 = x as i64 + w as i64;
    let bottom: i64 = y + h as i64;
    if y < i32::MIN as i64 || y > i32::MAX as i64 || right < i32::MIN as i64 || right > i32::MAX as i64
        || bottom < i32::MIN as i64 || bottom > i32::MAX as i64 {
        return None;
    }
    Some(
        TextItem {
            text: text.clone(),
            rect: Bounds { left: x, top: y as i32, right: right as i32, bottom: bottom as i32 },
            color,
            font,
        },
    )
}

fn fill_item(x: i32, y: i64, w: i32, h: i32, color: u32) -> (item: Option<FillItem>)
    requires
        -0x1_0000_0000 <= y <= 0x1_0000_0000,
    ensures
        item is Some <==> fill_fits(fill_at(x as int, y as int, w as int, h as int, color)),
        item matches Some(it) ==> fill_item_matches(it, fill_at(x as int, y as int, w as int, h as int, color)),
{
    let ww: i64 = if w >= 1 { w as i64 } else { 1 };
    let hh: i64 = if h >= 1 { h as i64 } else { 1 };
    let right: i64 = x as i64 + ww;
    let bottom: i64 = y + hh;
    if y < i32::MIN as i64 || y > i32::MAX as i64 || right < i32::MIN as i64 || right > i32::MAX as i64
        || bottom < i32::MIN as i64 || bottom > i32::MAX as i64 {
        return None;
    }
    Some(FillItem { rect: Bounds { left: x, top: y as i32, right: right as i32, bottom: bottom as i32 }, color })
}

fn literal(s: &str) -> (r: String)
    ensures
        r@ == s@,
{
    String::from_str(s)
}

/// The frame the widget paints into a client area of the given rectangle, with
/// the given background and figures. The palette follows the background (dark
/// ink on light). `None` exactly when a coordinate leaves `i32`.
pub fn paint_plan(m: ScaledLengths, client: Bounds, background: u32, t: &DisplayTexts) -> (plan: Option<PaintPlan>)
    requires
        lengths_nonnegative(m),
    ensures
        plan is Some <==> plan_fits(m, client, palette_spec(background), *t),
        plan matches Some(p) ==> {
            &&& p.width == at_least_one(client.right - client.left)
            &&& p.height == at_least_one(client.bottom - client.top)
            &&& p.background == background
            &&& p.label_font == at_least_one(m.px12 as int)
            &&& p.small_font == at_least_one(m.px11 as int)
            &&& p.value_font == at_least_one(m.px12 as int)
            &&& p.texts@.len() == 8
            &&& p.fills@.len() == 4
            &&& forall|i: int| 0 <= i < 8 ==> text_item_matches(#[trigger] p.texts@[i], texts_spec(m, client, palette_spec(background), *t)[i])
            &&& forall|i: int| 0 <= i < 4 ==> fill_item_matches(#[trigger] p.fills@[i], fills_spec(m, client, palette_spec(background))[i])
            &&& p.texts@[0].text@ == seq!['C', 'O', 'D', 'E', 'X'] && p.texts@[1].text@ == t.codex@
            &&& p.texts@[2].text@ == seq!['R', 'E', 'S', 'E', 'T'] && p.texts@[3].text@ == t.reset@
            &&& p.texts@[4].text@ == seq!['C', 'P', 'U'] && p.texts@[5].text@ == t.cpu@
            &&& p.texts@[6].text@ == seq!['M', 'E', 'M'] && p.texts@[7].text@ == t.memory@
            &&& p.texts@[1].rect.top == p.texts@[0].rect.top && p.texts@[3].rect.top == p.texts@[2].rect.top
            &&& p.texts@[5].rect.top == p.texts@[4].rect.top && p.texts@[7].rect.top == p.texts@[6].rect.top
            &&& p.texts@[5].rect.left == p.texts@[7].rect.left && p.texts@[4].rect.left == p.texts@[6].rect.left
        },
{
    let ghost pal = palette_spec(background);
    let ghost ts = texts_spec(m, client, pal, *t);
    let ghost fs = fills_spec(m, client, pal);
    let span_x: i64 = client.right as i64 - client.left as i64;
    let span_y: i64 = client.bottom as i64 - client.top as i64;
    if span_x < i32::MIN as i64 || span_x > i32::MAX as i64 || span_y < i32::MIN as i64 || span_y
        > i32::MAX as i64 {
        return None;
    }
    let width: i64 = if span_x >= 1 { span_x } else { 1 };
    let height: i64 = if span_y >= 1 { span_y } else { 1 };
    let yo: i64 = if height >= m.px48 as i64 { (height - m.px48 as i64) / 2 } else { 0 };
    assert(yo == y_offset_spec(m, client));
    assert(0 <= yo <= 0x8000_0000);
    let p = palette_for(background);
    proof {
        reveal_strlit("CODEX");
        reveal_strlit("RESET");
        reveal_strlit("CPU");
        reveal_strlit("MEM");
    }
    let codex_label = literal("CODEX");
    let reset_label = literal("RESET");
    let cpu_label = literal("CPU");
    let mem_label = literal("MEM");
    assert(codex_label@ =~= seq!['C', 'O', 'D', 'E', 'X']);
    assert(reset_label@ =~= seq!['R', 'E', 'S', 'E', 'T']);
    assert(cpu_label@ =~= seq!['C', 'P', 'U']);
    assert(mem_label@ =~= seq!['M', 'E', 'M']);
    let t0 = text_item(&codex_label, m.px20, yo + m.px4 as i64, m.px48, m.px23, p.label, FontRole::Label);
    let t1 = text_item(&t.codex, m.px70, yo + m.px4 as i64, m.px54, m.px23, p.value, FontRole::Value);
    let t2 = text_item(&reset_label, m.px20, yo + m.px25 as i64, m.px36, m.px18, p.secondary, FontRole::Small);
    let t3 = text_item(&t.reset, m.px57, yo + m.px25 as i64, m.px72, m.px18, p.accent, FontRole::Small);
    let t4 = text_item(&cpu_label, m.px155, yo + m.px3 as i64, m.px35, m.px22, p.label, FontRole::Label);
    let t5 = text_item(&t.cpu, m.px190, yo + m.px3 as i64, m.px48, m.px22, p.value, FontRole::Value);
    let t6 = text_item(&mem_label, m.px155, yo + m.px23 as i64, m.px35, m.px22, p.label, FontRole::Label);
    let t7 = text_item(&t.memory, m.px190, yo + m.px23 as i64, m.px48, m.px22, p.value, FontRole::Value);
    let f0 = fill_item(m.px8, yo + m.px8 as i64, m.px3, m.px17, p.accent);
    let f1 = fill_item(m.px135, yo + m.px6 as i64, 1, m.px36, p.separator);
    let f2 = fill_item(m.px145, yo + m.px7 as i64, m.px3, m.px15, rgb(245, 185, 30));
    let f3 = fill_item(m.px145, yo + m.px27 as i64, m.px3, m.px15, rgb(155, 104, 232));
    assert(ts[0] == text_at(codex_label@, m.px20 as int, yo + m.px4, m.px48 as int, m.px23 as int, p.label, FontRole::Label));
    assert(ts[2] == text_at(reset_label@, m.px20 as int, yo + m.px25, m.px36 as int, m.px18 as int, p.secondary, FontRole::Small));
    assert(ts[4] == text_at(cpu_label@, m.px155 as int, yo + m.px3, m.px35 as int, m.px22 as int, p.label, FontRole::Label));
    assert(ts[6] == text_at(mem_label@, m.px155 as int, yo + m.px23, m.px35 as int, m.px22 as int, p.label, FontRole::Label));
    match (t0, t1, t2, t3, t4, t5, t6, t7, f0, f1, f2, f3) {
        (
            Some(i0),
            Some(i1),
            Some(i2),
            Some(i3),
            Some(i4),
            Some(i5),
            Some(i6),
            Some(i7),
            Some(j0),
            Some(j1),
            Some(j2),
            Some(j3),
        ) => {
            let mut texts: Vec<TextItem> = Vec::new();
            texts.push(i0);
            texts.push(i1);
            texts.push(i2);
            texts.push(i3);
            texts.push(i4);
            texts.push(i5);
            texts.push(i6);
            texts.push(i7);
            let mut fills: Vec<FillItem> = Vec::new();
            fills.push(j0);
            fills.push(j1);
            fills.push(j2);
            fills.push(j3);
            proof {
                assert forall|i: int| 0 <= i < 8 implies text_item_matches(#[trigger] texts@[i], ts[i]) by {
                    assert(0 <= i < 8);
                }
                assert forall|i: int| 0 <= i < 4 implies fill_item_matches(#[trigger] fills@[i], fs[i]) by {
                    assert(0 <= i < 4);
                }
                assert forall|i: int| 0 <= i < 8 implies text_fits(#[trigger] ts[i]) by {
                    assert(0 <= i < 8);
                }
                assert forall|i: int| 0 <= i < 4 implies fill_fits(#[trigger] fs[i]) by {
                    assert(0 <= i < 4);
                }
            }
            let label_font: i32 = if m.px12 >= 1 { m.px12 } else { 1 };
            let small_font: i32 = if m.px11 >= 1 { m.px11 } else { 1 };
            Some(
                PaintPlan {
                    width: width as i32,
                    height: height as i32,
                    background,
                    label_font,
                    small_font,
                    value_font: label_font,
                    texts,
                    fills,
                },
            )
        },
        _ => {
            proof {
                if plan_fits(m, client, pal, *t) {
                    assert(text_fits(ts[0]) && text_fits(ts[1]) && text_fits(ts[2]) && text_fits(ts[3]));
                    assert(text_fits(ts[4]) && text_fits(ts[5]) && text_fits(ts[6]) && text_fits(ts[7]));
                    assert(fill_fits(fs[0]) && fill_fits(fs[1]) && fill_fits(fs[2]) && fill_fits(fs[3]));
                }
            }
            None
        },
    }
}

/// Each figure sits on the row of its label: the Codex share beside CODEX, the
/// countdown beside RESET, the CPU load beside CPU and the memory load beside
/// MEM (same top edge as its label, in the value column).
pub proof fn lemma_figures_beside_labels(m: ScaledLengths, client: Bounds, p: Palette, t: DisplayTexts)
    ensures
        ({
            let ts = texts_spec(m, client, p, t);
            &&& ts[0].text == seq!['C', 'O', 'D', 'E', 'X'] && ts[1].text == t.codex@ && ts[1].top == ts[0].top
            &&& ts[2].text == seq!['R', 'E', 'S', 'E', 'T'] && ts[3].text == t.reset@ && ts[3].top == ts[2].top
            &&& ts[4].text == seq!['C', 'P', 'U'] && ts[5].text == t.cpu@ && ts[5].top == ts[4].top
            &&& ts[6].text == seq!['M', 'E', 'M'] && ts[7].text == t.memory@ && ts[7].top == ts[6].top
            &&& ts[5].left == ts[7].left == m.px190
            &&& ts[4].left == ts[6].left == m.px155
            &&& ts[5].color == p.value && ts[7].color == p.value
        }),
{
}

} // verus!
