use vstd::prelude::*;
use crate::theme::WidgetTheme;

verus! {

/// A GDI colour value (`0x00bbggrr`) from its channels.
pub open spec fn rgb_value(red: u8, green: u8, blue: u8) -> u32 {
    (red as int + green as int * 256 + blue as int * 65536) as u32
}

/// Packs three channels into a GDI colour value, red in the low byte.
pub fn rgb(red: u8, green: u8, blue: u8) -> (color: u32)
    ensures
        color == rgb_value(red, green, blue),
{
    let r = red as u32;
    let g = green as u32;
    let b = blue as u32;
    assert((r | (g << 8u32) | (b << 16u32)) == r + g * 256 + b * 65536) by (bit_vector)
        requires
            r < 256,
            g < 256,
            b < 256,
    ;
    r | (g << 8u32) | (b << 16u32)
}

/// The red channel of a GDI colour value.
pub open spec fn red_of(color: u32) -> int {
    color as int % 256
}

/// The green channel of a GDI colour value.
pub open spec fn green_of(color: u32) -> int {
    (color as int / 256) % 256
}

/// The blue channel of a GDI colour value.
pub open spec fn blue_of(color: u32) -> int {
    (color as int / 65536) % 256
}

/// The three channels of a GDI colour value.
pub fn channels(color: u32) -> (c: (u32, u32, u32))
    ensures
        c.0 == red_of(color),
        c.1 == green_of(color),
        c.2 == blue_of(color),
{
    let red = color & 0xff;
    let green = (color >> 8u32) & 0xff;
    let blue = (color >> 16u32) & 0xff;
    assert(color & 0xff == color % 256) by (bit_vector);
    assert((color >> 8u32) & 0xff == (color / 256) % 256) by (bit_vector);
    assert((color >> 16u32) & 0xff == (color / 65536) % 256) by (bit_vector);
    (red, green, blue)
}

/// Packing then reading the channels gives them back.
pub proof fn lemma_rgb_channels(red: u8, green: u8, blue: u8)
    ensures
        red_of(rgb_value(red, green, blue)) == red,
        green_of(rgb_value(red, green, blue)) == green,
        blue_of(rgb_value(red, green, blue)) == blue,
{
    let v = red as int + green as int * 256 + blue as int * 65536;
    assert(0 <= v < 0x1000000);
    assert(v % 256 == red as int) by (nonlinear_arith)
        requires
            v == red as int + green as int * 256 + blue as int * 65536,
            0 <= red < 256,
    ;
    assert(v / 256 == green as int + blue as int * 256) by (nonlinear_arith)
        requires
            v == red as int + green as int * 256 + blue as int * 65536,
            0 <= red < 256,
    ;
    assert((green as int + blue as int * 256) % 256 == green as int) by (nonlinear_arith)
        requires
            0 <= green < 256,
    ;
    assert(v / 65536 == blue as int) by (nonlinear_arith)
        requires
            v == red as int + green as int * 256 + blue as int * 65536,
            0 <= red < 256,
            0 <= green < 256,
            0 <= blue < 256,
    ;
}

/// Perceived brightness of a colour on a 0..=255 scale (ITU-R 601 weights).
pub open spec fn luminance(color: u32) -> int {
    (red_of(color) * 299 + green_of(color) * 587 + blue_of(color) * 114) / 1000
}

/// Whether dark text belongs on this background.
pub open spec fn is_light_spec(color: u32) -> bool {
    luminance(color) >= 145
}

/// Whether a background colour is light enough for dark text.
pub fn is_light_background(color: u32) -> (light: bool)
    ensures
        light == is_light_spec(color),
        light == ((299 * (color as int % 256) + 587 * ((color as int / 256) % 256) + 114 * ((
            color as int / 65536) % 256)) / 1000 >= 145),
{
    let (red, green, blue) = channels(color);
    (red * 299 + green * 587 + blue * 114) / 1000 >= 145
}

/// The widget's own background for a theme, used until the taskbar's colour is known.
pub open spec fn theme_background_spec(theme: WidgetTheme) -> u32 {
    match theme {
        WidgetTheme::Light => rgb_value(235, 238, 242),
        WidgetTheme::Dark => rgb_value(28, 34, 44),
    }
}

/// The colour value that marks "no taskbar colour sampled yet" (and a failed sample).
pub const NO_COLOR: u32 = 0xffff_ffff;

/// The background the widget paints: the last sampled taskbar colour when there
/// is one, else the theme's own.
pub open spec fn background_spec(cached: u32, theme: WidgetTheme) -> u32 {
    if cached != NO_COLOR {
        cached
    } else {
        theme_background_spec(theme)
    }
}

/// The background colour the widget paints.
pub fn background_color(cached: u32, theme: WidgetTheme) -> (color: u32)
    ensures
        color == background_spec(cached, theme),
{
    if cached != NO_COLOR {
        cached
    } else if theme == WidgetTheme::Light {
        rgb(235, 238, 242)
    } else {
        rgb(28, 34, 44)
    }
}

/// The colours the widget draws with over a given background.
#[derive(Clone, Copy, Debug, PartialEq, Eq, Structural)]
pub struct Palette {
    pub label: u32,
    pub value: u32,
    pub secondary: u32,
    pub separator: u32,
    pub accent: u32,
}

/// Dark ink on a light background, light ink on a dark one.
pub open spec fn palette_spec(background: u32) -> Palette {
    if is_light_spec(background) {
        Palette {
            label: rgb_value(44, 52, 66),
            value: rgb_value(17, 24, 39),
            secondary: rgb_value(83, 95, 113),
            separator: rgb_value(154, 164, 178),
            accent: rgb_value(0, 143, 122),
        }
    } else {
        Palette {
            label: rgb_value(215, 224, 237),
            value: rgb_value(247, 249, 252),
            secondary: rgb_value(151, 166, 187),
            separator: rgb_value(55, 67, 83),
            accent: rgb_value(85, 215, 186),
        }
    }
}

/// The palette for a background colour.
pub fn palette_for(background: u32) -> (p: Palette)
    ensures
        p == palette_spec(background),
{
    if is_light_background(background) {
        Palette {
            label: rgb(44, 52, 66),
            value: rgb(17, 24, 39),
            secondary: rgb(83, 95, 113),
            separator: rgb(154, 164, 178),
            accent: rgb(0, 143, 122),
        }
    } else {
        Palette {
            label: rgb(215, 224, 237),
            value: rgb(247, 249, 252),
            secondary: rgb(151, 166, 187),
            separator: rgb(55, 67, 83),
            accent: rgb(85, 215, 186),
        }
    }
}

/// A screen pixel read back as a colour: `None` for the failure value.
pub fn sampled_color(pixel: u32) -> (color: Option<u32>)
    ensures
        color == (if pixel == NO_COLOR { None::<u32> } else { Some(pixel) }),
{
    if pixel == NO_COLOR {
        None
    } else {
        Some(pixel)
    }
}

/// The theme colours follow the theme: the light theme's own background is
/// light, the dark theme's is dark, so the palette contrasts with it.
pub proof fn lemma_theme_backgrounds_contrast()
    ensures
        is_light_spec(theme_background_spec(WidgetTheme::Light)),
        !is_light_spec(theme_background_spec(WidgetTheme::Dark)),
{
    lemma_rgb_channels(235, 238, 242);
    lemma_rgb_channels(28, 34, 44);
}

/// Lightness is judged by the ITU-R 601 luma of the colour: the red channel
/// (the low byte) weighs 299, green 587 and blue 114 per thousand, and a luma of
/// 145 or more counts as light and gets dark ink.
pub proof fn lemma_lightness_is_luma(color: u32)
    ensures
        is_light_spec(color) <==> (299 * (color as int % 256) + 587 * ((color as int / 256) % 256) + 114 * ((
            color as int / 65536) % 256)) / 1000 >= 145,
        is_light_spec(color) ==> palette_spec(color).label == rgb_value(44, 52, 66),
        !is_light_spec(color) ==> palette_spec(color).label == rgb_value(215, 224, 237),
{
}

/// Red, the low byte, carries the weight 299 and blue only 114: a colour
/// without blue whose red and green alone reach a luma of 145 is light.
pub proof fn lemma_red_weighs_more_than_blue(red: u8, green: u8)
    requires
        (299 * red as int + 587 * green as int) / 1000 >= 145,
    ensures
        is_light_spec(rgb_value(red, green, 0)),
{
    lemma_rgb_channels(red, green, 0);
}

} // verus!
