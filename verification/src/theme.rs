//! The colours of the window.
use vstd::prelude::*;

use crate::config::AccentColor;

verus! {

/// A colour and its opacity, none of the parts weighted by another.
#[derive(Debug, Clone, Copy, PartialEq, Eq, Structural)]
pub struct Rgba {
    pub r: u8,
    pub g: u8,
    pub b: u8,
    pub a: u8,
}

/// What something is painted with.
#[derive(Debug, Clone, Copy, PartialEq, Eq, Structural)]
pub enum Paint {
    /// A colour as it is.
    Plain(Rgba),
    /// A colour faded to this many parts of a hundred.
    Faded(Rgba, u8),
}

/// The appearance of the window.
#[derive(Debug, Clone, Copy, PartialEq, Eq, Structural)]
pub enum Theme {
    Light,
    Dark,
}

/// An opaque colour.
pub open spec fn opaque_of(r: u8, g: u8, b: u8) -> Rgba {
    Rgba { r, g, b, a: 255 }
}

/// An opaque colour.
pub fn opaque(r: u8, g: u8, b: u8) -> (c: Rgba)
    ensures
        c == opaque_of(r, g, b),
{
    Rgba { r, g, b, a: 255 }
}

/// The same colour with another opacity.
pub open spec fn with_alpha(c: Rgba, a: u8) -> Rgba {
    Rgba { r: c.r, g: c.g, b: c.b, a }
}

/// White.
pub fn white() -> (c: Rgba)
    ensures
        c == opaque_of(255, 255, 255),
{
    opaque(255, 255, 255)
}

/// Nothing to see.
pub open spec fn transparent() -> Rgba {
    Rgba { r: 0, g: 0, b: 0, a: 0 }
}

/// Nothing to see.
pub fn nothing() -> (c: Rgba)
    ensures
        c == transparent(),
{
    Rgba { r: 0, g: 0, b: 0, a: 0 }
}

/// The green of a success.
pub open spec fn green() -> Rgba {
    opaque_of(52, 199, 89)
}

/// The orange of a wait.
pub open spec fn orange() -> Rgba {
    opaque_of(255, 159, 10)
}

/// The red of a failure.
pub open spec fn red() -> Rgba {
    opaque_of(255, 69, 58)
}

/// The green of a success.
pub fn apple_green() -> (c: Rgba)
    ensures
        c == green(),
{
    opaque(52, 199, 89)
}

/// The orange of a wait.
pub fn apple_orange() -> (c: Rgba)
    ensures
        c == orange(),
{
    opaque(255, 159, 10)
}

/// The red of a failure.
pub fn apple_red() -> (c: Rgba)
    ensures
        c == red(),
{
    opaque(255, 69, 58)
}

/// The colour that an accent stands for.
pub open spec fn accent_of(accent: AccentColor) -> Rgba {
    match accent {
        AccentColor::Blue => opaque_of(10, 132, 255),
        AccentColor::Green => opaque_of(48, 209, 88),
        AccentColor::Orange => opaque_of(255, 159, 10),
        AccentColor::Pink => opaque_of(255, 55, 95),
        AccentColor::Purple => opaque_of(191, 90, 242),
    }
}

/// The colour that an accent stands for.
pub fn accent_color(accent: AccentColor) -> (c: Rgba)
    ensures
        c == accent_of(accent),
{
    match accent {
        AccentColor::Blue => opaque(10, 132, 255),
        AccentColor::Green => opaque(48, 209, 88),
        AccentColor::Orange => opaque(255, 159, 10),
        AccentColor::Pink => opaque(255, 55, 95),
        AccentColor::Purple => opaque(191, 90, 242),
    }
}

/// A colour faded to `dark` parts of a hundred on a dark ground and to `light` parts
/// on a light one.
pub open spec fn faded_by(c: Rgba, dark_mode: bool, dark: u8, light: u8) -> Paint {
    Paint::Faded(
        c,
        if dark_mode {
            dark
        } else {
            light
        },
    )
}

/// Fades a colour by the ground that it stands on.
pub fn fade(c: Rgba, dark_mode: bool, dark: u8, light: u8) -> (p: Paint)
    ensures
        p == faded_by(c, dark_mode, dark, light),
{
    if dark_mode {
        Paint::Faded(c, dark)
    } else {
        Paint::Faded(c, light)
    }
}

/// The soft form of an accent.
pub fn accent_color_soft(accent: AccentColor, dark_mode: bool) -> (p: Paint)
    ensures
        p == faded_by(accent_of(accent), dark_mode, 28, 12),
{
    fade(accent_color(accent), dark_mode, 28, 12)
}

/// The colours of a theme.
#[derive(Debug, Clone, Copy, PartialEq, Eq, Structural)]
pub struct ThemePalette {
    pub accent: Rgba,
    pub bg: Rgba,
    pub card: Rgba,
    pub soft: Rgba,
    pub row: Rgba,
    pub border: Rgba,
    pub text: Rgba,
    pub muted: Rgba,
    pub shadow: Rgba,
    pub glow_a: Rgba,
    pub glow_b: Rgba,
}

/// The colours of a theme with an accent.
pub open spec fn palette_of(theme: Theme, accent: AccentColor) -> ThemePalette {
    let white = opaque_of(255, 255, 255);
    let accent = accent_of(accent);
    match theme {
        Theme::Light => ThemePalette {
            accent,
            bg: opaque_of(242, 244, 248),
            card: with_alpha(white, 244),
            soft: opaque_of(247, 249, 252),
            row: opaque_of(251, 252, 255),
            border: with_alpha(opaque_of(15, 23, 42), 22),
            text: opaque_of(29, 31, 36),
            muted: opaque_of(111, 118, 132),
            shadow: with_alpha(opaque_of(0, 0, 0), 14),
            glow_a: with_alpha(accent, 22),
            glow_b: with_alpha(white, 160),
        },
        Theme::Dark => ThemePalette {
            accent,
            bg: opaque_of(17, 19, 24),
            card: with_alpha(opaque_of(28, 31, 38), 242),
            soft: opaque_of(33, 37, 46),
            row: opaque_of(37, 42, 52),
            border: with_alpha(white, 22),
            text: opaque_of(240, 243, 248),
            muted: opaque_of(154, 160, 173),
            shadow: with_alpha(opaque_of(0, 0, 0), 46),
            glow_a: with_alpha(accent, 34),
            glow_b: with_alpha(white, 18),
        },
    }
}

/// The same colour with another opacity.
pub fn see_through(c: Rgba, a: u8) -> (r: Rgba)
    ensures
        r == with_alpha(c, a),
{
    Rgba { r: c.r, g: c.g, b: c.b, a }
}

/// The colours of a theme with an accent.
pub fn theme_palette(theme: Theme, accent: AccentColor) -> (p: ThemePalette)
    ensures
        p == palette_of(theme, accent),
{
    let accent = accent_color(accent);
    match theme {
        Theme::Light => ThemePalette {
            accent,
            bg: opaque(242, 244, 248),
            card: see_through(white(), 244),
            soft: opaque(247, 249, 252),
            row: opaque(251, 252, 255),
            border: see_through(opaque(15, 23, 42), 22),
            text: opaque(29, 31, 36),
            muted: opaque(111, 118, 132),
            shadow: see_through(opaque(0, 0, 0), 14),
            glow_a: see_through(accent, 22),
            glow_b: see_through(white(), 160),
        },
        Theme::Dark => ThemePalette {
            accent,
            bg: opaque(17, 19, 24),
            card: see_through(opaque(28, 31, 38), 242),
            soft: opaque(33, 37, 46),
            row: opaque(37, 42, 52),
            border: see_through(white(), 22),
            text: opaque(240, 243, 248),
            muted: opaque(154, 160, 173),
            shadow: see_through(opaque(0, 0, 0), 46),
            glow_a: see_through(accent, 34),
            glow_b: see_through(white(), 18),
        },
    }
}

/// The colour of the third glow on the background.
pub fn background_glow(theme: Theme) -> (c: Rgba)
    ensures
        c == with_alpha(
            green(),
            if theme == Theme::Dark {
                26
            } else {
                16
            },
        ),
{
    match theme {
        Theme::Dark => see_through(apple_green(), 26),
        Theme::Light => see_through(apple_green(), 16),
    }
}

/// The colours of a widget in one of its states.
#[derive(Debug, Clone, Copy, PartialEq, Eq, Structural)]
pub struct WidgetColors {
    pub bg_fill: Rgba,
    pub weak_bg_fill: Rgba,
    pub bg_stroke: Rgba,
    pub fg_stroke: Rgba,
}

/// The colours of a theme's style.
#[derive(Debug, Clone, Copy, PartialEq, Eq, Structural)]
pub struct StyleColors {
    pub palette: ThemePalette,
    pub popup_shadow: Paint,
    pub selection_stroke: Rgba,
    pub noninteractive: WidgetColors,
    pub inactive: WidgetColors,
    pub hovered: WidgetColors,
    pub active: WidgetColors,
    pub open: WidgetColors,
}

/// The colours of a theme's style: a widget at rest stands on the row's colour, one
/// under the pointer is outlined in the accent, and a pressed one is filled with it.
pub open spec fn style_of(theme: Theme, accent: AccentColor) -> StyleColors {
    let p = palette_of(theme, accent);
    let noninteractive = WidgetColors {
        bg_fill: p.card,
        weak_bg_fill: p.soft,
        bg_stroke: p.border,
        fg_stroke: p.text,
    };
    let inactive = WidgetColors { bg_fill: p.row, weak_bg_fill: p.row, ..noninteractive };
    let hovered = WidgetColors {
        bg_stroke: with_alpha(
            p.accent,
            if theme == Theme::Dark {
                148
            } else {
                96
            },
        ),
        ..inactive
    };
    let active = WidgetColors {
        bg_fill: p.accent,
        weak_bg_fill: p.accent,
        bg_stroke: p.accent,
        fg_stroke: opaque_of(255, 255, 255),
    };
    StyleColors {
        palette: p,
        popup_shadow: Paint::Faded(p.shadow, 80),
        selection_stroke: opaque_of(255, 255, 255),
        noninteractive,
        inactive,
        hovered,
        active,
        open: hovered,
    }
}

/// The colours of a theme's style.
pub fn build_theme_style(theme: Theme, accent: AccentColor) -> (s: StyleColors)
    ensures
        s == style_of(theme, accent),
{
    let p = theme_palette(theme, accent);
    let rim: u8 = match theme {
        Theme::Dark => 148,
        Theme::Light => 96,
    };
    let hovered = WidgetColors {
        bg_fill: p.row,
        weak_bg_fill: p.row,
        bg_stroke: see_through(p.accent, rim),
        fg_stroke: p.text,
    };
    StyleColors {
        palette: p,
        popup_shadow: Paint::Faded(p.shadow, 80),
        selection_stroke: white(),
        noninteractive: WidgetColors {
            bg_fill: p.card,
            weak_bg_fill: p.soft,
            bg_stroke: p.border,
            fg_stroke: p.text,
        },
        inactive: WidgetColors {
            bg_fill: p.row,
            weak_bg_fill: p.row,
            bg_stroke: p.border,
            fg_stroke: p.text,
        },
        hovered,
        active: WidgetColors {
            bg_fill: p.accent,
            weak_bg_fill: p.accent,
            bg_stroke: p.accent,
            fg_stroke: white(),
        },
        open: hovered,
    }
}

/// The colours of a line of text to edit.
#[derive(Debug, Clone, Copy, PartialEq, Eq, Structural)]
pub struct InputColors {
    pub fill: Rgba,
    pub hover_fill: Rgba,
    pub idle_stroke: Rgba,
    pub hover_stroke: Rgba,
    pub focus_stroke: Rgba,
}

/// The colours of a line of text to edit.
pub fn input_colors(palette: ThemePalette, dark_mode: bool) -> (c: InputColors)
    ensures
        c.focus_stroke == palette.accent,
        dark_mode ==> c.fill == opaque_of(20, 24, 32) && c.hover_fill == opaque_of(24, 29, 38)
            && c.idle_stroke == with_alpha(opaque_of(255, 255, 255), 24) && c.hover_stroke
            == with_alpha(palette.accent, 136),
        !dark_mode ==> c.fill == opaque_of(248, 250, 253) && c.hover_fill == opaque_of(
            252,
            253,
            255,
        ) && c.idle_stroke == with_alpha(opaque_of(15, 23, 42), 22) && c.hover_stroke == with_alpha(
            palette.accent,
            88,
        ),
{
    if dark_mode {
        InputColors {
            fill: opaque(20, 24, 32),
            hover_fill: opaque(24, 29, 38),
            idle_stroke: see_through(white(), 24),
            hover_stroke: see_through(palette.accent, 136),
            focus_stroke: palette.accent,
        }
    } else {
        InputColors {
            fill: opaque(248, 250, 253),
            hover_fill: opaque(252, 253, 255),
            idle_stroke: see_through(opaque(15, 23, 42), 22),
            hover_stroke: see_through(palette.accent, 88),
            focus_stroke: palette.accent,
        }
    }
}

/// The colours of a switch.
#[derive(Debug, Clone, Copy, PartialEq, Eq, Structural)]
pub struct ToggleColors {
    pub track_fill: Rgba,
    pub track_stroke: Rgba,
    pub knob_fill: Rgba,
    pub knob_stroke: Rgba,
}

/// The colours of a switch: green where it is on, outlined under the pointer.
pub fn toggle_colors(on: bool, hovered: bool, dark_mode: bool) -> (c: ToggleColors)
    ensures
        c.track_fill == (if on {
            green()
        } else {
            opaque_of(160, 167, 179)
        }),
        c.track_stroke == (if !hovered {
            transparent()
        } else if dark_mode {
            with_alpha(opaque_of(255, 255, 255), 48)
        } else {
            with_alpha(opaque_of(15, 23, 42), 36)
        }),
        c.knob_fill == opaque_of(255, 255, 255),
        c.knob_stroke == (if dark_mode {
            with_alpha(opaque_of(255, 255, 255), 28)
        } else {
            with_alpha(opaque_of(15, 23, 42), 24)
        }),
{
    let track_fill = if on {
        apple_green()
    } else {
        opaque(160, 167, 179)
    };
    let track_stroke = if !hovered {
        nothing()
    } else if dark_mode {
        see_through(white(), 48)
    } else {
        see_through(opaque(15, 23, 42), 36)
    };
    let knob_stroke = if dark_mode {
        see_through(white(), 28)
    } else {
        see_through(opaque(15, 23, 42), 24)
    };
    ToggleColors { track_fill, track_stroke, knob_fill: white(), knob_stroke }
}

/// The colours of a button.
#[derive(Debug, Clone, Copy, PartialEq, Eq, Structural)]
pub struct ButtonColors {
    pub text: Rgba,
    pub fill: Paint,
    pub stroke: Rgba,
}

/// The colours of a button that is one of several to choose from: the chosen one is
/// white on the accent, the others are as they are at rest.
pub open spec fn choice_colors(
    palette: ThemePalette,
    chosen: bool,
    idle_fill: Rgba,
    idle_stroke: Rgba,
) -> ButtonColors {
    if chosen {
        ButtonColors {
            text: opaque_of(255, 255, 255),
            fill: Paint::Plain(palette.accent),
            stroke: palette.accent,
        }
    } else {
        ButtonColors { text: palette.text, fill: Paint::Plain(idle_fill), stroke: idle_stroke }
    }
}

/// The colours of a tab.
pub fn tab_colors(palette: ThemePalette, chosen: bool) -> (c: ButtonColors)
    ensures
        c == choice_colors(palette, chosen, palette.row, palette.border),
{
    if chosen {
        ButtonColors { text: white(), fill: Paint::Plain(palette.accent), stroke: palette.accent }
    } else {
        ButtonColors {
            text: palette.text,
            fill: Paint::Plain(palette.row),
            stroke: palette.border,
        }
    }
}

/// The colours of one of the choices in a row of them.
pub fn segment_colors(palette: ThemePalette, chosen: bool) -> (c: ButtonColors)
    ensures
        c == choice_colors(palette, chosen, transparent(), transparent()),
{
    if chosen {
        ButtonColors { text: white(), fill: Paint::Plain(palette.accent), stroke: palette.accent }
    } else {
        ButtonColors {
            text: palette.text,
            fill: Paint::Plain(nothing()),
            stroke: nothing(),
        }
    }
}

/// The colours of the button of an accent: filled with it where it is chosen, with
/// its soft form where it is not.
pub fn accent_button_colors(
    palette: ThemePalette,
    accent: AccentColor,
    chosen: bool,
    dark_mode: bool,
) -> (c: ButtonColors)
    ensures
        c == (if chosen {
            ButtonColors {
                text: opaque_of(255, 255, 255),
                fill: Paint::Plain(accent_of(accent)),
                stroke: accent_of(accent),
            }
        } else {
            ButtonColors {
                text: palette.text,
                fill: faded_by(accent_of(accent), dark_mode, 28, 12),
                stroke: palette.border,
            }
        }),
{
    if chosen {
        let color = accent_color(accent);
        ButtonColors { text: white(), fill: Paint::Plain(color), stroke: color }
    } else {
        ButtonColors {
            text: palette.text,
            fill: accent_color_soft(accent, dark_mode),
            stroke: palette.border,
        }
    }
}

/// A theme changes the ground and the text, never the accent.
pub proof fn lemma_accent_outlives_theme(a: Theme, b: Theme, accent: AccentColor)
    ensures
        palette_of(a, accent).accent == palette_of(b, accent).accent,
        style_of(a, accent).active == style_of(b, accent).active,
{
}

/// No two accents have the same colour.
pub proof fn lemma_accents_differ(a: AccentColor, b: AccentColor)
    ensures
        accent_of(a) == accent_of(b) ==> a == b,
{
}

} // verus!
