//! The eight colour themes, cycled by the `t` key.

use vstd::prelude::*;

use crate::app::{App, THEME_COUNT};
use ThemeColor::{
    Black, Blue, Cyan, DarkGray, Gray, Green, LightCyan, LightGreen, LightMagenta, LightYellow,
    Magenta, Rgb, White, Yellow,
};

verus! {

/// A colour of a theme.
#[derive(Clone, Copy, PartialEq, Eq, Debug, Structural)]
pub enum ThemeColor {
    Blue,
    Green,
    Magenta,
    Cyan,
    Yellow,
    Gray,
    DarkGray,
    White,
    Black,
    LightGreen,
    LightMagenta,
    LightCyan,
    LightYellow,
    Rgb(u8, u8, u8),
}

/// A colour theme: its name and the colours of borders, of the selected
/// line, of completed tasks and of accents.
#[derive(Clone, Copy)]
pub struct Theme {
    pub name: &'static str,
    pub border_color: ThemeColor,
    pub selected_bg: ThemeColor,
    pub selected_fg: ThemeColor,
    pub completed_fg: ThemeColor,
    pub accent: ThemeColor,
}

/// The name of theme `i`.
pub open spec fn theme_name(i: int) -> Seq<char> {
    if i == 0 {
        "Classic Blue"@
    } else if i == 1 {
        "Emerald Green"@
    } else if i == 2 {
        "Cyberpunk Magenta"@
    } else if i == 3 {
        "Nordic Ice"@
    } else if i == 4 {
        "Solarized Amber"@
    } else if i == 5 {
        "Dracula Purple"@
    } else if i == 6 {
        "Sunset Coral"@
    } else {
        "Monochrome"@
    }
}

/// The colours of theme `i`: border, selected background, selected text,
/// completed text, accent.
pub open spec fn theme_colors(i: int) -> (ThemeColor, ThemeColor, ThemeColor, ThemeColor, ThemeColor) {
    if i == 0 {
        (ThemeColor::Blue, ThemeColor::Blue, ThemeColor::White, ThemeColor::DarkGray, ThemeColor::Cyan)
    } else if i == 1 {
        (ThemeColor::Green, ThemeColor::Green, ThemeColor::Black, ThemeColor::DarkGray, ThemeColor::LightGreen)
    } else if i == 2 {
        (ThemeColor::Magenta, ThemeColor::Magenta, ThemeColor::Black, ThemeColor::DarkGray, ThemeColor::LightMagenta)
    } else if i == 3 {
        (ThemeColor::Cyan, ThemeColor::Cyan, ThemeColor::Black, ThemeColor::DarkGray, ThemeColor::LightCyan)
    } else if i == 4 {
        (ThemeColor::Yellow, ThemeColor::Yellow, ThemeColor::Black, ThemeColor::DarkGray, ThemeColor::LightYellow)
    } else if i == 5 {
        (
            ThemeColor::Rgb(189, 147, 249),
            ThemeColor::Rgb(189, 147, 249),
            ThemeColor::Black,
            ThemeColor::DarkGray,
            ThemeColor::Rgb(255, 121, 198),
        )
    } else if i == 6 {
        (
            ThemeColor::Rgb(255, 69, 0),
            ThemeColor::Rgb(255, 127, 80),
            ThemeColor::White,
            ThemeColor::DarkGray,
            ThemeColor::Rgb(255, 99, 71),
        )
    } else {
        (ThemeColor::Gray, ThemeColor::White, ThemeColor::Black, ThemeColor::DarkGray, ThemeColor::Gray)
    }
}

/// The colours of a theme, in the order of `theme_colors`.
pub open spec fn colors_of(t: Theme) -> (ThemeColor, ThemeColor, ThemeColor, ThemeColor, ThemeColor) {
    (t.border_color, t.selected_bg, t.selected_fg, t.completed_fg, t.accent)
}

fn make(
    name: &'static str,
    border_color: ThemeColor,
    selected_bg: ThemeColor,
    selected_fg: ThemeColor,
    completed_fg: ThemeColor,
    accent: ThemeColor,
) -> (t: Theme)
    ensures
        t.name@ == name@,
        colors_of(t) == (border_color, selected_bg, selected_fg, completed_fg, accent),
{
    Theme { name, border_color, selected_bg, selected_fg, completed_fg, accent }
}

/// Theme number `i`.
pub fn theme_at(i: usize) -> (t: Theme)
    requires
        i < THEME_COUNT,
    ensures
        t.name@ == theme_name(i as int),
        colors_of(t) == theme_colors(i as int),
{
    if i == 0 {
        make("Classic Blue", Blue, Blue, White, DarkGray, Cyan)
    } else if i == 1 {
        make("Emerald Green", Green, Green, Black, DarkGray, LightGreen)
    } else if i == 2 {
        make("Cyberpunk Magenta", Magenta, Magenta, Black, DarkGray, LightMagenta)
    } else if i == 3 {
        make("Nordic Ice", Cyan, Cyan, Black, DarkGray, LightCyan)
    } else if i == 4 {
        make("Solarized Amber", Yellow, Yellow, Black, DarkGray, LightYellow)
    } else if i == 5 {
        make("Dracula Purple", Rgb(189, 147, 249), Rgb(189, 147, 249), Black, DarkGray, Rgb(255, 121, 198))
    } else if i == 6 {
        make("Sunset Coral", Rgb(255, 69, 0), Rgb(255, 127, 80), White, DarkGray, Rgb(255, 99, 71))
    } else {
        make("Monochrome", Gray, White, Black, DarkGray, Gray)
    }
}

impl App {
    /// The current theme.
    pub fn theme(&self) -> (t: Theme)
        requires
            self.current_theme_index < THEME_COUNT,
        ensures
            t.name@ == theme_name(self.current_theme_index as int),
            colors_of(t) == theme_colors(self.current_theme_index as int),
    {
        theme_at(self.current_theme_index)
    }
}

} // verus!
