//! Colour themes.
use vstd::prelude::*;

verus! {

/// A terminal colour, as the renderer draws it.
#[derive(Debug, Clone, Copy, PartialEq, Eq, Default)]
pub enum Color {
    #[default]
    Reset,
    Black,
    Red,
    Green,
    Yellow,
    Blue,
    Magenta,
    Cyan,
    Gray,
    DarkGray,
    LightRed,
    LightGreen,
    LightYellow,
    LightBlue,
    LightMagenta,
    LightCyan,
    White,
    Rgb(u8, u8, u8),
    Indexed(u8),
}

/// The colours that the interface draws with.
#[derive(Debug, Clone, Copy, PartialEq, Eq, Default)]
pub struct ThemeColors {
    pub primary: Color,
    pub secondary: Color,
    pub accent: Color,
    pub artist: Color,
    pub album: Color,
    pub song: Color,
    pub muted: Color,
    pub highlight_bg: Color,
    pub highlight_fg: Color,
    pub success: Color,
    pub error: Color,
    pub playing: Color,
    pub played: Color,
    pub border_focused: Color,
    pub border_unfocused: Color,
}

/// A named theme: its colours and the colour gradients of the visualizer.
#[derive(Debug, Clone, PartialEq, Default)]
pub struct ThemeData {
    pub name: String,
    pub colors: ThemeColors,
    pub cava_gradient: Vec<String>,
    pub cava_horizontal_gradient: Vec<String>,
}

/// The colours of the built-in "Default" theme.
pub open spec fn default_colors() -> ThemeColors {
    ThemeColors {
        primary: Color::White,
        secondary: Color::DarkGray,
        accent: Color::Cyan,
        artist: Color::White,
        album: Color::White,
        song: Color::White,
        muted: Color::Gray,
        highlight_bg: Color::Black,
        highlight_fg: Color::White,
        success: Color::Green,
        error: Color::Red,
        playing: Color::Yellow,
        played: Color::Gray,
        border_focused: Color::Cyan,
        border_unfocused: Color::DarkGray,
    }
}

impl ThemeData {
    /// The built-in "Default" theme, with no visualizer gradients of its own.
    pub fn default_theme() -> (r: ThemeData)
        ensures
            r.name@ == "Default"@,
            r.colors == default_colors(),
            r.cava_gradient@.len() == 0,
            r.cava_horizontal_gradient@.len() == 0,
    {
        ThemeData {
            name: "Default".to_owned(),
            colors: ThemeColors {
                primary: Color::White,
                secondary: Color::DarkGray,
                accent: Color::Cyan,
                artist: Color::White,
                album: Color::White,
                song: Color::White,
                muted: Color::Gray,
                highlight_bg: Color::Black,
                highlight_fg: Color::White,
                success: Color::Green,
                error: Color::Red,
                playing: Color::Yellow,
                played: Color::Gray,
                border_focused: Color::Cyan,
                border_unfocused: Color::DarkGray,
            },
            cava_gradient: Vec::new(),
            cava_horizontal_gradient: Vec::new(),
        }
    }
}

} // verus!
