//! Colour themes of the terminal interface.

use vstd::prelude::*;

verus! {

/// Available themes.
#[derive(Debug, Clone, Copy, PartialEq, Eq, Structural)]
pub enum ThemeName {
    Default,
    Nord,
    Gruvbox,
    Dracula,
}

impl ThemeName {
    pub fn all() -> (r: &'static [ThemeName])
        ensures
            r@ == seq![ThemeName::Default, ThemeName::Nord, ThemeName::Gruvbox, ThemeName::Dracula],
    {
        &[ThemeName::Default, ThemeName::Nord, ThemeName::Gruvbox, ThemeName::Dracula]
    }

    pub fn label(&self) -> (r: &'static str)
        ensures
            r@ == match *self {
                ThemeName::Default => "Default"@,
                ThemeName::Nord => "Nord"@,
                ThemeName::Gruvbox => "Gruvbox"@,
                ThemeName::Dracula => "Dracula"@,
            },
    {
        match self {
            ThemeName::Default => "Default",
            ThemeName::Nord => "Nord",
            ThemeName::Gruvbox => "Gruvbox",
            ThemeName::Dracula => "Dracula",
        }
    }
}

impl Default for ThemeName {
    fn default() -> (r: Self)
        ensures
            r == ThemeName::Default,
    {
        ThemeName::Default
    }
}

/// A terminal colour.
#[derive(Debug, Clone, Copy, PartialEq, Eq, Structural)]
pub enum Color {
    Rgb(u8, u8, u8),
    DarkGray,
    White,
    Black,
    Reset,
}

/// A text style: foreground, background, and whether it is bold.
#[derive(Debug, Clone, Copy, PartialEq, Eq, Structural)]
pub struct StyleSpec {
    pub fg: Option<Color>,
    pub bg: Option<Color>,
    pub bold: bool,
}

/// A complete color palette for the TUI.
#[derive(Debug, Clone, Copy, PartialEq, Eq, Structural)]
pub struct ThemePalette {
    pub accent: Color,
    pub success: Color,
    pub warn: Color,
    pub error: Color,
    pub dim: Color,
    pub text: Color,
    pub bg: Color,
    pub highlight_fg: Color,
    pub highlight_bg: Color,
}

pub open spec fn spec_palette(name: ThemeName) -> ThemePalette {
    match name {
        ThemeName::Default => ThemePalette {
            accent: Color::Rgb(100, 200, 255),
            success: Color::Rgb(100, 255, 150),
            warn: Color::Rgb(255, 200, 80),
            error: Color::Rgb(255, 100, 100),
            dim: Color::DarkGray,
            text: Color::White,
            bg: Color::Reset,
            highlight_fg: Color::Black,
            highlight_bg: Color::Rgb(100, 200, 255),
        },
        ThemeName::Nord => ThemePalette {
            accent: Color::Rgb(136, 192, 208),
            success: Color::Rgb(163, 190, 140),
            warn: Color::Rgb(235, 203, 139),
            error: Color::Rgb(191, 97, 106),
            dim: Color::Rgb(76, 86, 106),
            text: Color::Rgb(216, 222, 233),
            bg: Color::Rgb(46, 52, 64),
            highlight_fg: Color::Rgb(46, 52, 64),
            highlight_bg: Color::Rgb(136, 192, 208),
        },
        ThemeName::Gruvbox => ThemePalette {
            accent: Color::Rgb(131, 165, 152),
            success: Color::Rgb(184, 187, 38),
            warn: Color::Rgb(250, 189, 47),
            error: Color::Rgb(251, 73, 52),
            dim: Color::Rgb(146, 131, 116),
            text: Color::Rgb(235, 219, 178),
            bg: Color::Rgb(40, 40, 40),
            highlight_fg: Color::Rgb(40, 40, 40),
            highlight_bg: Color::Rgb(131, 165, 152),
        },
        ThemeName::Dracula => ThemePalette {
            accent: Color::Rgb(139, 233, 253),
            success: Color::Rgb(80, 250, 123),
            warn: Color::Rgb(241, 250, 140),
            error: Color::Rgb(255, 85, 85),
            dim: Color::Rgb(98, 114, 164),
            text: Color::Rgb(248, 248, 242),
            bg: Color::Rgb(40, 42, 54),
            highlight_fg: Color::Rgb(40, 42, 54),
            highlight_bg: Color::Rgb(139, 233, 253),
        },
    }
}

impl ThemePalette {
    pub fn from_name(name: ThemeName) -> (r: Self)
        ensures
            r == spec_palette(name),
    {
        match name {
            ThemeName::Default => Self::default_theme(),
            ThemeName::Nord => Self::nord(),
            ThemeName::Gruvbox => Self::gruvbox(),
            ThemeName::Dracula => Self::dracula(),
        }
    }

    fn default_theme() -> (r: Self)
        ensures
            r == spec_palette(ThemeName::Default),
    {
        ThemePalette {
            accent: Color::Rgb(100, 200, 255),
            success: Color::Rgb(100, 255, 150),
            warn: Color::Rgb(255, 200, 80),
            error: Color::Rgb(255, 100, 100),
            dim: Color::DarkGray,
            text: Color::White,
            bg: Color::Reset,
            highlight_fg: Color::Black,
            highlight_bg: Color::Rgb(100, 200, 255),
        }
    }

    fn nord() -> (r: Self)
        ensures
            r == spec_palette(ThemeName::Nord),
    {
        ThemePalette {
            accent: Color::Rgb(136, 192, 208),  // Nord8 - frost
            success: Color::Rgb(163, 190, 140),  // Nord14 - aurora green
            warn: Color::Rgb(235, 203, 139),  // Nord13 - aurora yellow
            error: Color::Rgb(191, 97, 106),  // Nord11 - aurora red
            dim: Color::Rgb(76, 86, 106),  // Nord3
            text: Color::Rgb(216, 222, 233),  // Nord4 - snow storm
            bg: Color::Rgb(46, 52, 64),  // Nord0 - polar night
            highlight_fg: Color::Rgb(46, 52, 64),  // Nord0
            highlight_bg: Color::Rgb(136, 192, 208),  // Nord8
        }
    }

    fn gruvbox() -> (r: Self)
        ensures
            r == spec_palette(ThemeName::Gruvbox),
    {
        ThemePalette {
            accent: Color::Rgb(131, 165, 152),  // aqua
            success: Color::Rgb(184, 187, 38),  // green
            warn: Color::Rgb(250, 189, 47),  // yellow
            error: Color::Rgb(251, 73, 52),  // red
            dim: Color::Rgb(146, 131, 116),  // gray
            text: Color::Rgb(235, 219, 178),  // fg
            bg: Color::Rgb(40, 40, 40),  // bg
            highlight_fg: Color::Rgb(40, 40, 40),  // bg
            highlight_bg: Color::Rgb(131, 165, 152),  // aqua
        }
    }

    fn dracula() -> (r: Self)
        ensures
            r == spec_palette(ThemeName::Dracula),
    {
        ThemePalette {
            accent: Color::Rgb(139, 233, 253),  // cyan
            success: Color::Rgb(80, 250, 123),  // green
            warn: Color::Rgb(241, 250, 140),  // yellow
            error: Color::Rgb(255, 85, 85),  // red
            dim: Color::Rgb(98, 114, 164),  // comment
            text: Color::Rgb(248, 248, 242),  // fg
            bg: Color::Rgb(40, 42, 54),  // bg
            highlight_fg: Color::Rgb(40, 42, 54),  // bg
            highlight_bg: Color::Rgb(139, 233, 253),  // cyan
        }
    }

    // Style helpers
    pub fn title(&self) -> (r: StyleSpec)
        ensures
            r == (StyleSpec { fg: Some(self.accent), bg: None, bold: true }),
    {
        StyleSpec { fg: Some(self.accent), bg: None, bold: true }
    }

    pub fn highlight(&self) -> (r: StyleSpec)
        ensures
            r == (StyleSpec { fg: Some(self.highlight_fg), bg: Some(self.highlight_bg), bold: true }),
    {
        StyleSpec { fg: Some(self.highlight_fg), bg: Some(self.highlight_bg), bold: true }
    }

    pub fn success_style(&self) -> (r: StyleSpec)
        ensures
            r == (StyleSpec { fg: Some(self.success), bg: None, bold: true }),
    {
        StyleSpec { fg: Some(self.success), bg: None, bold: true }
    }

    pub fn warn_style(&self) -> (r: StyleSpec)
        ensures
            r == (StyleSpec { fg: Some(self.warn), bg: None, bold: false }),
    {
        StyleSpec { fg: Some(self.warn), bg: None, bold: false }
    }

    pub fn error_style(&self) -> (r: StyleSpec)
        ensures
            r == (StyleSpec { fg: Some(self.error), bg: None, bold: true }),
    {
        StyleSpec { fg: Some(self.error), bg: None, bold: true }
    }

    pub fn dim_style(&self) -> (r: StyleSpec)
        ensures
            r == (StyleSpec { fg: Some(self.dim), bg: None, bold: false }),
    {
        StyleSpec { fg: Some(self.dim), bg: None, bold: false }
    }

    pub fn normal_style(&self) -> (r: StyleSpec)
        ensures
            r == (StyleSpec { fg: Some(self.text), bg: None, bold: false }),
    {
        StyleSpec { fg: Some(self.text), bg: None, bold: false }
    }
}

/// In every theme the accent colour differs from the error colour.
pub proof fn lemma_accent_differs_from_error(name: ThemeName)
    ensures
        spec_palette(name).accent != spec_palette(name).error,
{
}

} // verus!
