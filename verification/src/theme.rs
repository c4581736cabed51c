//! Colour themes: an eight-colour palette, four fixed presets, and the
//! contrast rule that picks a readable text colour for the settings panel.

use vstd::prelude::*;

verus! {

/// One colour as an RGB triple of 8-bit channels.
#[derive(Clone, Copy, Debug, PartialEq, Eq, Structural)]
pub struct Rgb {
    pub r: u8,
    pub g: u8,
    pub b: u8,
}

/// Builds a colour from its three channels.
pub fn rgb(r: u8, g: u8, b: u8) -> (c: Rgb)
    ensures
        c == (Rgb { r, g, b }),
{
    Rgb { r, g, b }
}

/// A full palette: one colour for each part of the editor's surface.
#[derive(Clone, Copy, Debug, PartialEq, Eq, Structural)]
pub struct Theme {
    pub background_color: Rgb,
    pub text_color: Rgb,
    pub line_number_color: Rgb,
    pub selection_color: Rgb,
    pub cursor_color: Rgb,
    pub border_color: Rgb,
    pub menu_bg_color: Rgb,
    pub button_color: Rgb,
}

/// The classic preset: warm parchment tones. This is the default palette.
pub open spec fn spec_classic_theme() -> Theme {
    Theme {
        background_color: Rgb { r: 245, g: 240, b: 230 },
        text_color: Rgb { r: 40, g: 30, b: 20 },
        line_number_color: Rgb { r: 120, g: 100, b: 80 },
        selection_color: Rgb { r: 180, g: 150, b: 120 },
        cursor_color: Rgb { r: 80, g: 50, b: 30 },
        border_color: Rgb { r: 160, g: 130, b: 100 },
        menu_bg_color: Rgb { r: 235, g: 225, b: 210 },
        button_color: Rgb { r: 200, g: 170, b: 140 },
    }
}

impl Default for Theme {
    /// The classic parchment preset.
    fn default() -> (t: Theme)
        ensures
            t == spec_classic_theme(),
    {
        Theme {
            background_color: Rgb { r: 245, g: 240, b: 230 },
            text_color: Rgb { r: 40, g: 30, b: 20 },
            line_number_color: Rgb { r: 120, g: 100, b: 80 },
            selection_color: Rgb { r: 180, g: 150, b: 120 },
            cursor_color: Rgb { r: 80, g: 50, b: 30 },
            border_color: Rgb { r: 160, g: 130, b: 100 },
            menu_bg_color: Rgb { r: 235, g: 225, b: 210 },
            button_color: Rgb { r: 200, g: 170, b: 140 },
        }
    }
}

impl Theme {
    /// Dark preset: dark wood with cream text.
    pub fn dark_renaissance() -> (t: Theme)
        ensures
            t == (Theme {
                background_color: Rgb { r: 35, g: 30, b: 25 },
                text_color: Rgb { r: 220, g: 210, b: 190 },
                line_number_color: Rgb { r: 140, g: 120, b: 100 },
                selection_color: Rgb { r: 80, g: 60, b: 40 },
                cursor_color: Rgb { r: 200, g: 180, b: 150 },
                border_color: Rgb { r: 100, g: 80, b: 60 },
                menu_bg_color: Rgb { r: 45, g: 40, b: 35 },
                button_color: Rgb { r: 70, g: 60, b: 50 },
            }),
    {
        Theme {
            background_color: Rgb { r: 35, g: 30, b: 25 },
            text_color: Rgb { r: 220, g: 210, b: 190 },
            line_number_color: Rgb { r: 140, g: 120, b: 100 },
            selection_color: Rgb { r: 80, g: 60, b: 40 },
            cursor_color: Rgb { r: 200, g: 180, b: 150 },
            border_color: Rgb { r: 100, g: 80, b: 60 },
            menu_bg_color: Rgb { r: 45, g: 40, b: 35 },
            button_color: Rgb { r: 70, g: 60, b: 50 },
        }
    }

    /// Light blue preset with navy text.
    pub fn royal_blue() -> (t: Theme)
        ensures
            t == (Theme {
                background_color: Rgb { r: 240, g: 245, b: 250 },
                text_color: Rgb { r: 20, g: 30, b: 60 },
                line_number_color: Rgb { r: 80, g: 100, b: 140 },
                selection_color: Rgb { r: 150, g: 170, b: 200 },
                cursor_color: Rgb { r: 40, g: 60, b: 120 },
                border_color: Rgb { r: 120, g: 140, b: 180 },
                menu_bg_color: Rgb { r: 230, g: 235, b: 245 },
                button_color: Rgb { r: 180, g: 200, b: 230 },
            }),
    {
        Theme {
            background_color: Rgb { r: 240, g: 245, b: 250 },
            text_color: Rgb { r: 20, g: 30, b: 60 },
            line_number_color: Rgb { r: 80, g: 100, b: 140 },
            selection_color: Rgb { r: 150, g: 170, b: 200 },
            cursor_color: Rgb { r: 40, g: 60, b: 120 },
            border_color: Rgb { r: 120, g: 140, b: 180 },
            menu_bg_color: Rgb { r: 230, g: 235, b: 245 },
            button_color: Rgb { r: 180, g: 200, b: 230 },
        }
    }

    /// Light green preset with forest-green text.
    pub fn forest_green() -> (t: Theme)
        ensures
            t == (Theme {
                background_color: Rgb { r: 240, g: 245, b: 240 },
                text_color: Rgb { r: 20, g: 40, b: 20 },
                line_number_color: Rgb { r: 80, g: 120, b: 80 },
                selection_color: Rgb { r: 150, g: 180, b: 150 },
                cursor_color: Rgb { r: 40, g: 80, b: 40 },
                border_color: Rgb { r: 120, g: 160, b: 120 },
                menu_bg_color: Rgb { r: 235, g: 245, b: 235 },
                button_color: Rgb { r: 180, g: 210, b: 180 },
            }),
    {
        Theme {
            background_color: Rgb { r: 240, g: 245, b: 240 },
            text_color: Rgb { r: 20, g: 40, b: 20 },
            line_number_color: Rgb { r: 80, g: 120, b: 80 },
            selection_color: Rgb { r: 150, g: 180, b: 150 },
            cursor_color: Rgb { r: 40, g: 80, b: 40 },
            border_color: Rgb { r: 120, g: 160, b: 120 },
            menu_bg_color: Rgb { r: 235, g: 245, b: 235 },
            button_color: Rgb { r: 180, g: 210, b: 180 },
        }
    }

    pub fn background(&self) -> (c: Rgb)
        ensures
            c == self.background_color,
    {
        self.background_color
    }

    pub fn text(&self) -> (c: Rgb)
        ensures
            c == self.text_color,
    {
        self.text_color
    }

    pub fn selection(&self) -> (c: Rgb)
        ensures
            c == self.selection_color,
    {
        self.selection_color
    }

    pub fn cursor(&self) -> (c: Rgb)
        ensures
            c == self.cursor_color,
    {
        self.cursor_color
    }

    pub fn border(&self) -> (c: Rgb)
        ensures
            c == self.border_color,
    {
        self.border_color
    }

    pub fn menu_bg(&self) -> (c: Rgb)
        ensures
            c == self.menu_bg_color,
    {
        self.menu_bg_color
    }

    pub fn button(&self) -> (c: Rgb)
        ensures
            c == self.button_color,
    {
        self.button_color
    }

    /// The text colour that contrasts with the menu background: dark gray on a
    /// light background (every channel above 200), light gray otherwise.
    pub open spec fn spec_settings_text(self) -> Rgb {
        if self.menu_bg_color.r > 200 && self.menu_bg_color.g > 200 && self.menu_bg_color.b > 200 {
            Rgb { r: 60, g: 60, b: 60 }
        } else {
            Rgb { r: 220, g: 220, b: 220 }
        }
    }

    /// Picks a text colour readable against the menu background.
    pub fn settings_text(&self) -> (c: Rgb)
        ensures
            c == self.spec_settings_text(),
    {
        if self.menu_bg_color.r > 200 && self.menu_bg_color.g > 200 && self.menu_bg_color.b > 200 {
            Rgb { r: 60, g: 60, b: 60 }
        } else {
            Rgb { r: 220, g: 220, b: 220 }
        }
    }
}

/// The two font families the text surface distinguishes.
#[derive(Clone, Copy, Debug, PartialEq, Eq, Structural)]
pub enum FontKind {
    Monospace,
    Proportional,
}

/// The family a font name selects: only the name "Proportional" is
/// proportional; every other name, the named monospace fonts included,
/// falls back to monospace.
pub open spec fn spec_font_kind(name: Seq<char>) -> FontKind {
    if name == "Proportional"@ {
        FontKind::Proportional
    } else {
        FontKind::Monospace
    }
}

/// Decides which family a font name selects.
pub fn font_kind(name: &String) -> (k: FontKind)
    ensures
        k == spec_font_kind(name@),
{
    let proportional: String = "Proportional".to_owned();
    if *name == proportional {
        FontKind::Proportional
    } else {
        FontKind::Monospace
    }
}

/// The font families the settings panel offers.
pub fn get_available_fonts() -> (fonts: Vec<String>)
    ensures
        fonts@.len() == 12,
        fonts@[0]@ == "Monospace"@,
        fonts@[1]@ == "Proportional"@,
        fonts@[2]@ == "Consolas"@,
        fonts@[3]@ == "Courier New"@,
        fonts@[4]@ == "Liberation Mono"@,
        fonts@[5]@ == "DejaVu Sans Mono"@,
        fonts@[6]@ == "Ubuntu Mono"@,
        fonts@[7]@ == "Source Code Pro"@,
        fonts@[8]@ == "Fira Code"@,
        fonts@[9]@ == "JetBrains Mono"@,
        fonts@[10]@ == "Cascadia Code"@,
        fonts@[11]@ == "Inconsolata"@,
{
    let mut fonts: Vec<String> = Vec::new();
    fonts.push("Monospace".to_owned());
    fonts.push("Proportional".to_owned());
    fonts.push("Consolas".to_owned());
    fonts.push("Courier New".to_owned());
    fonts.push("Liberation Mono".to_owned());
    fonts.push("DejaVu Sans Mono".to_owned());
    fonts.push("Ubuntu Mono".to_owned());
    fonts.push("Source Code Pro".to_owned());
    fonts.push("Fira Code".to_owned());
    fonts.push("JetBrains Mono".to_owned());
    fonts.push("Cascadia Code".to_owned());
    fonts.push("Inconsolata".to_owned());
    fonts
}

} // verus!
