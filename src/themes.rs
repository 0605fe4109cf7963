//! The site's visual themes and colour modes.
use vstd::prelude::*;

use crate::text::{lower_of, lowercase, same_text};

verus! {

/// A visual theme.
#[derive(PartialEq, Eq, Structural, Debug, Clone, Copy)]
pub enum Theme {
    /// Warm terminal look.
    Terminal,
    /// Industrial look with bold type.
    Forge,
    /// Pixel-art game look.
    Bitart,
}

impl Default for Theme {
    fn default() -> (r: Theme)
        ensures
            r == Theme::Terminal,
    {
        Theme::Terminal
    }
}

impl Theme {
    /// The theme's code, as set on the document.
    pub fn code(&self) -> (r: &'static str)
        ensures
            *self == Theme::Terminal ==> r@ == "terminal"@,
            *self == Theme::Forge ==> r@ == "forge"@,
            *self == Theme::Bitart ==> r@ == "bitart"@,
    {
        match self {
            Theme::Terminal => "terminal",
            Theme::Forge => "forge",
            Theme::Bitart => "bitart",
        }
    }

    /// The theme whose code is `code`, in any case; the terminal theme for any
    /// other text.
    pub fn from_code(code: &str) -> (r: Theme)
        ensures
            r == (if lower_of(code@) == "forge"@ {
                Theme::Forge
            } else if lower_of(code@) == "bitart"@ {
                Theme::Bitart
            } else {
                Theme::Terminal
            }),
    {
        let lower = lowercase(code);
        if same_text(lower.as_str(), "forge") {
            Theme::Forge
        } else if same_text(lower.as_str(), "bitart") {
            Theme::Bitart
        } else {
            Theme::Terminal
        }
    }

    /// The theme after this one, in a cycle through all three.
    pub fn next(&self) -> (r: Theme)
        ensures
            *self == Theme::Terminal ==> r == Theme::Forge,
            *self == Theme::Forge ==> r == Theme::Bitart,
            *self == Theme::Bitart ==> r == Theme::Terminal,
    {
        match self {
            Theme::Terminal => Theme::Forge,
            Theme::Forge => Theme::Bitart,
            Theme::Bitart => Theme::Terminal,
        }
    }

    /// The label of the theme switch.
    pub fn label(&self) -> (r: &'static str)
        ensures
            *self == Theme::Terminal ==> r@ == "TERM"@,
            *self == Theme::Forge ==> r@ == "PRO"@,
            *self == Theme::Bitart ==> r@ == "FUN"@,
    {
        match self {
            Theme::Terminal => "TERM",
            Theme::Forge => "PRO",
            Theme::Bitart => "FUN",
        }
    }

    /// The theme's icon.
    pub fn icon(&self) -> (r: &'static str)
        ensures
            *self == Theme::Terminal ==> r@ == ">_"@,
            *self == Theme::Forge ==> r@ == "⚒"@,
            *self == Theme::Bitart ==> r@ == "🎮"@,
    {
        match self {
            Theme::Terminal => ">_",
            Theme::Forge => "⚒",
            Theme::Bitart => "🎮",
        }
    }
}

/// A colour mode.
#[derive(PartialEq, Eq, Structural, Debug, Clone, Copy)]
pub enum ColorMode {
    Dark,
    Light,
}

impl Default for ColorMode {
    fn default() -> (r: ColorMode)
        ensures
            r == ColorMode::Dark,
    {
        ColorMode::Dark
    }
}

impl ColorMode {
    /// The mode's code, as set on the document.
    pub fn code(&self) -> (r: &'static str)
        ensures
            *self == ColorMode::Dark ==> r@ == "dark"@,
            *self == ColorMode::Light ==> r@ == "light"@,
    {
        match self {
            ColorMode::Dark => "dark",
            ColorMode::Light => "light",
        }
    }

    /// The mode whose code is `code`, in any case; dark for any other text.
    pub fn from_code(code: &str) -> (r: ColorMode)
        ensures
            r == (if lower_of(code@) == "light"@ {
                ColorMode::Light
            } else {
                ColorMode::Dark
            }),
    {
        let lower = lowercase(code);
        if same_text(lower.as_str(), "light") {
            ColorMode::Light
        } else {
            ColorMode::Dark
        }
    }

    /// The other mode.
    pub fn toggle(&self) -> (r: ColorMode)
        ensures
            r != *self,
    {
        match self {
            ColorMode::Dark => ColorMode::Light,
            ColorMode::Light => ColorMode::Dark,
        }
    }

    /// The label of the mode switch.
    pub fn label(&self) -> (r: &'static str)
        ensures
            *self == ColorMode::Dark ==> r@ == "DARK"@,
            *self == ColorMode::Light ==> r@ == "LIGHT"@,
    {
        match self {
            ColorMode::Dark => "DARK",
            ColorMode::Light => "LIGHT",
        }
    }

    /// The mode's icon.
    pub fn icon(&self) -> (r: &'static str)
        ensures
            *self == ColorMode::Dark ==> r@ == "🌙"@,
            *self == ColorMode::Light ==> r@ == "☀️"@,
    {
        match self {
            ColorMode::Dark => "🌙",
            ColorMode::Light => "☀️",
        }
    }
}

} // verus!
