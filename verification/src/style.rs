//! The colour themes and the places in the interface that are styled.
use vstd::prelude::*;

verus! {

/// The style of transparent elements.
#[derive(Debug, Copy, Clone, Eq, PartialEq, Structural)]
pub enum TransparentStyle {
    Light,
    Dark,
}

/// The style of the settings bar.
#[derive(Debug, Copy, Clone, Eq, PartialEq, Structural)]
pub enum SettingsBarStyle {
    Light,
    Dark,
}

/// The style of the tab buttons.
#[derive(Debug, Copy, Clone, Eq, PartialEq, Structural)]
pub enum TabButtonStyle {
    Light,
    Dark,
}

/// The colour theme: dark unless chosen otherwise.
#[derive(Debug, Copy, Clone, Eq, PartialEq, Structural)]
pub enum Theme {
    Dark,
    Light,
}

/// The style of rows that alternate in colour: the theme, whether this row
/// is one of the alternate ones, and whether it lights up under the mouse.
#[derive(Debug, Copy, Clone, Eq, PartialEq, Structural)]
pub struct AlternatingStyle {
    pub style: Theme,
    pub alt: bool,
    pub highlight: bool,
}

/// Where in the interface an element stands, which decides its colours.
#[derive(Debug, Copy, Clone, Eq, PartialEq, Structural)]
pub enum Location {
    Default,
    Transparent,
    SettingsBar,
    Alternating { idx: usize, highlight: bool },
    AdvancedSearch { enabled: bool },
    Tooltip,
}

impl Theme {
    /// The dark theme.
    pub fn new() -> (r: Theme)
        ensures
            r == Theme::Dark,
    {
        Theme::Dark
    }

    /// The settings bar's style in this theme.
    pub fn settings_bar(self) -> (r: SettingsBarStyle)
        ensures
            r == match self {
                Theme::Light => SettingsBarStyle::Light,
                Theme::Dark => SettingsBarStyle::Dark,
            },
    {
        match self {
            Theme::Light => SettingsBarStyle::Light,
            Theme::Dark => SettingsBarStyle::Dark,
        }
    }

    /// The tab buttons' style in this theme.
    pub fn tab_button(self) -> (r: TabButtonStyle)
        ensures
            r == match self {
                Theme::Light => TabButtonStyle::Light,
                Theme::Dark => TabButtonStyle::Dark,
            },
    {
        match self {
            Theme::Light => TabButtonStyle::Light,
            Theme::Dark => TabButtonStyle::Dark,
        }
    }

    /// Transparent elements are light in either theme.
    pub fn transparent(self) -> (r: TransparentStyle)
        ensures
            r == TransparentStyle::Light,
    {
        TransparentStyle::Light
    }

    /// The style of row `n` of an alternating list: even rows are the
    /// alternate ones, and rows light up under the mouse.
    pub fn alternating(self, n: usize) -> (r: AlternatingStyle)
        ensures
            r == (AlternatingStyle { style: self, alt: n % 2 == 0, highlight: true }),
    {
        AlternatingStyle { style: self, alt: n % 2 == 0, highlight: true }
    }

    /// The style of a background: an alternate row that does not light up.
    pub fn background(self) -> (r: AlternatingStyle)
        ensures
            r == (AlternatingStyle { style: self, alt: true, highlight: false }),
    {
        AlternatingStyle { style: self, alt: true, highlight: false }
    }

    /// The other theme.
    pub fn not(self) -> (r: Theme)
        ensures
            r != self,
    {
        match self {
            Theme::Light => Theme::Dark,
            Theme::Dark => Theme::Light,
        }
    }

    /// The theme's name: `Light` or `Dark`.
    pub fn to_string(&self) -> (r: String)
        ensures
            r@ == match self {
                Theme::Light => "Light"@,
                Theme::Dark => "Dark"@,
            },
    {
        match self {
            Theme::Light => String::from_str("Light"),
            Theme::Dark => String::from_str("Dark"),
        }
    }
}

impl AlternatingStyle {
    /// The same style, not lighting up under the mouse.
    pub fn no_highlight(self) -> (r: AlternatingStyle)
        ensures
            r == (AlternatingStyle { highlight: false, ..self }),
    {
        AlternatingStyle { highlight: false, ..self }
    }
}

} // verus!
