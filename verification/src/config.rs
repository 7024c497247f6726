//! User preferences that the configurator keeps between runs.

use vstd::prelude::*;

verus! {

/// The colour scheme that the configurator window uses.
#[derive(Debug, Clone, Copy, PartialEq, Eq, Structural)]
pub enum ThemeMode {
    Dark,
    Light,
    System,
}

impl ThemeMode {
    /// The name under which the theme is offered.
    pub fn label(self) -> (label: &'static str)
        ensures
            label@ == match self {
                ThemeMode::Dark => "Dark"@,
                ThemeMode::Light => "Light"@,
                ThemeMode::System => "System"@,
            },
    {
        match self {
            ThemeMode::Dark => "Dark",
            ThemeMode::Light => "Light",
            ThemeMode::System => "System",
        }
    }

    /// The visuals that the theme imposes: dark (`true`) or light (`false`);
    /// none for the system theme, which keeps the window's own.
    pub fn forced_dark_mode(self) -> (dark: Option<bool>)
        ensures
            dark == match self {
                ThemeMode::Dark => Some(true),
                ThemeMode::Light => Some(false),
                ThemeMode::System => None::<bool>,
            },
    {
        match self {
            ThemeMode::Dark => Some(true),
            ThemeMode::Light => Some(false),
            ThemeMode::System => None,
        }
    }
}

/// The preferences stored on disk.
#[derive(Debug)]
pub struct AppConfig {
    pub theme_mode: ThemeMode,
}

impl Default for AppConfig {
    /// Without a stored preference the window follows the system theme.
    fn default() -> (config: Self)
        ensures
            config.theme_mode == ThemeMode::System,
    {
        AppConfig { theme_mode: ThemeMode::System }
    }
}

} // verus!
