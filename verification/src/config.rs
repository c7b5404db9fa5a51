//! The configuration surface of the focused-window indicator. The values
//! only gate what the rendering side does with each delivered state; the
//! pipeline itself is agnostic to them.

use vstd::prelude::*;

verus! {

/// Configuration of the focused-window indicator.
#[derive(Debug, Clone, PartialEq)]
pub struct FocusedModule {
    /// Whether to show the focused window's icon on the bar.
    pub show_icon: bool,
    /// Whether to show the focused window's name on the bar.
    pub show_title: bool,
    /// Icon size in pixels.
    pub icon_size: i32,
    /// Icon theme to use, if not the default one.
    pub icon_theme: Option<String>,
}

/// The icon size used when the configuration names none.
pub fn default_icon_size() -> (size: i32)
    ensures
        size == 32,
{
    32
}

impl Default for FocusedModule {
    /// The configuration used when nothing is set: icon and title both
    /// shown, default icon size, default icon theme.
    fn default() -> (config: Self)
        ensures
            config.show_icon,
            config.show_title,
            config.icon_size == 32,
            config.icon_theme is None,
    {
        FocusedModule { show_icon: true, show_title: true, icon_size: 32, icon_theme: None }
    }
}

} // verus!
