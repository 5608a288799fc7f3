//! Strongly-typed daemon configuration.

use vstd::prelude::*;

verus! {

/// Configuration read from the user's TOML file.
#[derive(Debug, Clone)]
pub struct Config {
    /// Width of the notification popup in pixels.
    pub width: u32,
    /// Seconds before a notification auto-dismisses.
    pub timeout_seconds: u32,
    /// Background color (hex, e.g. `"#0D0B14E6"`).
    pub background_color: String,
    /// Border color (hex).
    pub border_color: String,
    /// Border width in pixels (`0` disables the border entirely).
    pub border_width: u32,
    /// Text color (hex).
    pub text_color: String,
    /// Corner radius in pixels.
    pub corner_radius: u32,
    /// Font family name.
    pub font_family: String,
    /// Maximum notifications visible at once; extras are queued.
    pub max_visible_notifications: u32,
}

/// Border width used when the configuration file names none.
pub fn default_border_width() -> (w: u32)
    ensures
        w == 1,
{
    1
}

} // verus!
