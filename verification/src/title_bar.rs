use vstd::prelude::*;

use crate::platform::Platform;
use crate::settings::DesktopSettings;

verus! {

/// The macOS title bar styles the window can take.
#[derive(Debug, Clone, Copy, PartialEq, Eq, Structural)]
pub enum MacTitleBarStyle {
    /// The web content draws under a transparent title bar.
    Overlay,
    /// The native title bar is shown.
    Visible,
}

/// How the main window's title bar has to change to follow the settings.
#[derive(Debug, Clone, Copy, PartialEq, Eq, Structural)]
pub enum TitleBarChange {
    /// Turn the native window decorations on or off.
    SetDecorations(bool),
    /// Switch the macOS title bar style.
    SetMacStyle(MacTitleBarStyle),
    /// The platform offers nothing to change.
    Unchanged,
}

/// The title bar change for the settings: with a custom title bar the
/// native one is hidden (decorations off on Windows and Linux, an overlay
/// title bar on macOS), without one it is shown.
pub fn title_bar_change(settings: DesktopSettings, platform: Platform) -> (change: TitleBarChange)
    ensures
        change == (match platform {
            Platform::Windows => TitleBarChange::SetDecorations(!settings.use_custom_title_bar),
            Platform::Linux => TitleBarChange::SetDecorations(!settings.use_custom_title_bar),
            Platform::MacOs => TitleBarChange::SetMacStyle(
                if settings.use_custom_title_bar {
                    MacTitleBarStyle::Overlay
                } else {
                    MacTitleBarStyle::Visible
                },
            ),
            Platform::Other => TitleBarChange::Unchanged,
        }),
{
    match platform {
        Platform::Windows => TitleBarChange::SetDecorations(!settings.use_custom_title_bar),
        Platform::Linux => TitleBarChange::SetDecorations(!settings.use_custom_title_bar),
        Platform::MacOs => {
            if settings.use_custom_title_bar {
                TitleBarChange::SetMacStyle(MacTitleBarStyle::Overlay)
            } else {
                TitleBarChange::SetMacStyle(MacTitleBarStyle::Visible)
            }
        },
        Platform::Other => TitleBarChange::Unchanged,
    }
}

} // verus!
