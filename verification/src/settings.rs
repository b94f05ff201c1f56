use vstd::prelude::*;

use crate::platform::Platform;

verus! {

/// The user's desktop preferences, as persisted in the settings store and
/// edited by the frontend.
#[derive(Debug, Clone, Copy, PartialEq, Eq, Structural)]
pub struct DesktopSettings {
    /// Closing the last window keeps the app running in the background.
    pub close_to_background_on_close: bool,
    /// Show an icon in the system tray.
    pub show_system_tray_icon: bool,
    /// Draw the app's own title bar instead of the native one.
    pub use_custom_title_bar: bool,
    pub spellcheck: bool,
}

/// What the running shell reports to the frontend about itself.
#[derive(Debug, Clone, PartialEq, Eq)]
pub struct DesktopRuntimeState {
    /// A tray icon was created and can bring the window back.
    pub tray_available: bool,
    /// The registered toggle-window shortcut in web hotkey format, if any.
    pub toggle_window_shortcut: Option<String>,
}

/// The platform's default for drawing a custom title bar: on everywhere but
/// Linux, where the window manager's decorations are kept.
pub open spec fn spec_use_custom_title_bar_default(platform: Platform) -> bool {
    platform != Platform::Linux
}

/// Default for `use_custom_title_bar` when the store holds no value.
pub fn use_custom_title_bar_default(platform: Platform) -> (enabled: bool)
    ensures
        enabled == spec_use_custom_title_bar_default(platform),
{
    match platform {
        Platform::Linux => false,
        _ => true,
    }
}

/// The settings that the store values describe.
///
/// A missing value means enabled, except the title bar, which falls back to
/// the platform default. The legacy "keep running in the background" value,
/// when set to `true`, turns close-to-background on whatever the newer key
/// holds.
pub open spec fn spec_desktop_settings_from_values(
    close_to_background_on_close: Option<bool>,
    show_system_tray_icon: Option<bool>,
    use_custom_title_bar: Option<bool>,
    spellcheck: Option<bool>,
    legacy_keep_background_running: Option<bool>,
    platform: Platform,
) -> DesktopSettings {
    DesktopSettings {
        close_to_background_on_close: legacy_keep_background_running == Some(true)
            || close_to_background_on_close != Some(false),
        show_system_tray_icon: show_system_tray_icon != Some(false),
        use_custom_title_bar: match use_custom_title_bar {
            Some(enabled) => enabled,
            None => spec_use_custom_title_bar_default(platform),
        },
        spellcheck: spellcheck != Some(false),
    }
}

/// Builds the settings from the values read out of the store (`None` where
/// a key is absent or does not hold a boolean).
pub fn desktop_settings_from_values(
    close_to_background_on_close: Option<bool>,
    show_system_tray_icon: Option<bool>,
    use_custom_title_bar: Option<bool>,
    spellcheck: Option<bool>,
    legacy_keep_background_running: Option<bool>,
    platform: Platform,
) -> (settings: DesktopSettings)
    ensures
        settings.close_to_background_on_close == (legacy_keep_background_running == Some(true)
            || close_to_background_on_close != Some(false)),
        settings.show_system_tray_icon == (show_system_tray_icon != Some(false)),
        use_custom_title_bar matches Some(enabled) ==> settings.use_custom_title_bar == enabled,
        use_custom_title_bar is None ==> settings.use_custom_title_bar
            == spec_use_custom_title_bar_default(platform),
        settings.spellcheck == (spellcheck != Some(false)),
        settings == spec_desktop_settings_from_values(
            close_to_background_on_close,
            show_system_tray_icon,
            use_custom_title_bar,
            spellcheck,
            legacy_keep_background_running,
            platform,
        ),
{
    let legacy_on = match legacy_keep_background_running {
        Some(keep) => keep,
        None => false,
    };
    let close_on = match close_to_background_on_close {
        Some(close) => close,
        None => true,
    };
    let title_bar = match use_custom_title_bar {
        Some(enabled) => enabled,
        None => use_custom_title_bar_default(platform),
    };
    DesktopSettings {
        close_to_background_on_close: legacy_on || close_on,
        show_system_tray_icon: match show_system_tray_icon {
            Some(show) => show,
            None => true,
        },
        use_custom_title_bar: title_bar,
        spellcheck: match spellcheck {
            Some(enabled) => enabled,
            None => true,
        },
    }
}

/// Whether this session has a usable tray: the user wants one and it was
/// created.
pub open spec fn spec_tray_available_for_session(settings: DesktopSettings, tray_created: bool) -> bool {
    settings.show_system_tray_icon && tray_created
}

/// Whether the tray can restore the window, given whether creating it
/// succeeded.
pub fn tray_available_for_session(settings: DesktopSettings, tray_created: bool) -> (available: bool)
    ensures
        available == spec_tray_available_for_session(settings, tray_created),
{
    settings.show_system_tray_icon && tray_created
}

} // verus!
