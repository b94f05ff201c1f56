use std::path::Path;

use desktop_tray::{
    can_restore_from_background, desktop_settings_from_values, exit_request_action,
    tray_available_for_session, tray_icon_events_supported, tray_icon_temp_dir,
    use_custom_title_bar_default, DesktopRuntimeState, DesktopSettings, ExitRequestAction,
    Platform,
};

const PLATFORMS: [Platform; 4] = [Platform::Linux, Platform::MacOs, Platform::Windows, Platform::Other];

fn tray_up() -> DesktopRuntimeState {
    DesktopRuntimeState {
        tray_available: true,
        toggle_window_shortcut: None,
    }
}

fn no_tray() -> DesktopRuntimeState {
    DesktopRuntimeState {
        tray_available: false,
        toggle_window_shortcut: None,
    }
}

#[test]
fn tray_icon_is_written_under_the_app_cache_dir() {
    // Anywhere but `$XDG_RUNTIME_DIR` so a sandboxed host can read the PNG.
    let cache_dir = Path::new("/home/user/.var/app/moe.sable.client/cache");

    assert_eq!(
        tray_icon_temp_dir(cache_dir.as_os_str().as_encoded_bytes()).as_slice(),
        cache_dir.join("tray-icon").as_os_str().as_encoded_bytes()
    );
}

#[test]
fn close_behavior_keeps_sable_running() {
    let settings = DesktopSettings {
        close_to_background_on_close: true,
        show_system_tray_icon: true,
        use_custom_title_bar: false,
        spellcheck: true,
    };

    for platform in PLATFORMS {
        assert_eq!(
            exit_request_action(settings, tray_up(), None, platform),
            ExitRequestAction::CloseWindowsToBackground
        );
    }
}

#[test]
fn tray_setting_does_not_keep_sable_running_on_its_own() {
    let settings = DesktopSettings {
        show_system_tray_icon: true,
        close_to_background_on_close: false,
        use_custom_title_bar: false,
        spellcheck: true,
    };

    for platform in PLATFORMS {
        assert_eq!(
            exit_request_action(settings, tray_up(), None, platform),
            ExitRequestAction::AllowExit
        );
    }
}

#[test]
fn tray_failure_allows_exit_instead_of_stranding_the_process() {
    let settings = DesktopSettings {
        close_to_background_on_close: true,
        show_system_tray_icon: true,
        use_custom_title_bar: false,
        spellcheck: true,
    };

    assert!(!tray_available_for_session(settings, false));
    for platform in PLATFORMS {
        assert_eq!(
            exit_request_action(settings, no_tray(), None, platform),
            if platform == Platform::MacOs {
                ExitRequestAction::CloseWindowsToBackground
            } else {
                ExitRequestAction::AllowExit
            }
        );
    }
}

#[test]
fn macos_closes_to_background_without_a_tray() {
    for platform in PLATFORMS {
        assert_eq!(
            can_restore_from_background(no_tray(), platform),
            platform == Platform::MacOs
        );
        assert!(can_restore_from_background(tray_up(), platform));
    }
}

#[test]
fn explicit_quit_bypasses_background_mode() {
    let settings = DesktopSettings {
        close_to_background_on_close: true,
        show_system_tray_icon: true,
        use_custom_title_bar: false,
        spellcheck: true,
    };

    for platform in PLATFORMS {
        assert_eq!(
            exit_request_action(settings, tray_up(), Some(0), platform),
            ExitRequestAction::AllowExit
        );
    }
}

#[test]
fn missing_store_values_default_to_enabled() {
    for platform in PLATFORMS {
        assert_eq!(
            desktop_settings_from_values(None, None, None, None, None, platform),
            DesktopSettings {
                close_to_background_on_close: true,
                show_system_tray_icon: true,
                use_custom_title_bar: use_custom_title_bar_default(platform),
                spellcheck: true,
            }
        );
    }
}

#[test]
fn legacy_background_store_value_migrates_to_close_behavior() {
    for platform in PLATFORMS {
        assert_eq!(
            desktop_settings_from_values(
                Some(false),
                Some(false),
                Some(false),
                None,
                Some(true),
                platform
            ),
            DesktopSettings {
                close_to_background_on_close: true,
                show_system_tray_icon: false,
                use_custom_title_bar: false,
                spellcheck: true,
            }
        );
    }
}

#[test]
fn explicit_store_values_are_preserved_when_legacy_background_is_off() {
    for platform in PLATFORMS {
        assert_eq!(
            desktop_settings_from_values(
                Some(false),
                Some(false),
                Some(true),
                None,
                Some(false),
                platform
            ),
            DesktopSettings {
                show_system_tray_icon: false,
                close_to_background_on_close: false,
                use_custom_title_bar: true,
                spellcheck: true,
            }
        );
    }
}

#[test]
fn tray_icon_event_support_matches_platform() {
    for platform in PLATFORMS {
        assert_eq!(tray_icon_events_supported(platform), platform != Platform::Linux);
    }
}
