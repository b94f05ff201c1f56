use desktop_tray::{
    persist_toggle_window_shortcut_after, toggle_window_shortcut_to_register,
    desktop_settings_from_values, status_notifier_watcher_name, title_bar_change, tray_action,
    tray_double_click_action, tray_icon_temp_dir, tray_menu_action, tray_preflight,
    use_custom_title_bar_default, DesktopSettings, DesktopSettingsState, ExitRequestAction,
    MacTitleBarStyle, MainWindowVisibility, Platform, TitleBarChange, TrayAction,
    TrayClickAction, TrayMenuAction, TraySetupError, WindowCloseAction,
    STATUS_NOTIFIER_WATCHER, TRAY_MENU_QUIT_ID, TRAY_MENU_SHOW_ID,
};

fn all_on() -> DesktopSettings {
    DesktopSettings {
        close_to_background_on_close: true,
        show_system_tray_icon: true,
        use_custom_title_bar: true,
        spellcheck: true,
    }
}

#[test]
fn title_bar_default_keeps_linux_decorations() {
    assert!(!use_custom_title_bar_default(Platform::Linux));
    assert!(use_custom_title_bar_default(Platform::Windows));
    assert!(use_custom_title_bar_default(Platform::MacOs));
    assert!(use_custom_title_bar_default(Platform::Other));
}

#[test]
fn explicit_close_value_kept_when_legacy_absent() {
    let settings =
        desktop_settings_from_values(Some(false), Some(true), None, Some(false), None, Platform::Linux);
    assert_eq!(
        settings,
        DesktopSettings {
            close_to_background_on_close: false,
            show_system_tray_icon: true,
            use_custom_title_bar: false,
            spellcheck: false,
        }
    );
}

#[test]
fn legacy_off_does_not_turn_close_to_background_off() {
    let settings =
        desktop_settings_from_values(Some(true), None, None, None, Some(false), Platform::Windows);
    assert!(settings.close_to_background_on_close);
    assert!(settings.use_custom_title_bar);
}

#[test]
fn fresh_state_uses_defaults_and_has_no_tray() {
    let state = DesktopSettingsState::for_platform(Platform::Linux);
    assert_eq!(
        state.settings(),
        desktop_settings_from_values(None, None, None, None, None, Platform::Linux)
    );
    let runtime = state.runtime_state();
    assert!(!runtime.tray_available);
    assert_eq!(runtime.toggle_window_shortcut, None);
    assert_eq!(state.toggle_window_shortcut(), None);
    assert_eq!(state.handle_exit_request(None, Platform::Linux), ExitRequestAction::AllowExit);
    assert_eq!(
        state.handle_exit_request(None, Platform::MacOs),
        ExitRequestAction::CloseWindowsToBackground
    );
}

#[test]
fn shortcut_set_is_read_back() {
    let mut state = DesktopSettingsState::for_platform(Platform::Windows);
    state.set_toggle_window_shortcut(Some("mod+shift+s".to_string()));
    assert_eq!(state.toggle_window_shortcut(), Some("mod+shift+s".to_string()));
    assert_eq!(
        state.runtime_state().toggle_window_shortcut,
        Some("mod+shift+s".to_string())
    );
    state.set_toggle_window_shortcut(None);
    assert_eq!(state.toggle_window_shortcut(), None);
}

#[test]
fn settings_stored_are_read_back_and_leave_shortcut() {
    let mut state = DesktopSettingsState::for_platform(Platform::Linux);
    state.set_toggle_window_shortcut(Some("mod+k".to_string()));
    let settings = DesktopSettings {
        close_to_background_on_close: false,
        show_system_tray_icon: false,
        use_custom_title_bar: true,
        spellcheck: false,
    };
    state.store_settings(settings);
    assert_eq!(state.settings(), settings);
    assert_eq!(state.toggle_window_shortcut(), Some("mod+k".to_string()));
}

#[test]
fn failed_shortcut_change_leaves_state_alone() {
    let mut state = DesktopSettingsState::for_platform(Platform::Linux);
    state.set_toggle_window_shortcut(Some("mod+a".to_string()));
    let result = state.commit_toggle_window_shortcut(
        Some("mod+b".to_string()),
        Err("shortcut already taken".to_string()),
        Ok(()),
    );
    assert_eq!(result, Err("shortcut already taken".to_string()));
    assert_eq!(state.toggle_window_shortcut(), Some("mod+a".to_string()));
}

#[test]
fn registered_shortcut_is_recorded_even_when_persisting_fails() {
    let mut state = DesktopSettingsState::for_platform(Platform::Linux);
    state.set_toggle_window_shortcut(Some("mod+a".to_string()));
    let result = state.commit_toggle_window_shortcut(
        Some("mod+b".to_string()),
        Ok(()),
        Err("store unavailable".to_string()),
    );
    assert_eq!(result, Err("store unavailable".to_string()));
    assert_eq!(state.toggle_window_shortcut(), Some("mod+b".to_string()));
}

#[test]
fn committed_shortcut_is_recorded_and_reported() {
    let mut state = DesktopSettingsState::for_platform(Platform::Linux);
    state.store_settings(all_on());
    state.record_tray_outcome(TrayAction::Create, true);
    let runtime = state
        .commit_toggle_window_shortcut(Some("mod+shift+s".to_string()), Ok(()), Ok(()))
        .unwrap();
    assert!(runtime.tray_available);
    assert_eq!(runtime.toggle_window_shortcut, Some("mod+shift+s".to_string()));
    assert_eq!(state.toggle_window_shortcut(), Some("mod+shift+s".to_string()));
    let runtime = state.commit_toggle_window_shortcut(None, Ok(()), Ok(())).unwrap();
    assert_eq!(runtime.toggle_window_shortcut, None);
}

#[test]
fn startup_records_only_an_accepted_shortcut() {
    let mut state = DesktopSettingsState::for_platform(Platform::Windows);
    assert_eq!(state.restore_toggle_window_shortcut(None, Ok(())), None);
    assert_eq!(state.toggle_window_shortcut(), None);
    assert_eq!(
        state.restore_toggle_window_shortcut(Some("mod+j".to_string()), Ok(())),
        None
    );
    assert_eq!(state.toggle_window_shortcut(), Some("mod+j".to_string()));
}

#[test]
fn startup_drops_a_rejected_shortcut() {
    let mut state = DesktopSettingsState::for_platform(Platform::Windows);
    assert_eq!(
        state.restore_toggle_window_shortcut(
            Some("mod+j".to_string()),
            Err("accelerator in use".to_string())
        ),
        Some("accelerator in use".to_string())
    );
    assert_eq!(state.toggle_window_shortcut(), None);
    assert_eq!(state.runtime_state().toggle_window_shortcut, None);
}

#[test]
fn tray_events_set_availability() {
    let mut state = DesktopSettingsState::for_platform(Platform::Linux);
    state.store_settings(all_on());
    state.record_tray_outcome(TrayAction::Create, true);
    assert!(state.runtime_state().tray_available);
    state.record_tray_outcome(TrayAction::Create, false);
    assert!(!state.runtime_state().tray_available);
    state.record_tray_outcome(TrayAction::KeepExisting, false);
    assert!(state.runtime_state().tray_available);
    state.record_tray_outcome(TrayAction::Remove, true);
    assert!(!state.runtime_state().tray_available);
}

#[test]
fn tray_failure_makes_close_and_exit_quit() {
    let mut state = DesktopSettingsState::for_platform(Platform::Linux);
    state.store_settings(all_on());
    state.record_tray_outcome(TrayAction::Create, true);
    assert_eq!(state.window_close_action(Platform::Linux), WindowCloseAction::HideToBackground);
    assert_eq!(
        state.handle_exit_request(None, Platform::Linux),
        ExitRequestAction::CloseWindowsToBackground
    );
    assert_eq!(state.handle_exit_request(Some(0), Platform::Linux), ExitRequestAction::AllowExit);
    state.record_tray_outcome(TrayAction::Create, false);
    assert_eq!(state.window_close_action(Platform::Linux), WindowCloseAction::Close);
    assert_eq!(state.handle_exit_request(None, Platform::Linux), ExitRequestAction::AllowExit);
    assert_eq!(state.window_close_action(Platform::MacOs), WindowCloseAction::HideToBackground);
}

#[test]
fn tray_actions_follow_settings_and_platform() {
    let mut hidden = all_on();
    hidden.show_system_tray_icon = false;
    assert_eq!(tray_action(all_on(), Platform::Linux, false), TrayAction::Create);
    assert_eq!(tray_action(all_on(), Platform::Windows, true), TrayAction::KeepExisting);
    assert_eq!(tray_action(all_on(), Platform::MacOs, false), TrayAction::Remove);
    assert_eq!(tray_action(hidden, Platform::Linux, true), TrayAction::Remove);
}

#[test]
fn tray_preflight_checks_linux_only_in_order() {
    assert_eq!(
        tray_preflight(Platform::Linux, false, false),
        Err(TraySetupError::AppIndicatorMissing)
    );
    assert_eq!(
        tray_preflight(Platform::Linux, true, false),
        Err(TraySetupError::NoStatusNotifierHost)
    );
    assert_eq!(tray_preflight(Platform::Linux, true, true), Ok(()));
    assert_eq!(tray_preflight(Platform::Windows, false, false), Ok(()));
    assert_eq!(tray_preflight(Platform::MacOs, false, false), Ok(()));
}

#[test]
fn tray_setup_errors_explain_themselves() {
    assert_eq!(
        TraySetupError::AppIndicatorMissing.message(),
        "appindicator library not found; skipping system tray"
    );
    assert_eq!(
        TraySetupError::NoStatusNotifierHost.message(),
        "no StatusNotifierWatcher on the session bus; skipping system tray"
    );
}

#[test]
fn tray_menu_entries_map_to_actions() {
    assert_eq!(tray_menu_action(TRAY_MENU_SHOW_ID), TrayMenuAction::ShowMainWindow);
    assert_eq!(tray_menu_action("tray_show"), TrayMenuAction::ShowMainWindow);
    assert_eq!(tray_menu_action(TRAY_MENU_QUIT_ID), TrayMenuAction::Quit);
    assert_eq!(tray_menu_action("tray_quit"), TrayMenuAction::Quit);
    assert_eq!(tray_menu_action("tray_other"), TrayMenuAction::Ignore);
    assert_eq!(tray_menu_action(""), TrayMenuAction::Ignore);
}

#[test]
fn double_click_toggles_the_main_window() {
    assert_eq!(
        tray_double_click_action(MainWindowVisibility::Visible),
        TrayClickAction::CloseMainWindow
    );
    assert_eq!(
        tray_double_click_action(MainWindowVisibility::Hidden),
        TrayClickAction::ShowAndFocusMainWindow
    );
    assert_eq!(
        tray_double_click_action(MainWindowVisibility::Unknown),
        TrayClickAction::ShowAndFocusMainWindow
    );
    assert_eq!(
        tray_double_click_action(MainWindowVisibility::Missing),
        TrayClickAction::ShowOrCreateMainWindow
    );
}

#[test]
fn title_bar_follows_setting_per_platform() {
    let custom = all_on();
    let mut native = all_on();
    native.use_custom_title_bar = false;
    assert_eq!(title_bar_change(custom, Platform::Linux), TitleBarChange::SetDecorations(false));
    assert_eq!(title_bar_change(native, Platform::Windows), TitleBarChange::SetDecorations(true));
    assert_eq!(
        title_bar_change(custom, Platform::MacOs),
        TitleBarChange::SetMacStyle(MacTitleBarStyle::Overlay)
    );
    assert_eq!(
        title_bar_change(native, Platform::MacOs),
        TitleBarChange::SetMacStyle(MacTitleBarStyle::Visible)
    );
    assert_eq!(title_bar_change(custom, Platform::Other), TitleBarChange::Unchanged);
}

#[test]
fn tray_icon_dir_joins_like_a_path() {
    assert_eq!(tray_icon_temp_dir(b"/var/cache/app"), b"/var/cache/app/tray-icon".to_vec());
    assert_eq!(tray_icon_temp_dir(b"/var/cache/app/"), b"/var/cache/app/tray-icon".to_vec());
    assert_eq!(tray_icon_temp_dir(b""), b"tray-icon".to_vec());
    assert_eq!(tray_icon_temp_dir(b"/"), b"/tray-icon".to_vec());
}

#[test]
fn tray_icon_dir_keeps_non_utf8_cache_dir() {
    assert_eq!(
        tray_icon_temp_dir(&[b'/', 0xff, b'c']),
        [b"/\xffc/".as_slice(), b"tray-icon".as_slice()].concat()
    );
}

#[test]
fn shortcut_is_persisted_only_after_registration() {
    assert!(persist_toggle_window_shortcut_after(&Ok(())));
    assert!(!persist_toggle_window_shortcut_after(&Err("accelerator in use".to_string())));
}

#[test]
fn startup_registers_exactly_the_stored_shortcut() {
    assert_eq!(toggle_window_shortcut_to_register(&None), None);
    assert_eq!(
        toggle_window_shortcut_to_register(&Some("mod+shift+s".to_string())),
        Some("mod+shift+s".to_string())
    );
}

#[test]
fn tray_outcome_of_a_kept_icon_needs_the_setting() {
    let mut state = DesktopSettingsState::for_platform(Platform::Linux);
    let mut hidden = all_on();
    hidden.show_system_tray_icon = false;
    state.store_settings(hidden);
    state.record_tray_outcome(TrayAction::KeepExisting, true);
    assert!(!state.runtime_state().tray_available);
}

#[test]
fn watcher_bus_name_is_accepted() {
    let name = status_notifier_watcher_name().expect("the watcher name is a valid bus name");
    assert_eq!(name.as_str(), STATUS_NOTIFIER_WATCHER);
    assert_eq!(name.as_str(), "org.kde.StatusNotifierWatcher");
}
