//! Decision logic of a desktop shell's tray icon and close-to-background
//! behaviour: which settings apply, whether closing the last window hides it
//! or quits, what the tray should do, and what shared state the shell keeps.
//!
//! Everything here works on plain values. The surrounding application reads
//! the settings store, talks to the windowing toolkit and probes the session
//! bus, and hands the results to these functions.

pub mod platform;
pub mod policy;
pub mod session_bus;
pub mod settings;
pub mod state;
pub mod title_bar;
pub mod tray;

pub use platform::{tray_icon_events_supported, Platform};
pub use policy::{can_restore_from_background, exit_request_action, ExitRequestAction, WindowCloseAction};
pub use session_bus::{status_notifier_watcher_name, STATUS_NOTIFIER_WATCHER};
pub use settings::{
    desktop_settings_from_values, tray_available_for_session, use_custom_title_bar_default,
    DesktopRuntimeState, DesktopSettings,
};
pub use state::{
    persist_toggle_window_shortcut_after, toggle_window_shortcut_to_register, DesktopSettingsState,
    DesktopStateView,
};
pub use title_bar::{title_bar_change, MacTitleBarStyle, TitleBarChange};
pub use tray::{
    tray_action, tray_double_click_action, tray_icon_temp_dir, tray_menu_action, tray_preflight,
    MainWindowVisibility, TrayAction, TrayClickAction, TrayMenuAction, TraySetupError,
    MAIN_TRAY_ID, TRAY_MENU_QUIT_ID, TRAY_MENU_SHOW_ID, WINDOW_HIDDEN_TO_TRAY_EVENT,
};
