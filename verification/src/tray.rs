use vstd::prelude::*;

use vstd::string::StringSliceAdditionalSpecFns;

use crate::platform::Platform;
use crate::settings::{spec_tray_available_for_session, tray_available_for_session, DesktopSettings};

verus! {

/// Identifier of the application's single tray icon.
pub const MAIN_TRAY_ID: &'static str = "main";

/// Event sent to the webview when its window is hidden to the background.
pub const WINDOW_HIDDEN_TO_TRAY_EVENT: &'static str = "window-hidden-to-tray";

/// Menu item identifier of the tray's "Show" entry.
pub const TRAY_MENU_SHOW_ID: &'static str = "tray_show";

/// Menu item identifier of the tray's "Quit" entry.
pub const TRAY_MENU_QUIT_ID: &'static str = "tray_quit";

/// What to do with the tray icon when settings are applied.
#[derive(Debug, Clone, Copy, PartialEq, Eq, Structural)]
pub enum TrayAction {
    /// A tray icon already exists and is wanted: keep it.
    KeepExisting,
    /// A tray icon is wanted and none exists: create one.
    Create,
    /// No tray icon is wanted (or the platform uses the dock): remove it.
    Remove,
}

/// A tray icon is wanted when the user asked for one, except on macOS,
/// where the dock restores the app.
pub open spec fn spec_tray_action(
    settings: DesktopSettings,
    platform: Platform,
    tray_exists: bool,
) -> TrayAction {
    if settings.show_system_tray_icon && platform != Platform::MacOs {
        if tray_exists {
            TrayAction::KeepExisting
        } else {
            TrayAction::Create
        }
    } else {
        TrayAction::Remove
    }
}

/// Decides what to do with the tray icon for the given settings.
pub fn tray_action(settings: DesktopSettings, platform: Platform, tray_exists: bool) -> (action:
    TrayAction)
    ensures
        action == spec_tray_action(settings, platform, tray_exists),
        (action == TrayAction::Remove) <==> (!settings.show_system_tray_icon || platform
            == Platform::MacOs),
        action == TrayAction::Create ==> !tray_exists,
        action == TrayAction::KeepExisting ==> tray_exists,
{
    let dock_platform = match platform {
        Platform::MacOs => true,
        _ => false,
    };
    if settings.show_system_tray_icon && !dock_platform {
        if tray_exists {
            TrayAction::KeepExisting
        } else {
            TrayAction::Create
        }
    } else {
        TrayAction::Remove
    }
}

/// Law: a tray icon is kept or created only when the user wants one and
/// the platform is not macOS; otherwise it is removed. A new icon is
/// created only where none exists, and an existing one is kept rather than
/// created again.
pub proof fn lemma_tray_only_when_wanted(
    settings: DesktopSettings,
    platform: Platform,
    tray_exists: bool,
)
    ensures
        !settings.show_system_tray_icon ==> spec_tray_action(settings, platform, tray_exists)
            == TrayAction::Remove,
        platform == Platform::MacOs ==> spec_tray_action(settings, platform, tray_exists)
            == TrayAction::Remove,
        settings.show_system_tray_icon && platform != Platform::MacOs ==> (if tray_exists {
            spec_tray_action(settings, platform, tray_exists) == TrayAction::KeepExisting
        } else {
            spec_tray_action(settings, platform, tray_exists) == TrayAction::Create
        }),
{
}

/// Whether the tray can restore the window once `action` was carried out;
/// `created` tells whether creating the icon succeeded and matters only for
/// [`TrayAction::Create`].
pub open spec fn spec_tray_available_after(
    settings: DesktopSettings,
    action: TrayAction,
    created: bool,
) -> bool {
    match action {
        TrayAction::KeepExisting => spec_tray_available_for_session(settings, true),
        TrayAction::Create => spec_tray_available_for_session(settings, created),
        TrayAction::Remove => false,
    }
}

/// Whether the tray can restore the window once `action` was carried out.
pub fn tray_available_after(settings: DesktopSettings, action: TrayAction, created: bool) -> (available: bool)
    ensures
        available == spec_tray_available_after(settings, action, created),
        available == (settings.show_system_tray_icon && (action == TrayAction::KeepExisting || (
        action == TrayAction::Create && created))),
{
    match action {
        TrayAction::KeepExisting => tray_available_for_session(settings, true),
        TrayAction::Create => tray_available_for_session(settings, created),
        TrayAction::Remove => false,
    }
}

/// Law: once the tray action that the settings call for was carried out,
/// the tray is reported usable exactly when the user wants a tray, the
/// platform is not macOS, and an icon is really there (it existed, or it
/// was created).
pub proof fn lemma_tray_available_only_when_present(
    settings: DesktopSettings,
    platform: Platform,
    tray_exists: bool,
    created: bool,
)
    ensures
        spec_tray_available_after(settings, spec_tray_action(settings, platform, tray_exists), created)
            <==> (settings.show_system_tray_icon && platform != Platform::MacOs && (tray_exists
            || created)),
{
}

/// Why a tray icon cannot be set up in this session.
#[derive(Debug, Clone, Copy, PartialEq, Eq, Structural)]
pub enum TraySetupError {
    /// No appindicator library can be loaded; creating the icon would abort
    /// the process instead of failing.
    AppIndicatorMissing,
    /// No StatusNotifierItem host runs on the session bus; the icon would be
    /// created but never shown.
    NoStatusNotifierHost,
}

impl TraySetupError {
    /// The message that reports the error.
    pub fn message(&self) -> (text: &'static str)
        ensures
            *self == TraySetupError::AppIndicatorMissing ==> text@
                == "appindicator library not found; skipping system tray"@,
            *self == TraySetupError::NoStatusNotifierHost ==> text@
                == "no StatusNotifierWatcher on the session bus; skipping system tray"@,
    {
        match self {
            TraySetupError::AppIndicatorMissing => "appindicator library not found; skipping system tray",
            TraySetupError::NoStatusNotifierHost => "no StatusNotifierWatcher on the session bus; skipping system tray",
        }
    }
}

/// Checks, before a tray icon is built, that the session can show one.
///
/// Only Linux needs the check: its tray goes through a loaded appindicator
/// library and a StatusNotifierItem host on the session bus. The library is
/// checked first.
pub fn tray_preflight(
    platform: Platform,
    appindicator_found: bool,
    status_notifier_host_found: bool,
) -> (checked: Result<(), TraySetupError>)
    ensures
        platform != Platform::Linux ==> checked is Ok,
        platform == Platform::Linux ==> checked == (if !appindicator_found {
            Err(TraySetupError::AppIndicatorMissing)
        } else if !status_notifier_host_found {
            Err(TraySetupError::NoStatusNotifierHost)
        } else {
            Ok(())
        }),
{
    match platform {
        Platform::Linux => {
            if !appindicator_found {
                Err(TraySetupError::AppIndicatorMissing)
            } else if !status_notifier_host_found {
                Err(TraySetupError::NoStatusNotifierHost)
            } else {
                Ok(())
            }
        },
        _ => Ok(()),
    }
}

/// What a click on a tray menu entry does.
#[derive(Debug, Clone, Copy, PartialEq, Eq, Structural)]
pub enum TrayMenuAction {
    ShowMainWindow,
    Quit,
    Ignore,
}

/// Whether two texts are the same.
fn same_text(a: &str, b: &str) -> (same: bool)
    ensures
        same == (a@ == b@),
{
    let a_owned = a.to_string();
    let b_owned = b.to_string();
    proof {
        vstd::string::to_string_from_display_ensures_for_str(a, a_owned);
        vstd::string::to_string_from_display_ensures_for_str(b, b_owned);
    }
    a_owned == b_owned
}

/// Maps the identifier of a clicked tray menu entry to its action.
pub fn tray_menu_action(id: &str) -> (action: TrayMenuAction)
    ensures
        action == (if id@ == TRAY_MENU_SHOW_ID@ {
            TrayMenuAction::ShowMainWindow
        } else if id@ == TRAY_MENU_QUIT_ID@ {
            TrayMenuAction::Quit
        } else {
            TrayMenuAction::Ignore
        }),
{
    if same_text(id, TRAY_MENU_SHOW_ID) {
        TrayMenuAction::ShowMainWindow
    } else if same_text(id, TRAY_MENU_QUIT_ID) {
        TrayMenuAction::Quit
    } else {
        TrayMenuAction::Ignore
    }
}

/// The main window as the tray finds it.
#[derive(Debug, Clone, Copy, PartialEq, Eq, Structural)]
pub enum MainWindowVisibility {
    /// There is no main window.
    Missing,
    Visible,
    Hidden,
    /// The window exists but its visibility could not be read.
    Unknown,
}

/// What a left double click on the tray icon does.
#[derive(Debug, Clone, Copy, PartialEq, Eq, Structural)]
pub enum TrayClickAction {
    CloseMainWindow,
    ShowAndFocusMainWindow,
    ShowOrCreateMainWindow,
}

/// A left double click on the tray icon toggles the main window: a visible
/// window is closed, a hidden one (or one whose visibility is unknown) is
/// shown and focused, and a missing one is created.
pub fn tray_double_click_action(window: MainWindowVisibility) -> (action: TrayClickAction)
    ensures
        action == (match window {
            MainWindowVisibility::Missing => TrayClickAction::ShowOrCreateMainWindow,
            MainWindowVisibility::Visible => TrayClickAction::CloseMainWindow,
            MainWindowVisibility::Hidden => TrayClickAction::ShowAndFocusMainWindow,
            MainWindowVisibility::Unknown => TrayClickAction::ShowAndFocusMainWindow,
        }),
{
    match window {
        MainWindowVisibility::Missing => TrayClickAction::ShowOrCreateMainWindow,
        MainWindowVisibility::Visible => TrayClickAction::CloseMainWindow,
        MainWindowVisibility::Hidden => TrayClickAction::ShowAndFocusMainWindow,
        MainWindowVisibility::Unknown => TrayClickAction::ShowAndFocusMainWindow,
    }
}

/// The byte that separates Unix path components.
pub const PATH_SEPARATOR: u8 = 0x2f;

/// Name of the directory, under the app's cache directory, that holds the
/// tray icon image.
pub const TRAY_ICON_DIR_NAME: &'static str = "tray-icon";

/// A relative path `child` joined to `base` the way Unix paths join, on the
/// paths' bytes: a separator goes between them unless `base` is empty or
/// already ends in one.
pub open spec fn join_unix_path(base: Seq<u8>, child: Seq<u8>) -> Seq<u8> {
    if base.len() == 0 {
        child
    } else if base.last() == PATH_SEPARATOR {
        base + child
    } else {
        base + seq![PATH_SEPARATOR] + child
    }
}

/// The directory where the tray writes its icon image, as the bytes of a
/// Unix path: `tray-icon` under the app's cache directory `cache_dir`, which
/// the tray host can read even when the app runs in a sandbox.
pub fn tray_icon_temp_dir(cache_dir: &[u8]) -> (dir: Vec<u8>)
    ensures
        dir@ == join_unix_path(cache_dir@, TRAY_ICON_DIR_NAME.spec_bytes()),
        cache_dir@.is_prefix_of(dir@),
        TRAY_ICON_DIR_NAME.spec_bytes().is_suffix_of(dir@),
{
    let mut dir: Vec<u8> = Vec::new();
    let len = cache_dir.len();
    for i in 0..len
        invariant
            len == cache_dir@.len(),
            dir@ =~= cache_dir@.take(i as int),
    {
        dir.push(cache_dir[i]);
    }
    assert(dir@ =~= cache_dir@);
    if len > 0 && cache_dir[len - 1] != PATH_SEPARATOR {
        dir.push(PATH_SEPARATOR);
    }
    let ghost base = dir@;
    let name = TRAY_ICON_DIR_NAME.as_bytes();
    let name_len = name.len();
    for i in 0..name_len
        invariant
            name_len == name@.len(),
            dir@ =~= base + name@.take(i as int),
    {
        dir.push(name[i]);
    }
    proof {
        let child = TRAY_ICON_DIR_NAME.spec_bytes();
        assert(name@.take(name_len as int) =~= child);
        let joined = join_unix_path(cache_dir@, child);
        assert(joined.subrange(0, cache_dir@.len() as int) =~= cache_dir@);
        assert(joined.subrange(joined.len() - child.len(), joined.len() as int) =~= child);
    }
    dir
}

} // verus!
