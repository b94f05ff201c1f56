use vstd::prelude::*;

use crate::platform::Platform;
use crate::settings::{DesktopRuntimeState, DesktopSettings};

verus! {

/// What to do when the application is asked to exit.
#[derive(Debug, Clone, Copy, PartialEq, Eq, Structural)]
pub enum ExitRequestAction {
    /// Let the process exit.
    AllowExit,
    /// Keep the process alive and close its windows; it lives on in the
    /// background until restored.
    CloseWindowsToBackground,
}

/// What to do when the user closes the main window.
#[derive(Debug, Clone, Copy, PartialEq, Eq, Structural)]
pub enum WindowCloseAction {
    /// Let the window close.
    Close,
    /// Keep the window, hide it, and tell the webview that it went to the
    /// background.
    HideToBackground,
}

/// A hidden app can be brought back: macOS always offers the dock icon,
/// elsewhere only a working tray icon does.
pub open spec fn spec_can_restore_from_background(tray_available: bool, platform: Platform) -> bool {
    platform == Platform::MacOs || tray_available
}

/// Whether the app, once hidden, could be brought back by the user.
pub fn can_restore_from_background(runtime: DesktopRuntimeState, platform: Platform) -> (restorable: bool)
    ensures
        restorable == spec_can_restore_from_background(runtime.tray_available, platform),
{
    match platform {
        Platform::MacOs => true,
        _ => runtime.tray_available,
    }
}

/// The exit policy: an exit with an explicit code (an explicit quit) always
/// goes through; otherwise the app stays in the background only when the
/// user asked for it and it can be restored.
pub open spec fn spec_exit_request_action(
    settings: DesktopSettings,
    tray_available: bool,
    code: Option<i32>,
    platform: Platform,
) -> ExitRequestAction {
    if code is None && settings.close_to_background_on_close && spec_can_restore_from_background(
        tray_available,
        platform,
    ) {
        ExitRequestAction::CloseWindowsToBackground
    } else {
        ExitRequestAction::AllowExit
    }
}

/// Decides an exit request; `code` is the exit code of an explicit exit.
pub fn exit_request_action(
    settings: DesktopSettings,
    runtime: DesktopRuntimeState,
    code: Option<i32>,
    platform: Platform,
) -> (action: ExitRequestAction)
    ensures
        action == spec_exit_request_action(settings, runtime.tray_available, code, platform),
{
    if code.is_some() || !settings.close_to_background_on_close || !can_restore_from_background(
        runtime,
        platform,
    ) {
        ExitRequestAction::AllowExit
    } else {
        ExitRequestAction::CloseWindowsToBackground
    }
}

/// The window-close policy: hide instead of closing only when the user asked
/// for it and the app can be restored.
pub open spec fn spec_window_close_action(
    settings: DesktopSettings,
    tray_available: bool,
    platform: Platform,
) -> WindowCloseAction {
    if settings.close_to_background_on_close && spec_can_restore_from_background(
        tray_available,
        platform,
    ) {
        WindowCloseAction::HideToBackground
    } else {
        WindowCloseAction::Close
    }
}

/// Law: an explicit quit (an exit request that carries a code) is never
/// turned into background mode.
pub proof fn lemma_explicit_quit_bypasses_background(
    settings: DesktopSettings,
    tray_available: bool,
    code: i32,
    platform: Platform,
)
    ensures
        spec_exit_request_action(settings, tray_available, Some(code), platform)
            == ExitRequestAction::AllowExit,
{
}

/// Law: the tray setting alone never keeps the app running; with
/// close-to-background off every exit request is let through.
pub proof fn lemma_tray_alone_does_not_keep_running(
    settings: DesktopSettings,
    tray_available: bool,
    code: Option<i32>,
    platform: Platform,
)
    requires
        !settings.close_to_background_on_close,
    ensures
        spec_exit_request_action(settings, tray_available, code, platform)
            == ExitRequestAction::AllowExit,
        spec_window_close_action(settings, tray_available, platform) == WindowCloseAction::Close,
{
}

/// Law: the app never strands itself. Whenever it stays alive without a
/// window, whether on exit or on closing the window, the user has a way to
/// bring it back.
pub proof fn lemma_background_only_when_restorable(
    settings: DesktopSettings,
    tray_available: bool,
    code: Option<i32>,
    platform: Platform,
)
    ensures
        spec_exit_request_action(settings, tray_available, code, platform)
            == ExitRequestAction::CloseWindowsToBackground ==> spec_can_restore_from_background(
            tray_available,
            platform,
        ),
        spec_window_close_action(settings, tray_available, platform)
            == WindowCloseAction::HideToBackground ==> spec_can_restore_from_background(
            tray_available,
            platform,
        ),
{
}

/// Law: on macOS the app can always go to the background, tray or not;
/// elsewhere, without a tray, it quits.
pub proof fn lemma_background_without_tray(settings: DesktopSettings, platform: Platform)
    requires
        settings.close_to_background_on_close,
    ensures
        spec_exit_request_action(settings, false, None, platform) == (if platform
            == Platform::MacOs {
            ExitRequestAction::CloseWindowsToBackground
        } else {
            ExitRequestAction::AllowExit
        }),
{
}

/// Law: closing the window and asking to exit without a code are decided
/// alike: the window is hidden exactly when the exit is turned into
/// background mode.
pub proof fn lemma_close_and_exit_agree(
    settings: DesktopSettings,
    tray_available: bool,
    platform: Platform,
)
    ensures
        (spec_window_close_action(settings, tray_available, platform)
            == WindowCloseAction::HideToBackground) == (spec_exit_request_action(
            settings,
            tray_available,
            None,
            platform,
        ) == ExitRequestAction::CloseWindowsToBackground),
{
}

} // verus!
