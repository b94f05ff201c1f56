use vstd::prelude::*;

use crate::platform::Platform;
use crate::policy::{
    exit_request_action, spec_exit_request_action, spec_window_close_action, ExitRequestAction,
    WindowCloseAction,
};
use crate::settings::{
    desktop_settings_from_values, spec_desktop_settings_from_values,
    spec_use_custom_title_bar_default, DesktopRuntimeState,
    DesktopSettings,
};
use crate::tray::{spec_tray_action, spec_tray_available_after, tray_available_after, TrayAction};

verus! {

/// The abstract contents of a [`DesktopSettingsState`].
pub struct DesktopStateView {
    /// The settings in effect.
    pub settings: DesktopSettings,
    /// A tray icon exists and can restore the window.
    pub tray_available: bool,
    /// The registered toggle-window shortcut, if any.
    pub toggle_window_shortcut: Option<Seq<char>>,
}

impl DesktopStateView {
    /// The state at startup: every setting at its default, no tray yet, no
    /// shortcut registered.
    pub open spec fn initial(platform: Platform) -> DesktopStateView {
        DesktopStateView {
            settings: spec_desktop_settings_from_values(None, None, None, None, None, platform),
            tray_available: false,
            toggle_window_shortcut: None,
        }
    }

    pub open spec fn with_settings(self, settings: DesktopSettings) -> DesktopStateView {
        DesktopStateView { settings, ..self }
    }

    pub open spec fn with_toggle_window_shortcut(self, binding: Option<Seq<char>>) -> DesktopStateView {
        DesktopStateView { toggle_window_shortcut: binding, ..self }
    }

    /// The state once the outcome of a tray action has been recorded
    /// against the settings in effect.
    pub open spec fn after_tray_outcome(self, action: TrayAction, created: bool) -> DesktopStateView {
        DesktopStateView {
            tray_available: spec_tray_available_after(self.settings, action, created),
            ..self
        }
    }

    /// How an exit request is answered in this state.
    pub open spec fn exit_action(self, code: Option<i32>, platform: Platform) -> ExitRequestAction {
        spec_exit_request_action(self.settings, self.tray_available, code, platform)
    }

    /// How closing the main window is answered in this state.
    pub open spec fn close_action(self, platform: Platform) -> WindowCloseAction {
        spec_window_close_action(self.settings, self.tray_available, platform)
    }
}

/// What the running shell knows about its settings, its tray and its
/// toggle-window shortcut. The application keeps one of these and consults
/// it on every window-close and exit request.
pub struct DesktopSettingsState {
    close_to_background_on_close: bool,
    show_system_tray_icon: bool,
    use_custom_title_bar: bool,
    spellcheck: bool,
    tray_available: bool,
    /// Currently registered toggle-window global shortcut in web hotkey
    /// format, or `None` when the feature is disabled; kept so that the
    /// runtime state can be reported without reading the store again.
    toggle_window_shortcut: Option<String>,
}

impl View for DesktopSettingsState {
    type V = DesktopStateView;

    closed spec fn view(&self) -> DesktopStateView {
        DesktopStateView {
            settings: DesktopSettings {
                close_to_background_on_close: self.close_to_background_on_close,
                show_system_tray_icon: self.show_system_tray_icon,
                use_custom_title_bar: self.use_custom_title_bar,
                spellcheck: self.spellcheck,
            },
            tray_available: self.tray_available,
            toggle_window_shortcut: self.toggle_window_shortcut.deep_view(),
        }
    }
}

/// A copy of a binding.
fn copy_binding(binding: &Option<String>) -> (copy: Option<String>)
    ensures
        copy == *binding,
{
    match binding {
        Some(text) => Some(text.clone()),
        None => None,
    }
}

impl DesktopSettingsState {
    /// The state at startup on the given platform.
    pub fn for_platform(platform: Platform) -> (state: DesktopSettingsState)
        ensures
            state@ == DesktopStateView::initial(platform),
            state@.settings.close_to_background_on_close,
            state@.settings.show_system_tray_icon,
            state@.settings.spellcheck,
            state@.settings.use_custom_title_bar == spec_use_custom_title_bar_default(platform),
            !state@.tray_available,
            state@.toggle_window_shortcut is None,
    {
        let defaults = desktop_settings_from_values(None, None, None, None, None, platform);
        DesktopSettingsState {
            close_to_background_on_close: defaults.close_to_background_on_close,
            show_system_tray_icon: defaults.show_system_tray_icon,
            use_custom_title_bar: defaults.use_custom_title_bar,
            spellcheck: defaults.spellcheck,
            tray_available: false,
            toggle_window_shortcut: None,
        }
    }

    /// The settings in effect.
    pub fn settings(&self) -> (settings: DesktopSettings)
        ensures
            settings == self@.settings,
    {
        DesktopSettings {
            close_to_background_on_close: self.close_to_background_on_close,
            show_system_tray_icon: self.show_system_tray_icon,
            use_custom_title_bar: self.use_custom_title_bar,
            spellcheck: self.spellcheck,
        }
    }

    /// What the shell reports about itself: tray availability and the
    /// registered shortcut.
    pub fn runtime_state(&self) -> (runtime: DesktopRuntimeState)
        ensures
            runtime.tray_available == self@.tray_available,
            runtime.toggle_window_shortcut.deep_view() == self@.toggle_window_shortcut,
    {
        DesktopRuntimeState {
            tray_available: self.tray_available,
            toggle_window_shortcut: copy_binding(&self.toggle_window_shortcut),
        }
    }

    /// The registered toggle-window shortcut, if any.
    pub fn toggle_window_shortcut(&self) -> (binding: Option<String>)
        ensures
            binding.deep_view() == self@.toggle_window_shortcut,
    {
        copy_binding(&self.toggle_window_shortcut)
    }

    /// Records the toggle-window shortcut; `None` records that the feature
    /// is off. Nothing else changes.
    pub fn set_toggle_window_shortcut(&mut self, binding: Option<String>)
        ensures
            final(self)@ == old(self)@.with_toggle_window_shortcut(binding.deep_view()),
    {
        self.toggle_window_shortcut = binding;
    }

    /// Takes on new settings. The tray availability is left as it is until
    /// the tray has been dealt with and [`Self::record_tray_outcome`] is
    /// called.
    pub fn store_settings(&mut self, settings: DesktopSettings)
        ensures
            final(self)@ == old(self)@.with_settings(settings),
    {
        self.close_to_background_on_close = settings.close_to_background_on_close;
        self.show_system_tray_icon = settings.show_system_tray_icon;
        self.use_custom_title_bar = settings.use_custom_title_bar;
        self.spellcheck = settings.spellcheck;
    }

    /// Records the outcome of the tray action carried out for the settings
    /// in effect; `created` tells whether creating the icon succeeded and
    /// matters only for [`TrayAction::Create`]. The tray is usable when the
    /// settings want one and an icon is there: it was kept, or it was
    /// created.
    pub fn record_tray_outcome(&mut self, action: TrayAction, created: bool)
        ensures
            final(self)@ == old(self)@.after_tray_outcome(action, created),
            final(self)@.tray_available == (old(self)@.settings.show_system_tray_icon && (action
                == TrayAction::KeepExisting || (action == TrayAction::Create && created))),
    {
        let settings = self.settings();
        self.tray_available = tray_available_after(settings, action, created);
    }

    /// How to answer the user closing the main window.
    pub fn window_close_action(&self, platform: Platform) -> (action: WindowCloseAction)
        ensures
            action == self@.close_action(platform),
            (action == WindowCloseAction::HideToBackground) <==> (
            self@.settings.close_to_background_on_close && (platform == Platform::MacOs
                || self@.tray_available)),
    {
        let settings = self.settings();
        if settings.close_to_background_on_close && crate::policy::can_restore_from_background(
            self.runtime_state(),
            platform,
        ) {
            WindowCloseAction::HideToBackground
        } else {
            WindowCloseAction::Close
        }
    }

    /// How to answer an exit request; `code` is the code of an explicit
    /// exit.
    pub fn handle_exit_request(&self, code: Option<i32>, platform: Platform) -> (action:
        ExitRequestAction)
        ensures
            action == self@.exit_action(code, platform),
            (action == ExitRequestAction::CloseWindowsToBackground) <==> (code is None
                && self@.settings.close_to_background_on_close && (platform == Platform::MacOs
                || self@.tray_available)),
    {
        exit_request_action(self.settings(), self.runtime_state(), code, platform)
    }

    /// At startup: records the shortcut read from the store once the attempt
    /// to register it is known. `registration` is how registering `stored`
    /// with the system went; when the store holds no shortcut nothing is
    /// registered and `registration` is not consulted. The state only ever
    /// names a shortcut the system accepted: a rejected one leaves no
    /// shortcut recorded, and its error is handed back to be reported.
    pub fn restore_toggle_window_shortcut(
        &mut self,
        stored: Option<String>,
        registration: Result<(), String>,
    ) -> (failure: Option<String>)
        ensures
            stored is None ==> final(self)@ == old(self)@.with_toggle_window_shortcut(None)
                && failure is None,
            stored is Some && registration is Ok ==> final(self)@
                == old(self)@.with_toggle_window_shortcut(stored.deep_view()) && failure is None,
            stored is Some ==> (registration matches Err(error) ==> final(self)@
                == old(self)@.with_toggle_window_shortcut(None) && failure == Some(error)),
    {
        match stored {
            None => {
                self.toggle_window_shortcut = None;
                None
            },
            Some(binding) => match registration {
                Ok(()) => {
                    self.toggle_window_shortcut = Some(binding);
                    None
                },
                Err(error) => {
                    self.toggle_window_shortcut = None;
                    Some(error)
                },
            },
        }
    }

    /// Finishes a change of the toggle-window shortcut, given how registering
    /// it with the system went and, after a successful registration, how
    /// persisting it went (`persistence` is not consulted when registration
    /// failed).
    ///
    /// A rejected registration changes nothing and its error is handed back,
    /// so the state never claims a binding the system rejected. Once the
    /// system accepted the binding it is recorded, since it is now the
    /// registered one; a failure to persist it is then handed back, and
    /// otherwise the refreshed runtime state is returned.
    pub fn commit_toggle_window_shortcut(
        &mut self,
        binding: Option<String>,
        registration: Result<(), String>,
        persistence: Result<(), String>,
    ) -> (result: Result<DesktopRuntimeState, String>)
        ensures
            registration matches Err(error) ==> result == Err::<DesktopRuntimeState, String>(error)
                && final(self)@ == old(self)@,
            registration is Ok ==> final(self)@ == old(self)@.with_toggle_window_shortcut(
                binding.deep_view(),
            ),
            registration is Ok ==> (persistence matches Err(error) ==> result == Err::<
                DesktopRuntimeState,
                String,
            >(error)),
            registration is Ok && persistence is Ok ==> (result matches Ok(runtime)
                && runtime.tray_available == old(self)@.tray_available
                && runtime.toggle_window_shortcut.deep_view() == binding.deep_view()),
    {
        match registration {
            Err(error) => Err(error),
            Ok(()) => {
                self.set_toggle_window_shortcut(binding);
                match persistence {
                    Err(error) => Err(error),
                    Ok(()) => Ok(self.runtime_state()),
                }
            },
        }
    }
}

/// Whether a new toggle-window shortcut is to be persisted, given how
/// registering it with the system went: only once the system accepted it,
/// so that the store never claims a binding the system rejected.
pub fn persist_toggle_window_shortcut_after(registration: &Result<(), String>) -> (persist: bool)
    ensures
        persist == registration is Ok,
{
    match registration {
        Ok(()) => true,
        Err(_) => false,
    }
}

/// At startup, the shortcut to register with the system: the one the store
/// holds. When it holds none, nothing is registered.
pub fn toggle_window_shortcut_to_register(stored: &Option<String>) -> (to_register: Option<
    String,
>)
    ensures
        to_register == *stored,
        stored is None ==> to_register is None,
{
    copy_binding(stored)
}

/// Law: the startup state has every setting at its default: closing to
/// the background, the tray icon and spellchecking on, the platform's
/// title-bar default, the same settings that a store without values gives,
/// no tray yet and no shortcut.
pub proof fn lemma_initial_state_defaults(platform: Platform)
    ensures
        DesktopStateView::initial(platform).settings.close_to_background_on_close,
        DesktopStateView::initial(platform).settings.show_system_tray_icon,
        DesktopStateView::initial(platform).settings.spellcheck,
        DesktopStateView::initial(platform).settings.use_custom_title_bar
            == spec_use_custom_title_bar_default(platform),
        DesktopStateView::initial(platform).settings == spec_desktop_settings_from_values(
            None,
            None,
            None,
            None,
            None,
            platform,
        ),
        !DesktopStateView::initial(platform).tray_available,
        DesktopStateView::initial(platform).toggle_window_shortcut is None,
{
}

/// Law: in any state, an exit request is let through when close-to-background
/// is off or the request carries an exit code; otherwise the app stays in
/// the background exactly when it can be restored (macOS, or a usable tray).
/// A tray alone never keeps the app running.
pub proof fn lemma_state_exit_answer(state: DesktopStateView, code: Option<i32>, platform: Platform)
    ensures
        !state.settings.close_to_background_on_close ==> state.exit_action(code, platform)
            == ExitRequestAction::AllowExit,
        code is Some ==> state.exit_action(code, platform) == ExitRequestAction::AllowExit,
        state.settings.close_to_background_on_close && code is None ==> ((state.exit_action(
            code,
            platform,
        ) == ExitRequestAction::CloseWindowsToBackground) <==> (platform == Platform::MacOs
            || state.tray_available)),
{
}

/// Law: in any state, closing the main window really closes it when
/// close-to-background is off, whatever the tray and platform; with it on,
/// the window is hidden exactly when the app can be restored.
pub proof fn lemma_state_close_answer(state: DesktopStateView, platform: Platform)
    ensures
        !state.settings.close_to_background_on_close ==> state.close_action(platform)
            == WindowCloseAction::Close,
        state.settings.close_to_background_on_close ==> ((state.close_action(platform)
            == WindowCloseAction::HideToBackground) <==> (platform == Platform::MacOs
            || state.tray_available)),
{
}

/// Law: a shortcut that was set is the one read back, and setting it
/// changes nothing else.
pub proof fn lemma_shortcut_read_back(state: DesktopStateView, binding: Option<Seq<char>>)
    ensures
        state.with_toggle_window_shortcut(binding).toggle_window_shortcut == binding,
        state.with_toggle_window_shortcut(binding).settings == state.settings,
        state.with_toggle_window_shortcut(binding).tray_available == state.tray_available,
{
}

/// Law: settings that were stored are the ones read back, and storing them
/// changes neither the tray availability nor the shortcut.
pub proof fn lemma_settings_read_back(state: DesktopStateView, settings: DesktopSettings)
    ensures
        state.with_settings(settings).settings == settings,
        state.with_settings(settings).tray_available == state.tray_available,
        state.with_settings(settings).toggle_window_shortcut == state.toggle_window_shortcut,
{
}

/// Law: once a tray outcome has been recorded, the tray is reported usable
/// only if the settings in effect ask for a tray.
pub proof fn lemma_tray_available_needs_setting(
    state: DesktopStateView,
    action: TrayAction,
    created: bool,
)
    ensures
        state.after_tray_outcome(action, created).tray_available
            ==> state.settings.show_system_tray_icon,
{
}

/// Law: a failed tray does not strand the process. Once the failure is
/// recorded, outside macOS an exit request quits and closing the window
/// really closes it.
pub proof fn lemma_tray_failure_allows_exit(state: DesktopStateView, platform: Platform)
    requires
        platform != Platform::MacOs,
    ensures
        state.after_tray_outcome(TrayAction::Create, false).exit_action(None, platform)
            == ExitRequestAction::AllowExit,
        state.after_tray_outcome(TrayAction::Create, false).close_action(platform)
            == WindowCloseAction::Close,
{
}

/// Law: applying settings (storing them, then recording the outcome of the
/// tray action they call for) leaves exactly those settings in effect,
/// keeps the shortcut, and reports a usable tray exactly where one is
/// wanted, the platform is not macOS, and an icon exists or was created.
pub proof fn lemma_applied_settings_take_effect(
    state: DesktopStateView,
    settings: DesktopSettings,
    platform: Platform,
    tray_exists: bool,
    created: bool,
)
    ensures
        ({
            let applied = state.with_settings(settings).after_tray_outcome(
                spec_tray_action(settings, platform, tray_exists),
                created,
            );
            &&& applied.settings == settings
            &&& applied.toggle_window_shortcut == state.toggle_window_shortcut
            &&& applied.tray_available <==> (settings.show_system_tray_icon && platform
                != Platform::MacOs && (tray_exists || created))
        }),
{
    crate::tray::lemma_tray_available_only_when_present(settings, platform, tray_exists, created);
}

/// Law: at startup, before any tray exists, closing to the background is
/// possible on macOS only.
pub proof fn lemma_startup_background_only_on_macos(platform: Platform, code: Option<i32>)
    ensures
        (DesktopStateView::initial(platform).exit_action(code, platform)
            == ExitRequestAction::CloseWindowsToBackground) == (platform == Platform::MacOs
            && code is None),
{
}

} // verus!
