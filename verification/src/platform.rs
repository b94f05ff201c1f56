use vstd::prelude::*;

verus! {

/// The operating system family the desktop shell is running on.
///
/// Tray and window behaviour differ per platform; the application passes
/// the platform it was built for.
#[derive(Debug, Clone, Copy, PartialEq, Eq, Structural)]
pub enum Platform {
    Linux,
    MacOs,
    Windows,
    Other,
}

/// Whether clicks on the tray icon reach the application.
///
/// Linux trays go through a StatusNotifierItem host, which delivers no icon
/// click events, so only the tray menu works there.
pub fn tray_icon_events_supported(platform: Platform) -> (supported: bool)
    ensures
        supported == (platform != Platform::Linux),
{
    match platform {
        Platform::Linux => false,
        _ => true,
    }
}

} // verus!
