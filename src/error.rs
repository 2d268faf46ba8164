use vstd::prelude::*;

verus! {

/// Why a tray update could not be carried out.
#[derive(Clone, Copy, Debug, PartialEq, Eq, Structural)]
pub enum TrayError {
    /// The hidden message window that owns the icon could not be created.
    WindowCreationFailed,
    /// The shell refused to add, modify or delete the notification icon.
    IconRegistrationFailed,
    /// The native popup menu could not be built.
    MenuBuildFailed,
    /// The platform has no native tray backend; nothing can be shown.
    UnsupportedPlatform,
}

} // verus!
