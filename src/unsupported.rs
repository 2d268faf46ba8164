//! Backends for platforms without a native tray implementation. They keep the
//! same bookkeeping as the Windows backend and report, rather than silently
//! ignore, every request to show the tray.
use crate::descriptor::PlatformConfig;
use crate::error::TrayError;
use vstd::prelude::*;

verus! {

/// A tray on a platform with no native backend.
pub struct UnsupportedTray {
    visible: bool,
}

impl UnsupportedTray {
    /// A tray that has not been asked to show.
    pub fn new() -> (r: Self)
        ensures
            !r.requested(),
    {
        UnsupportedTray { visible: false }
    }

    /// The visibility last requested.
    pub closed spec fn requested(&self) -> bool {
        self.visible
    }

    pub fn visible(&self) -> (r: bool)
        ensures
            r == self.requested(),
    {
        self.visible
    }

    /// Records the requested visibility; a request to show fails, as there is
    /// nothing native to show.
    pub fn update(&mut self, config: &PlatformConfig) -> (r: Result<(), TrayError>)
        ensures
            final(self).requested() == config.visible,
            r == (if config.visible {
                Err(TrayError::UnsupportedPlatform)
            } else {
                Ok(())
            }),
    {
        self.visible = config.visible;
        if config.visible {
            Err(TrayError::UnsupportedPlatform)
        } else {
            Ok(())
        }
    }
}

/// The process's backend on such a platform: no tray until the first update.
pub struct UnsupportedTrayState {
    tray: Option<UnsupportedTray>,
}

impl UnsupportedTrayState {
    /// Whether the first update has created the tray.
    pub closed spec fn has_tray(&self) -> bool {
        self.tray is Some
    }

    /// The visibility last requested, once there is a tray.
    pub closed spec fn requested(&self) -> bool {
        match self.tray {
            Some(t) => t.requested(),
            None => false,
        }
    }

    pub fn new() -> (r: Self)
        ensures
            !r.has_tray(),
    {
        UnsupportedTrayState { tray: None }
    }

    /// Creates the tray on the first update, then updates it.
    pub fn update_tray(&mut self, config: &PlatformConfig) -> (r: Result<(), TrayError>)
        ensures
            final(self).has_tray(),
            final(self).requested() == config.visible,
            r == (if config.visible {
                Err(TrayError::UnsupportedPlatform)
            } else {
                Ok(())
            }),
    {
        let mut t = match self.tray.take() {
            Some(t) => t,
            None => UnsupportedTray::new(),
        };
        let r = t.update(config);
        self.tray = Some(t);
        r
    }
}

/// The Linux backend: no StatusNotifierItem implementation yet.
pub type LinuxTray = UnsupportedTray;

/// The Linux backend's process-wide state.
pub type LinuxTrayState = UnsupportedTrayState;

/// The macOS backend: no status-bar implementation yet.
pub type MacosTray = UnsupportedTray;

/// The macOS backend's process-wide state.
pub type MacosTrayState = UnsupportedTrayState;

} // verus!
