//! The platform-neutral tray descriptor and the configuration handed to a
//! backend.
use crate::icon::{TrayIcon, TrayIconData};
use crate::menu::MenuItem;
use vstd::prelude::*;

verus! {

/// The desired state of the tray, as declared by the application.
#[derive(Clone)]
pub struct Tray {
    /// Icon to display.
    pub icon: Option<TrayIcon>,
    /// Title text, shown next to the icon where the platform supports it.
    pub title: Option<String>,
    /// Tooltip text.
    pub tooltip: Option<String>,
    /// Whether the tray icon is visible.
    pub visible: bool,
    /// Decoded icon pixels for platform rendering.
    pub icon_data: Option<TrayIconData>,
}

/// What a backend receives for one update: the descriptor's tooltip and
/// visibility, and the menu items already built by the host.
pub struct PlatformConfig {
    pub tooltip: Option<String>,
    pub visible: bool,
    pub menu_items: Option<Vec<MenuItem>>,
}

/// Configuration of the Windows backend.
pub type WindowsTrayConfig = PlatformConfig;

/// Configuration of the Linux backend.
pub type LinuxTrayConfig = PlatformConfig;

/// Configuration of the macOS backend.
pub type MacosTrayConfig = PlatformConfig;

impl Tray {
    /// A visible tray with no icon, title, tooltip or menu.
    pub fn new() -> (r: Self)
        ensures
            r.icon is None,
            r.title is None,
            r.tooltip is None,
            r.visible,
            r.icon_data is None,
    {
        Tray { icon: None, title: None, tooltip: None, visible: true, icon_data: None }
    }

    /// Sets the icon.
    pub fn icon(self, icon: TrayIcon) -> (r: Self)
        ensures
            r == (Tray { icon: Some(icon), ..self }),
    {
        Tray { icon: Some(icon), ..self }
    }

    /// Sets the title.
    pub fn title(self, title: &str) -> (r: Self)
        ensures
            r.title matches Some(t) && t@ == title@,
            r.icon == self.icon,
            r.tooltip == self.tooltip,
            r.visible == self.visible,
            r.icon_data == self.icon_data,
    {
        Tray { title: Some(title.to_string()), ..self }
    }

    /// Sets the tooltip text.
    pub fn tooltip(self, tooltip: &str) -> (r: Self)
        ensures
            r.tooltip matches Some(t) && t@ == tooltip@,
            r.icon == self.icon,
            r.title == self.title,
            r.visible == self.visible,
            r.icon_data == self.icon_data,
    {
        Tray { tooltip: Some(tooltip.to_string()), ..self }
    }

    /// Sets the visibility.
    pub fn visible(self, visible: bool) -> (r: Self)
        ensures
            r == (Tray { visible, ..self }),
    {
        Tray { visible, ..self }
    }

    /// The configuration a backend receives for this descriptor, with the
    /// menu items the host built for it.
    pub fn into_config(self, menu_items: Option<Vec<MenuItem>>) -> (c: PlatformConfig)
        ensures
            c.tooltip == self.tooltip,
            c.visible == self.visible,
            c.menu_items == menu_items,
    {
        PlatformConfig { tooltip: self.tooltip, visible: self.visible, menu_items }
    }
}

impl Default for Tray {
    fn default() -> (r: Self)
        ensures
            r.icon is None,
            r.title is None,
            r.tooltip is None,
            r.visible,
            r.icon_data is None,
    {
        Tray::new()
    }
}

} // verus!
