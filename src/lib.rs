//! System-tray library: a platform-neutral tray descriptor, and backends that
//! decide which native shell calls bring the tray to the requested state.
//!
//! The Windows backend is a state machine: for each requested configuration it
//! plans the native calls (create the message window, add / modify / delete the
//! shell icon, attach the popup menu), and it records the outcome of each call
//! as the host performs it. The Linux and macOS backends have no native side and
//! report that explicitly.

mod descriptor;
mod error;
mod event;
mod icon;
mod laws;
mod menu;
mod native_menu;
mod notification;
mod unsupported;
mod wide;
mod windows_tray;

pub use descriptor::{LinuxTrayConfig, MacosTrayConfig, PlatformConfig, Tray, WindowsTrayConfig};
pub use error::TrayError;
pub use event::{MouseButton, Point, TrayEvent};
pub use icon::{icon_and_mask, ImageFormat, TrayIcon, TrayIconData};
pub use laws::{
    lemma_hide_then_show, lemma_menus_released, lemma_single_registration, Round, ShellRun,
};
pub use menu::{MenuItem, MenuItemKind};
pub use native_menu::{build_menu, MenuEntry, NativeMenu};
pub use notification::{
    handle_notification, NotificationResponse, WM_LBUTTONUP, WM_MBUTTONUP, WM_RBUTTONUP,
    WM_USER_TRAYICON,
};
pub use unsupported::{
    LinuxTray, LinuxTrayState, MacosTray, MacosTrayState, UnsupportedTray, UnsupportedTrayState,
};
pub use wide::{encode_wide, tooltip_buffer, TIP_BUFFER_LEN, TIP_MAX_UNITS};
pub use windows_tray::{
    NativeCall, ShellVerb, TrayModel, TrayUpdate, WindowsTray, WindowsTrayState,
};
