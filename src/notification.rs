//! What the tray's message window does with the shell's icon notifications.
use crate::event::{MouseButton, Point, TrayEvent};
use vstd::prelude::*;

verus! {

/// The window message the shell sends for interaction with the tray icon.
pub const WM_USER_TRAYICON: u32 = 6002;

/// Notification code: left mouse button released over the icon.
pub const WM_LBUTTONUP: u32 = 0x0202;

/// Notification code: right mouse button released over the icon.
pub const WM_RBUTTONUP: u32 = 0x0205;

/// Notification code: middle mouse button released over the icon.
pub const WM_MBUTTONUP: u32 = 0x0208;

/// The button a notification code reports a click of, if any.
pub open spec fn clicked_button(code: u32) -> Option<MouseButton> {
    if code == WM_LBUTTONUP {
        Some(MouseButton::Left)
    } else if code == WM_RBUTTONUP {
        Some(MouseButton::Right)
    } else if code == WM_MBUTTONUP {
        Some(MouseButton::Middle)
    } else {
        None
    }
}

/// What to do for one icon notification.
pub struct NotificationResponse {
    /// Show the attached popup menu at the cursor (after taking the
    /// foreground, so that the menu closes on a click elsewhere).
    pub show_menu: bool,
    /// The event to hand to the application.
    pub event: Option<TrayEvent>,
}

/// Translates an icon notification: a button release becomes a click event at
/// the cursor, and a right-button release also shows the menu when one is
/// attached. Other notifications are ignored.
pub fn handle_notification(code: u32, cursor: Point<i32>, has_menu: bool) -> (r:
    NotificationResponse)
    ensures
        r.show_menu == (code == WM_RBUTTONUP && has_menu),
        match clicked_button(code) {
            Some(b) => r.event matches Some(TrayEvent::Click { button, position }) && button == b
                && position == cursor,
            None => r.event is None,
        },
{
    let button = if code == WM_LBUTTONUP {
        Some(MouseButton::Left)
    } else if code == WM_RBUTTONUP {
        Some(MouseButton::Right)
    } else if code == WM_MBUTTONUP {
        Some(MouseButton::Middle)
    } else {
        None
    };
    let event = match button {
        Some(button) => Some(TrayEvent::Click { button, position: cursor }),
        None => None,
    };
    NotificationResponse { show_menu: code == WM_RBUTTONUP && has_menu, event }
}

} // verus!
