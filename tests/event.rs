use tray::{handle_notification, MouseButton, Point, TrayEvent};
use tray::{WM_LBUTTONUP, WM_MBUTTONUP, WM_RBUTTONUP};

#[test]
fn event_test_tray_event_click() {
    let event = TrayEvent::Click {
        button: MouseButton::Left,
        position: Point::new(100, 200),
    };

    match event {
        TrayEvent::Click { button, position } => {
            assert_eq!(button, MouseButton::Left);
            assert_eq!(position.x, 100);
            assert_eq!(position.y, 200);
        }
        _ => panic!("Expected Click variant"),
    }
}

#[test]
fn event_test_tray_event_scroll() {
    let event = TrayEvent::Scroll {
        delta: Point::new(0, 10),
    };

    match event {
        TrayEvent::Scroll { delta } => {
            assert_eq!(delta.y, 10);
        }
        _ => panic!("Expected Scroll variant"),
    }
}

#[test]
fn test_menu_select() {
    let event = TrayEvent::MenuSelect {
        id: "menu-id".to_string(),
    };

    match event {
        TrayEvent::MenuSelect { id } => {
            assert_eq!(id, "menu-id");
        }
        _ => panic!("Expected MenuSelect variant"),
    }
}

#[test]
fn events_test_tray_event_click() {
    let event = TrayEvent::Click {
        button: MouseButton::Left,
        position: Point::new(100, 200),
    };

    match event {
        TrayEvent::Click { button, position } => {
            assert_eq!(button, MouseButton::Left);
            assert_eq!(position.x, 100);
            assert_eq!(position.y, 200);
        }
        _ => panic!("Expected Click variant"),
    }
}

#[test]
fn events_test_tray_event_scroll() {
    let event = TrayEvent::Scroll {
        delta: Point::new(5, -3),
    };

    match event {
        TrayEvent::Scroll { delta } => {
            assert_eq!(delta.x, 5);
            assert_eq!(delta.y, -3);
        }
        _ => panic!("Expected Scroll variant"),
    }
}

#[test]
fn test_tray_event_menu_select() {
    let event = TrayEvent::MenuSelect {
        id: String::from("item-1"),
    };

    match event {
        TrayEvent::MenuSelect { id } => {
            assert_eq!(id, "item-1");
        }
        _ => panic!("Expected MenuSelect variant"),
    }
}

#[test]
fn lib_test_tray_event_click() {
    let event = TrayEvent::Click {
        button: MouseButton::Left,
        position: Point::new(100, 200),
    };

    match event {
        TrayEvent::Click { button, position } => {
            assert_eq!(button, MouseButton::Left);
            assert_eq!(position.x, 100);
            assert_eq!(position.y, 200);
        }
        _ => panic!("Expected Click variant"),
    }
}

#[test]
fn right_button_release_shows_attached_menu() {
    let r = handle_notification(WM_RBUTTONUP, Point::new(7, -8), true);
    assert!(r.show_menu);
    match r.event {
        Some(TrayEvent::Click { button, position }) => {
            assert_eq!(button, MouseButton::Right);
            assert_eq!(position, Point::new(7, -8));
        }
        _ => panic!("Expected Click variant"),
    }
    assert!(!handle_notification(WM_RBUTTONUP, Point::new(0, 0), false).show_menu);
}

#[test]
fn left_and_middle_release_become_clicks() {
    let left = handle_notification(WM_LBUTTONUP, Point::new(1, 2), true);
    assert!(!left.show_menu);
    assert!(matches!(
        left.event,
        Some(TrayEvent::Click { button: MouseButton::Left, .. })
    ));
    let middle = handle_notification(WM_MBUTTONUP, Point::new(1, 2), true);
    assert!(!middle.show_menu);
    assert!(matches!(
        middle.event,
        Some(TrayEvent::Click { button: MouseButton::Middle, .. })
    ));
}

#[test]
fn other_notifications_are_ignored() {
    // Mouse move over the icon.
    let r = handle_notification(0x0200, Point::new(1, 2), true);
    assert!(!r.show_menu);
    assert!(r.event.is_none());
}
