use tray::{
    encode_wide, tooltip_buffer, LinuxTray, LinuxTrayState, MacosTray, MacosTrayState, MenuItem,
    NativeCall, PlatformConfig, ShellVerb, TrayError, WindowsTray, WindowsTrayState,
    TIP_BUFFER_LEN,
};

fn config(visible: bool, tooltip: Option<&str>, menu: bool) -> PlatformConfig {
    PlatformConfig {
        tooltip: tooltip.map(|t| t.to_string()),
        visible,
        menu_items: if menu {
            Some(vec![MenuItem::new("quit", "Quit")])
        } else {
            None
        },
    }
}

/// Plays the host: performs each planned call, failing the one at `fail_at`,
/// and records the outcomes. Returns the calls made and the menus released.
fn apply(
    state: &mut WindowsTrayState,
    config: &PlatformConfig,
    fail_at: Option<usize>,
    next_handle: &mut isize,
) -> (Vec<NativeCall>, Vec<isize>, Result<(), TrayError>) {
    let update = state.update_tray(config);
    let mut made = Vec::new();
    let mut released = Vec::new();
    for (i, call) in update.calls.iter().enumerate() {
        assert!(state.can_record(*call));
        made.push(*call);
        let ok = fail_at != Some(i);
        *next_handle += 1;
        match state.record(*call, ok, *next_handle) {
            Ok(Some(old)) => released.push(old),
            Ok(None) => {}
            Err(e) => return (made, released, Err(e)),
        }
    }
    (made, released, Ok(()))
}

#[test]
fn lib_test_windows_tray_new() {
    let tray = WindowsTray::new();
    assert_eq!(tray.tray_id(), 0);
    assert!(!tray.visible());
}

#[test]
fn tray_test_windows_tray_new() {
    let tray = WindowsTray::new();
    assert_eq!(tray.tray_id(), 0);
    assert!(!tray.visible());
}

#[test]
fn lib_test_linux_tray_new() {
    let tray = LinuxTray::new();
    assert!(!tray.visible());
}

#[test]
fn tray_test_linux_tray_new() {
    let tray = LinuxTray::new();
    assert!(!tray.visible());
}

#[test]
fn lib_test_macos_tray_new() {
    let tray = MacosTray::new();
    assert!(!tray.visible());
}

#[test]
fn tray_test_macos_tray_new() {
    let tray = MacosTray::new();
    assert!(!tray.visible());
}

#[test]
fn first_visible_update_creates_window_adds_icon_attaches_menu() {
    let mut state = WindowsTrayState::new();
    let mut h = 100;
    let (calls, released, r) = apply(&mut state, &config(true, Some("Ready"), true), None, &mut h);
    assert_eq!(r, Ok(()));
    assert_eq!(
        calls,
        vec![
            NativeCall::CreateWindow,
            NativeCall::Notify(ShellVerb::Add),
            NativeCall::AttachMenu
        ]
    );
    assert!(released.is_empty());
    let tray = state.tray().unwrap();
    assert!(tray.visible());
    assert_eq!(tray.window(), Some(101));
    assert_eq!(tray.menu(), Some(103));
    assert_eq!(tray.tray_id(), 0);
}

#[test]
fn second_visible_update_modifies_in_place() {
    let mut state = WindowsTrayState::new();
    let mut h = 0;
    apply(&mut state, &config(true, Some("Ready"), false), None, &mut h);
    let update = state.update_tray(&config(true, Some("Busy"), false));
    assert_eq!(update.calls, vec![NativeCall::Notify(ShellVerb::Modify)]);
    let busy: Vec<u16> = "Busy".encode_utf16().collect();
    let tip = update.tip.unwrap();
    assert_eq!(&tip[..4], &busy[..]);
    assert!(tip[4..].iter().all(|u| *u == 0));
}

#[test]
fn show_hide_show_adds_twice_and_deletes_once_in_order() {
    let mut state = WindowsTrayState::new();
    let mut h = 0;
    let mut trace = Vec::new();
    for visible in [true, false, true] {
        let (calls, _, r) = apply(&mut state, &config(visible, None, false), None, &mut h);
        assert_eq!(r, Ok(()));
        trace.extend(calls);
    }
    let notifies: Vec<ShellVerb> = trace
        .iter()
        .filter_map(|c| match c {
            NativeCall::Notify(v) => Some(*v),
            _ => None,
        })
        .collect();
    assert_eq!(
        notifies,
        vec![ShellVerb::Add, ShellVerb::Delete, ShellVerb::Add]
    );
    assert_eq!(
        trace.iter().filter(|c| **c == NativeCall::CreateWindow).count(),
        1
    );
}

#[test]
fn hide_then_show_keeps_identifier_and_window() {
    let mut state = WindowsTrayState::new();
    let mut h = 40;
    apply(&mut state, &config(true, None, false), None, &mut h);
    let window = state.tray().unwrap().window();
    apply(&mut state, &config(false, None, false), None, &mut h);
    assert!(!state.tray().unwrap().visible());
    let (calls, _, _) = apply(&mut state, &config(true, None, true), None, &mut h);
    assert_eq!(
        calls,
        vec![NativeCall::Notify(ShellVerb::Add), NativeCall::AttachMenu]
    );
    let tray = state.tray().unwrap();
    assert!(tray.visible());
    assert_eq!(tray.tray_id(), 0);
    assert_eq!(tray.window(), window);
}

#[test]
fn hidden_first_update_makes_no_native_call() {
    let mut state = WindowsTrayState::new();
    let update = state.update_tray(&config(false, Some("x"), true));
    assert!(update.calls.is_empty());
    assert!(update.menu.is_none());
    assert!(!state.tray().unwrap().visible());
    // Hidden to hidden is still nothing.
    assert!(state.update_tray(&config(false, None, false)).calls.is_empty());
}

#[test]
fn each_menu_update_releases_the_previous_menu() {
    let mut state = WindowsTrayState::new();
    let mut h = 0;
    let mut released = Vec::new();
    let mut attached = Vec::new();
    for _ in 0..5 {
        let (_, rel, r) = apply(&mut state, &config(true, None, true), None, &mut h);
        assert_eq!(r, Ok(()));
        released.extend(rel);
        attached.push(state.tray().unwrap().menu().unwrap());
    }
    assert_eq!(released, attached[..4].to_vec());
    assert_eq!(state.tray().unwrap().menu(), Some(attached[4]));
}

#[test]
fn window_creation_failure_is_reported() {
    let mut state = WindowsTrayState::new();
    let mut h = 0;
    let (calls, _, r) = apply(&mut state, &config(true, None, false), Some(0), &mut h);
    assert_eq!(calls, vec![NativeCall::CreateWindow]);
    assert_eq!(r, Err(TrayError::WindowCreationFailed));
    let tray = state.tray().unwrap();
    assert_eq!(tray.window(), None);
    assert!(!tray.visible());
    // The next update tries again from the window.
    let update = state.update_tray(&config(true, None, false));
    assert_eq!(update.calls[0], NativeCall::CreateWindow);
}

#[test]
fn icon_registration_failure_is_reported_and_retried_with_add() {
    let mut state = WindowsTrayState::new();
    let mut h = 0;
    let (_, _, r) = apply(&mut state, &config(true, None, false), Some(1), &mut h);
    assert_eq!(r, Err(TrayError::IconRegistrationFailed));
    assert!(!state.tray().unwrap().visible());
    let update = state.update_tray(&config(true, None, false));
    assert_eq!(update.calls, vec![NativeCall::Notify(ShellVerb::Add)]);
}

#[test]
fn failed_delete_keeps_icon_registered() {
    let mut state = WindowsTrayState::new();
    let mut h = 0;
    apply(&mut state, &config(true, None, false), None, &mut h);
    let (_, _, r) = apply(&mut state, &config(false, None, false), Some(0), &mut h);
    assert_eq!(r, Err(TrayError::IconRegistrationFailed));
    assert!(state.tray().unwrap().visible());
}

#[test]
fn menu_build_failure_keeps_previous_menu() {
    let mut state = WindowsTrayState::new();
    let mut h = 0;
    apply(&mut state, &config(true, None, true), None, &mut h);
    let before = state.tray().unwrap().menu();
    let (_, released, r) = apply(&mut state, &config(true, None, true), Some(1), &mut h);
    assert_eq!(r, Err(TrayError::MenuBuildFailed));
    assert!(released.is_empty());
    assert_eq!(state.tray().unwrap().menu(), before);
}

#[test]
fn record_needs_a_tray() {
    let state = WindowsTrayState::new();
    assert!(!state.can_record(NativeCall::CreateWindow));
    assert!(state.tray().is_none());
}

#[test]
fn long_tooltip_is_cut_to_127_units_and_terminated() {
    let long = "x".repeat(300);
    let buf = tooltip_buffer(&long);
    assert_eq!(buf.len(), TIP_BUFFER_LEN);
    assert!(buf[..127].iter().all(|u| *u == 'x' as u16));
    assert_eq!(buf[127], 0);
}

#[test]
fn tooltip_of_exactly_127_units_fits() {
    let tip = "y".repeat(127);
    let buf = tooltip_buffer(&tip);
    assert!(buf[..127].iter().all(|u| *u == 'y' as u16));
    assert_eq!(buf[127], 0);
    let short = tooltip_buffer("");
    assert!(short.iter().all(|u| *u == 0));
}

#[test]
fn tooltip_counts_surrogate_pairs_as_two_units() {
    // 126 units, then a character outside the basic plane (two units).
    let tip = format!("{}{}", "a".repeat(126), '\u{1F600}');
    let buf = tooltip_buffer(&tip);
    assert_eq!(buf[125], 'a' as u16);
    assert_eq!(buf[126], 0xD83D);
    assert_eq!(buf[127], 0);
}

#[test]
fn encode_wide_appends_terminator() {
    assert_eq!(encode_wide("Hi"), vec![0x48, 0x69, 0]);
    assert_eq!(encode_wide("\u{1F600}é"), vec![0xD83D, 0xDE00, 0xE9, 0]);
    assert_eq!(encode_wide(""), vec![0]);
}

#[test]
fn unsupported_platforms_report_show_requests() {
    let mut linux = LinuxTrayState::new();
    assert_eq!(
        linux.update_tray(&config(true, Some("Ready"), false)),
        Err(TrayError::UnsupportedPlatform)
    );
    assert_eq!(linux.update_tray(&config(false, None, false)), Ok(()));
    let mut mac = MacosTrayState::new();
    assert_eq!(
        mac.update_tray(&config(true, None, true)),
        Err(TrayError::UnsupportedPlatform)
    );
    let mut tray = MacosTray::new();
    assert_eq!(tray.update(&config(true, None, false)), Err(TrayError::UnsupportedPlatform));
    assert!(tray.visible());
}
